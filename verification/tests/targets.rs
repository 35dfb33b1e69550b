use crepuscularity_cli::crepus_toml::{resolved_targets, web_rows, TargetRow, WebShorthand};
use crepuscularity_cli::build_options::BuildOptionsArgs;
use crepuscularity_cli::crepus_toml::{
    absolutize, find_manifest_upward, is_web_type, pick_targets, resolve_pick, row_site, target_id,
    web_entry, web_target_id,
};
use crepuscularity_cli::target_build::{
    args_conflict, embedded_size, lvgl_root, native_pretty, normalize_selector, pick_targets_by_selector,
    select_targets, target_kind, target_output, target_template, LvglRootChoice, ManifestBuildArgs, TargetKind,
};

fn strings(v: &[&str]) -> Vec<String> {
    v.iter().map(|s| s.to_string()).collect()
}

fn args(target_id: Option<&str>, selector: Option<&str>, all: bool) -> ManifestBuildArgs {
    ManifestBuildArgs {
        options: BuildOptionsArgs::new().into_options().unwrap(),
        target_id: target_id.map(|s| s.to_string()),
        selector: selector.map(|s| s.to_string()),
        manifest: None,
        all,
    }
}

#[test]
fn rows_resolve_their_directories_and_ids() {
    assert_eq!(row_site(&None, &Some("p".into()), &Some("a".into())), "p");
    assert_eq!(row_site(&None, &None, &None), ".");
    assert_eq!(web_entry(&Some(String::new())), "index.crepus");
    assert_eq!(web_entry(&Some("main.crepus".into())), "main.crepus");
    assert_eq!(absolutize("/proj", "site"), "/proj/site");
    assert_eq!(absolutize("/proj", "/abs"), "/abs");
    assert!(is_web_type("WeB"));
    assert!(!is_web_type("webext"));
    assert_eq!(web_target_id(&None, "/proj/sites/blog"), "blog");
    assert_eq!(web_target_id(&None, "/"), "default");
    assert_eq!(target_id(&None, "..", 3), "target-3");
    assert_eq!(target_id(&Some("x".into()), "dir", 3), "x");
}

#[test]
fn picking_targets_by_id() {
    let ids = strings(&["web", "ext"]);
    assert_eq!(pick_targets(&ids, None), Ok(vec![0, 1]));
    assert_eq!(pick_targets(&ids, Some("ext")), Ok(vec![1]));
    assert_eq!(
        pick_targets(&ids, Some("nope")),
        Err("no target with id \"nope\" (available: [\"web\", \"ext\"])".to_string())
    );
    assert_eq!(resolve_pick(&strings(&["only"]), None), Ok(0));
    assert_eq!(
        resolve_pick(&ids, None),
        Err("crepus.toml defines 2 web targets [\"web\", \"ext\"]; pass --target ID".to_string())
    );
    assert_eq!(
        resolve_pick(&ids, Some("x")),
        Err("no web target with id \"x\" (available: [\"web\", \"ext\"])".to_string())
    );
}

#[test]
fn selectors_pick_by_id_then_by_type() {
    let ids = strings(&["site", "popup", "screen"]);
    let types = strings(&["web", "webext", "ir"]);
    assert_eq!(pick_targets_by_selector(&ids, &types, "popup"), Ok(vec![1]));
    assert_eq!(pick_targets_by_selector(&ids, &types, "extension"), Ok(vec![1]));
    assert_eq!(pick_targets_by_selector(&ids, &types, "native"), Ok(vec![2]));
    assert_eq!(
        pick_targets_by_selector(&ids, &types, "lvgl"),
        Err("no target id or type \"lvgl\" (ids: [\"site\", \"popup\", \"screen\"])".to_string())
    );
    assert_eq!(normalize_selector("browser-extension"), "webext");
    assert_eq!(normalize_selector(&normalize_selector("ir")), normalize_selector("ir"));
}

#[test]
fn manifest_build_arguments() {
    let ids = strings(&["a", "b"]);
    let types = strings(&["web", "web"]);
    assert_eq!(
        args_conflict(&args(Some("a"), Some("web"), false)),
        Some("use either --target ID or a positional selector, not both".to_string())
    );
    assert_eq!(
        args_conflict(&args(None, Some("web"), true)),
        Some("use either --all or a target selector, not both".to_string())
    );
    assert_eq!(args_conflict(&args(None, None, true)), None);
    assert_eq!(select_targets(&args(None, None, true), &ids, &types), Ok(vec![0, 1]));
    assert_eq!(select_targets(&args(None, Some("web"), false), &ids, &types), Ok(vec![0, 1]));
    assert_eq!(select_targets(&args(Some("b"), None, false), &ids, &types), Ok(vec![1]));
    assert_eq!(
        select_targets(&args(None, None, false), &Vec::new(), &Vec::new()),
        Err("crepus.toml has no [[targets]] entries".to_string())
    );
}

#[test]
fn building_one_target() {
    assert_eq!(target_kind("ir"), Ok(TargetKind::Native));
    assert_eq!(target_kind("embedded"), Ok(TargetKind::Embedded));
    assert_eq!(target_kind("flash"), Err("unsupported target type \"flash\"".to_string()));
    assert_eq!(lvgl_root(&None), Ok(LvglRootChoice::Component));
    assert_eq!(lvgl_root(&Some("screen".into())), Ok(LvglRootChoice::Screen));
    assert_eq!(
        lvgl_root(&Some("page".into())),
        Err("lvgl root must be component or screen, got \"page\"".to_string())
    );
    assert!(native_pretty(&Some("pretty".into())));
    assert!(!native_pretty(&None));
    assert_eq!(target_template(&None, &None, "apps/a"), "apps/a/ui.crepus");
    assert_eq!(target_template(&None, &Some("main.crepus".into()), "apps/a"), "apps/a/main.crepus");
    assert_eq!(target_template(&Some("/t.crepus".into()), &None, "apps/a"), "/t.crepus");
    assert_eq!(target_output(&None, "apps/a", "ui", "json"), "apps/a/dist/ui.json");
    assert_eq!(target_output(&Some("o.xml".into()), "apps/a", "ui", "xml"), "o.xml");
    assert_eq!(embedded_size(Some(320), Some(240)), Ok((320, 240)));
    assert_eq!(embedded_size(None, Some(240)), Err("embedded target needs width".to_string()));
    assert_eq!(embedded_size(Some(1), None), Err("embedded target needs height".to_string()));
}

#[test]
fn no_manifest_where_there_is_no_directory() {
    assert_eq!(find_manifest_upward("/nonexistent-crepus-dir/a/b"), None);
}

#[test]
fn manifest_rows_resolve_under_the_manifest_directory() {
    let row = |id: Option<&str>, ty: &str, site: Option<&str>| TargetRow {
        id: id.map(|s| s.to_string()),
        target_type: ty.to_string(),
        site: site.map(|s| s.to_string()),
        path: None,
        app: None,
        out: Some("dist/out".to_string()),
        entry: None,
        template: None,
        component: None,
        ctx: None,
        name: None,
        root: None,
        width: None,
        height: None,
    };
    let rows = vec![row(None, "Web", Some("sites/blog")), row(Some("x"), "lvgl", None)];
    let resolved = resolved_targets("/proj", &rows);
    assert_eq!(resolved[0].id, "blog");
    assert_eq!(resolved[0].target_type, "web");
    assert_eq!(resolved[0].dir, "/proj/sites/blog");
    assert_eq!(resolved[0].out.as_deref(), Some("/proj/dist/out"));
    assert_eq!(resolved[1].id, "x");
    assert_eq!(resolved[1].dir, "/proj/.");
    let web = web_rows(&rows, &None);
    assert_eq!(web, vec![(None, "sites/blog".to_string(), Some("dist/out".to_string()), None)]);
    let shorthand = WebShorthand { site: "site".to_string(), out: None, entry: Some("i.crepus".to_string()) };
    assert_eq!(
        web_rows(&vec![row(None, "lvgl", None)], &Some(shorthand)),
        vec![(None, "site".to_string(), None, Some("i.crepus".to_string()))]
    );
}

#[test]
fn manifests_are_looked_for_nearest_first() {
    let c = crepuscularity_cli::crepus_toml::manifest_candidates("/a/b");
    assert_eq!(c, vec!["/a/b/crepus.toml".to_string(), "/a/crepus.toml".to_string(), "/crepus.toml".to_string()]);
    let first = crepuscularity_cli::crepus_toml::first_manifest;
    assert_eq!(first(&c, &vec![false, true, true]), Some("/a/crepus.toml".to_string()));
    assert_eq!(first(&c, &vec![false, false, false]), None);
    assert_eq!(first(&c, &vec![true]), Some("/a/b/crepus.toml".to_string()));
    assert_eq!(crepuscularity_cli::crepus_toml::manifest_candidates("x"), vec!["x/crepus.toml".to_string(), "crepus.toml".to_string()]);
}
