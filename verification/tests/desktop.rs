use crepuscularity_cli::aurora::{aurora_app_name, aurora_end, AuroraEnd};
use crepuscularity_cli::builder::{find_bin_name, BuildOutcome, CargoLine, CompilerMsg, MsgSpan};
use crepuscularity_cli::crepus_toml::ResolvedTarget;
use crepuscularity_cli::dev::{
    after_exit, binary_path, conventional_dirs, dev_bin_name, launch_failure_status, manifest_target_dir,
    status_after_build, terminal_only, unresolved_target, workspace_root,
};
use crepuscularity_cli::events::BuildError;
use crepuscularity_cli::gpui_scaffold::{cargo_toml, main_rs};
use crepuscularity_cli::hud::{hud_snapshot, DevStatus, HudState};

#[test]
fn find_bin_name_prefers_bin_over_package() {
    let toml = "[package]\nname = \"my-lib\"\n\n[[bin]]\nname = \"my-app\"\n";
    assert_eq!(find_bin_name(Some(toml), None), Some("my-app".into()));
}

#[test]
fn find_bin_name_falls_back_to_package() {
    let toml = "[package]\nname = \"my-lib\"\n";
    assert_eq!(find_bin_name(Some(toml), None), Some("my-lib".into()));
}

#[test]
fn find_bin_name_override_wins() {
    assert_eq!(find_bin_name(None, Some("custom-bin")), Some("custom-bin".into()));
}

#[test]
fn find_bin_name_no_toml_returns_none() {
    assert_eq!(find_bin_name(None, None), None);
}

#[test]
fn find_bin_name_reads_only_package_and_bin_tables() {
    let toml = "[dependencies]\nname = \"dep\"\n[package]\nname='single'\nversion = \"1\"\n";
    assert_eq!(find_bin_name(Some(toml), None), Some("single".into()));
    let toml = "[package]\nname = \"\"\n[lib]\nname = \"x\"\n";
    assert_eq!(find_bin_name(Some(toml), None), None);
    let toml = "[package]\n  name   =   \"first\"  \nname = \"second\"\n";
    assert_eq!(find_bin_name(Some(toml), None), Some("first".into()));
    // Any key that starts with `name` is read as the name.
    let toml = "[package]\nname = \"pkg\"\n[[bin]]\nnameless = true\n";
    assert_eq!(find_bin_name(Some(toml), None), Some("true".into()));
    let toml = "[[bin]]\npath = \"src/main.rs\"\nname = \"tool\"\n[package]\nname = \"pkg\"\n";
    assert_eq!(find_bin_name(Some(toml), None), Some("tool".into()));
}

fn message(level: &str, text: &str, spans: Vec<MsgSpan>) -> CargoLine {
    CargoLine {
        reason: "compiler-message".to_string(),
        message: Some(CompilerMsg {
            level: level.to_string(),
            message: text.to_string(),
            rendered: Some(format!("{level}: {text}\n")),
            spans,
        }),
        success: None,
    }
}

#[test]
fn cargo_lines_collect_errors_and_the_final_verdict() {
    let mut outcome = BuildOutcome::new();
    assert!(!outcome.success);
    let span = MsgSpan { file_name: "src/main.rs".to_string(), line_start: 1 };
    let shown = outcome.absorb(message("error", "expected `;`", vec![span]));
    assert_eq!(shown, Some("error: expected `;`\n".to_string()));
    let shown = outcome.absorb(message("warning", "unused variable", Vec::new()));
    assert_eq!(shown, Some("warning: unused variable\n".to_string()));
    outcome.absorb(message("error", "no span", Vec::new()));
    assert_eq!(
        outcome.errors,
        vec![
            BuildError {
                level: "error".to_string(),
                message: "expected `;`".to_string(),
                file: "src/main.rs".to_string(),
                line: 1,
                rendered: Some("error: expected `;`\n".to_string()),
            },
            BuildError {
                level: "error".to_string(),
                message: "no span".to_string(),
                file: String::new(),
                line: 0,
                rendered: Some("error: no span\n".to_string()),
            },
        ]
    );
    let other = CargoLine { reason: "compiler-artifact".to_string(), message: None, success: Some(true) };
    assert_eq!(outcome.absorb(other), None);
    assert!(!outcome.success);
    let finished = CargoLine { reason: "build-finished".to_string(), message: None, success: Some(true) };
    assert_eq!(outcome.absorb(finished), None);
    assert!(outcome.success);
    let unknown = CargoLine { reason: "build-finished".to_string(), message: None, success: None };
    outcome.absorb(unknown);
    assert!(!outcome.success);
    assert_eq!(outcome.errors.len(), 2);
}

#[test]
fn hud_status_lines() {
    let mut state = HudState::new("demo".to_string());
    assert_eq!(state.status, DevStatus::Starting);
    assert_eq!(hud_snapshot(&state, 0), ("demo".to_string(), "⠋ starting…".to_string(), 0x888888));
    assert_eq!(hud_snapshot(&state, 9).1, "⠙ starting…");
    state.status = DevStatus::Building;
    assert_eq!(hud_snapshot(&state, 7), ("demo".to_string(), "⠏ building…".to_string(), 0xfbbf24));
    state.status = DevStatus::Running { elapsed_ms: 120 };
    assert_eq!(hud_snapshot(&state, 3).1, "✓ running  (120 ms)");
    assert_eq!(hud_snapshot(&state, 3).2, 0x4ade80);
    let err = BuildError {
        level: "error".to_string(),
        message: "m".to_string(),
        file: "src/src/main.rs".to_string(),
        line: 3,
        rendered: None,
    };
    state.status = DevStatus::Failed { errors: vec![err], count: 1 };
    assert_eq!(hud_snapshot(&state, 0), ("demo".to_string(), "✗ 1 error    main.rs".to_string(), 0xf87171));
    state.status = DevStatus::Failed { errors: Vec::new(), count: 2 };
    assert_eq!(hud_snapshot(&state, 0).1, "✗ 2 errors  ");
    state.status = DevStatus::Exited { code: Some(-1) };
    assert_eq!(hud_snapshot(&state, 0), ("demo".to_string(), "⚑ exited (-1)".to_string(), 0xa78bfa));
    state.status = DevStatus::Exited { code: None };
    assert_eq!(hud_snapshot(&state, 0).1, "⚑ exited (?)");
}

fn target(id: &str, kind: &str, dir: &str) -> ResolvedTarget {
    ResolvedTarget {
        id: id.to_string(),
        target_type: kind.to_string(),
        dir: dir.to_string(),
        out: None,
        entry: None,
        template: None,
        component: None,
        ctx: None,
        name: None,
        root: None,
        width: None,
        height: None,
    }
}

#[test]
fn dev_targets_resolve_by_type_id_or_convention() {
    let targets = vec![target("site", "web", "/p/site"), target("app", "gpui", "/p/app"), target("gui2", "gpui", "/p/g2")];
    assert_eq!(manifest_target_dir("gpui", &targets), Some("/p/app".to_string()));
    assert_eq!(manifest_target_dir("site", &targets), Some("/p/site".to_string()));
    assert_eq!(manifest_target_dir("tui", &targets), None);
    assert_eq!(conventional_dirs("gpui"), vec!["ui/gui".to_string(), "gui".to_string()]);
    assert_eq!(conventional_dirs("ios"), vec!["ui/ios".to_string(), "ios".to_string()]);
    assert!(conventional_dirs("lvgl").is_empty());
    assert_eq!(
        unresolved_target("tui"),
        "could not resolve target 'tui' — no matching [[targets]] in crepus.toml and no ui/tui/ directory"
    );
    assert!(terminal_only(&Some("tui".to_string())));
    assert!(terminal_only(&Some("terminal".to_string())));
    assert!(!terminal_only(&Some("gpui".to_string())));
    assert!(!terminal_only(&None));
}

#[test]
fn dev_bin_name_explains_a_missing_binary() {
    assert_eq!(dev_bin_name(Some("[package]\nname = \"x\"\n"), None), Ok("x".to_string()));
    assert_eq!(
        dev_bin_name(Some("[workspace]\n"), None),
        Err("could not determine binary name — add [[bin]] to Cargo.toml or use --bin".to_string())
    );
}

#[test]
fn dev_status_follows_builds_launches_and_exits() {
    let ok = BuildOutcome { success: true, errors: Vec::new() };
    assert_eq!(status_after_build(ok, 42), DevStatus::Running { elapsed_ms: 42 });
    let e = BuildError { level: "error".to_string(), message: "x".to_string(), file: String::new(), line: 0, rendered: None };
    let failed = BuildOutcome { success: false, errors: vec![e.clone(), e.clone()] };
    assert_eq!(status_after_build(failed, 7), DevStatus::Failed { errors: vec![e.clone(), e], count: 2 });
    let launch = launch_failure_status("not found");
    assert_eq!(
        launch,
        DevStatus::Failed {
            errors: vec![BuildError {
                level: "error".to_string(),
                message: "Failed to launch binary: not found".to_string(),
                file: String::new(),
                line: 0,
                rendered: None,
            }],
            count: 1,
        }
    );
    assert_eq!(after_exit(Some(0)), (DevStatus::Exited { code: Some(0) }, true));
    assert_eq!(after_exit(None), (DevStatus::Exited { code: None }, false));
}

#[test]
fn binaries_are_found_under_the_workspace_target_dir() {
    assert_eq!(workspace_root("/ws/Cargo.toml\n"), Some("/ws".to_string()));
    assert_eq!(binary_path(Some("/ws/Cargo.toml\n"), "/ws/crates/app", "debug", "app"), "/ws/target/debug/app");
    assert_eq!(binary_path(None, "/c", "release", "b"), "/c/target/release/b");
    assert_eq!(binary_path(Some(""), "/c", "debug", "b"), "/c/target/debug/b");
}

#[test]
fn gpui_scaffold_names_the_app() {
    let toml = cargo_toml("my-app");
    assert!(toml.starts_with("[package]\nname = \"my-app\"\nversion = \"0.1.0\"\nedition = \"2021\"\n\n[[bin]]\nname = \"my-app\"\n"));
    assert!(toml.ends_with("branch = \"runtime-dev\" }\n"));
    let main = main_rs("my-app");
    assert!(main.starts_with("use crepuscularity::prelude::*;\n"));
    assert!(main.contains("struct MyAppView {\n    count: i32,\n}"));
    assert!(main.contains("impl Render for MyAppView {"));
    assert!(main.contains("cx.new(MyAppView::new)"));
    assert!(main.contains("\"{count}\""));
}

#[test]
fn aurora_sessions_name_their_app_and_end() {
    assert_eq!(aurora_app_name(Some("[package]\nname = \"demo\"\n")), Some("demo".to_string()));
    assert_eq!(aurora_app_name(Some("[package]\nversion = 1\n")), None);
    assert_eq!(aurora_app_name(Some("not = [toml")), None);
    assert_eq!(aurora_app_name(None), None);
    let dev = vec!["dev".to_string(), "--watch".to_string()];
    assert_eq!(aurora_end(&dev, true, Some(0)), AuroraEnd::Done);
    assert_eq!(aurora_end(&dev, false, Some(3)), AuroraEnd::Fail { stop_app: true, code: 3 });
    assert_eq!(aurora_end(&vec!["build".to_string()], false, None), AuroraEnd::Fail { stop_app: false, code: 1 });
}

#[test]
fn capitalize_ascii_lowercase_first_letters() {
    assert_eq!(crepuscularity_cli::naming::capitalize_ascii("debug"), "Debug");
    assert_eq!(crepuscularity_cli::naming::capitalize_ascii("Release"), "Release");
    assert_eq!(crepuscularity_cli::naming::capitalize_ascii(""), "");
}
