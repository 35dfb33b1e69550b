use crepuscularity_cli::moonshine::{app_files, dependency_snippets, package_json};
use crepuscularity_cli::naming::{app_target_name, slug, to_pascal_case};
use crepuscularity_cli::scaffold::render_template;
use crepuscularity_cli::share_extension::{
    add_share_extension_target, main_bundle_id, share_extension_target, ShareExtensionPlatform,
};
use crepuscularity_cli::tauri::{kotlin_view_source, main_view_source, metadata_edits, product_name, TauriMetadata};

#[test]
fn ios_share_target_uses_main_bundle_suffix() {
    let project = r#"
targets:
  App:
    settings:
      base:
        PRODUCT_BUNDLE_IDENTIFIER: hk.tsc.acme
"#;
    assert_eq!(main_bundle_id(project), "hk.tsc.acme");
    let target = share_extension_target("AcmeShare", &main_bundle_id(project), ShareExtensionPlatform::Ios);
    assert!(target.contains("  AcmeShare:"));
    assert!(target.contains("type: app-extension"));
    assert!(target.contains("platform: iOS"));
    assert!(target.contains("path: ShareExtension"));
    assert!(target.contains("PRODUCT_BUNDLE_IDENTIFIER: hk.tsc.acme.share"));
    assert!(target.contains("Build Rust Actions"));
}

#[test]
fn macos_share_target_uses_macos_sources_and_rust_target() {
    let target = share_extension_target("AcmeMacShare", "hk.tsc.acme", ShareExtensionPlatform::Macos);
    assert!(target.contains("  AcmeMacShare:"));
    assert!(target.contains("platform: macOS"));
    assert!(target.contains("path: MacShareExtension"));
    assert!(target.contains("aarch64-apple-darwin"));
    assert!(target.contains("x86_64-apple-darwin"));
}

#[test]
fn main_bundle_id_defaults_and_strips_quotes() {
    assert_eq!(main_bundle_id("name: App\n"), "dev.crepuscularity.mobile");
    assert_eq!(
        main_bundle_id("        PRODUCT_BUNDLE_IDENTIFIER: \"hk.tsc.quoted\"\n"),
        "hk.tsc.quoted"
    );
}

#[test]
fn share_target_is_added_once() {
    let project = "targets:\n  App:\n    type: application\n";
    let added = add_share_extension_target(project, "AppShare", ShareExtensionPlatform::Ios).unwrap();
    assert!(added.starts_with(project));
    assert!(added.contains("PRODUCT_BUNDLE_IDENTIFIER: dev.crepuscularity.mobile.share"));
    assert_eq!(add_share_extension_target(&added, "AppShare", ShareExtensionPlatform::Ios), None);
}

#[test]
fn dep_mentions_moonshine_packages() {
    let snip = dependency_snippets();
    assert!(snip.contains("\"@tschk/moonshine\""));
    assert!(snip.contains("\"@tschk/crepus-moonshine\""));
    assert!(snip.contains("\"@tschk/moonshine-components\""));
}

#[test]
fn moonshine_app_files_fill_in_name_and_slug() {
    let (dir, files) = app_files("My App");
    assert_eq!(dir, "my-app");
    let paths: Vec<&str> = files.iter().map(|(p, _)| p.as_str()).collect();
    assert_eq!(
        paths,
        vec![
            "package.json",
            "index.html",
            "src/main.ts",
            "src/app.css",
            "public/index.crepus",
            "index.crepus",
            "vite.config.ts",
            "README.md"
        ]
    );
    assert_eq!(files[0].1, package_json().replace("{{slug}}", "my-app"));
    assert!(files[7].1.starts_with("# My App\n"));
    assert!(!files[1].1.contains("{{name}}"));
}

#[test]
fn names_of_new_apps() {
    assert_eq!(to_pascal_case("my-cool_app name"), "MyCoolAppName");
    assert_eq!(to_pascal_case("--x"), "X");
    assert_eq!(to_pascal_case(""), "");
    assert_eq!(slug("Hello World!"), "hello-world-");
    assert_eq!(slug("Ünïcode9"), "ünïcode9");
    assert_eq!(app_target_name("NativeShell"), "NativeShellHostApp");
    assert_eq!(app_target_name("Acme"), "AcmeApp");
}

#[test]
fn templates_replace_every_placeholder() {
    let reps = vec![
        ("{{name}}".to_string(), "Acme".to_string()),
        ("{{slug}}".to_string(), "acme".to_string()),
    ];
    assert_eq!(render_template("{{name}} ({{slug}}) {{name}}", &reps), "Acme (acme) Acme");
    assert_eq!(render_template("plain", &reps), "plain");
}

#[test]
fn tauri_metadata_edits() {
    let meta = TauriMetadata {
        product_name: Some("Acme".to_string()),
        window_title: None,
        identifier: Some("hk.tsc.acme".to_string()),
        version: Some("2.1.0".to_string()),
    };
    assert_eq!(product_name(&meta), "Acme");
    let edits = metadata_edits("out", &meta);
    let views: Vec<(String, String, String)> =
        edits.into_iter().map(|e| (e.path, e.from, e.to)).collect();
    assert_eq!(
        views,
        vec![
            (
                "out/android/app/src/main/AndroidManifest.xml".to_string(),
                "NativeShell".to_string(),
                "Acme".to_string()
            ),
            (
                "out/android/app/build.gradle.kts".to_string(),
                "applicationId = \"dev.crepuscularity.nativeshell\"".to_string(),
                "applicationId = \"hk.tsc.acme\"".to_string()
            ),
            (
                "out/ios/project.yml".to_string(),
                "PRODUCT_BUNDLE_IDENTIFIER: dev.crepuscularity.mobile".to_string(),
                "PRODUCT_BUNDLE_IDENTIFIER: hk.tsc.acme".to_string()
            ),
            (
                "out/android/app/build.gradle.kts".to_string(),
                "versionName = \"1.0\"".to_string(),
                "versionName = \"2.1.0\"".to_string()
            ),
        ]
    );
    let bare = TauriMetadata { product_name: None, window_title: Some("Win".to_string()), identifier: None, version: None };
    assert_eq!(product_name(&bare), "Win");
    assert_eq!(metadata_edits("/x/", &bare).len(), 1);
    let none = TauriMetadata { product_name: None, window_title: None, identifier: None, version: None };
    assert_eq!(product_name(&none), "NativeShell");
    assert_eq!(main_view_source("app.crepus"), "include app.crepus\n");
    assert_eq!(kotlin_view_source("fun X() {}"), "package dev.crepuscularity.nativeshell\n\nfun X() {}");
}
