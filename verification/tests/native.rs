use crepuscularity_cli::native_build::android_gradle_edit;
use crepuscularity_cli::native_build::{mobile_ios_config, IosIdentity};
use crepuscularity_cli::naming::capitalize_ascii;
use crepuscularity_cli::native_build::{
    android_main_activity_component, gradle_kts_value, project_bundle_id, project_name,
    replace_kotlin_string_assignment, select_simulator_device, simulator_id_from_line,
    toml_value, IosBuildTarget,
};

#[test]
fn capitalize_ascii_basic() {
    assert_eq!(capitalize_ascii("debug"), "Debug");
    assert_eq!(capitalize_ascii("Release"), "Release");
    assert_eq!(capitalize_ascii(""), "");
    assert_eq!(capitalize_ascii("a"), "A");
}

#[test]
fn gradle_kts_value_reads_application_id() {
    let src = r#"
android {
    defaultConfig {
        applicationId = "dev.crepuscularity.nativeshell"
    }
}
"#;
    assert_eq!(
        gradle_kts_value(src, "applicationId"),
        Some("dev.crepuscularity.nativeshell".to_string())
    );
}

#[test]
fn android_component_uses_generated_shell_package() {
    assert_eq!(
        android_main_activity_component("hk.tsc.acme"),
        "hk.tsc.acme/dev.crepuscularity.nativeshell.MainActivity"
    );
}

#[test]
fn toml_value_and_project_fields() {
    assert_eq!(toml_value("[ios]\nscheme = \"App\"\n", "scheme"), Some("App".to_string()));
    assert_eq!(toml_value("scheme: App\n", "scheme"), None);
    assert_eq!(project_name("name:\nname: Demo App \n"), Some("Demo App".to_string()));
    assert_eq!(
        project_bundle_id("  PRODUCT_BUNDLE_IDENTIFIER: hk.tsc.acme\n"),
        Some("hk.tsc.acme".to_string())
    );
    assert_eq!(project_bundle_id("nothing here"), None);
}

#[test]
fn kotlin_assignment_rewrite_keeps_indentation() {
    let src = "android {\n    namespace = \"dev.x\"\n    defaultConfig {\n        applicationId = \"dev.x\"\n    }\n}\n";
    let out = replace_kotlin_string_assignment(src, "applicationId", "hk.tsc.acme");
    assert_eq!(
        out,
        "android {\n    namespace = \"dev.x\"\n    defaultConfig {\n        applicationId = \"hk.tsc.acme\"\n    }\n}"
    );
}

#[test]
fn simulator_listing_prefers_booted_device() {
    assert_eq!(
        simulator_id_from_line("    iPhone 16 (1111-2222-3333-4444-5555) (Shutdown)"),
        Some("1111-2222-3333-4444-5555".to_string())
    );
    assert_eq!(simulator_id_from_line("iPad (no-id) (Shutdown)"), None);
    let listing = "== Devices ==\n-- iOS 18.0 --\n    iPhone 15 (AAAA-BBBB-CCCC-DDDD-EEEE) (Shutdown)\n    iPhone 16 (1111-2222-3333-4444-5555) (Booted)\n";
    assert_eq!(
        select_simulator_device(listing),
        Some("1111-2222-3333-4444-5555".to_string())
    );
    let shutdown_only = "    iPhone 15 (AAAA-BBBB-CCCC-DDDD-EEEE) (Shutdown)\n    iPhone 14 (FFFF-BBBB-CCCC-DDDD-EEEE) (Shutdown)\n";
    assert_eq!(
        select_simulator_device(shutdown_only),
        Some("AAAA-BBBB-CCCC-DDDD-EEEE".to_string())
    );
    assert_eq!(select_simulator_device(""), None);
}

#[test]
fn ios_build_target_names() {
    assert_eq!(IosBuildTarget::Simulator.sdk(), "iphonesimulator");
    assert_eq!(IosBuildTarget::Device.sdk(), "iphoneos");
    assert_eq!(IosBuildTarget::Simulator.destination(), "generic/platform=iOS Simulator");
    assert_eq!(IosBuildTarget::Device.destination(), "generic/platform=iOS");
}

#[test]
fn mobile_ios_identity_prefers_app_then_root_manifest() {
    let root = IosIdentity {
        scheme: String::new(),
        bundle_id: Some("hk.tsc.acme".to_string()),
        development_team: Some("LZ3NL5434Q".to_string()),
        code_sign_style: Some("Automatic".to_string()),
        allow_provisioning_updates: true,
    };
    let local = IosIdentity {
        scheme: "CrepusMobileApp".to_string(),
        bundle_id: None,
        development_team: None,
        code_sign_style: None,
        allow_provisioning_updates: false,
    };
    let cfg = mobile_ios_config(
        &Some(local),
        &Some(root),
        "[ios]\nscheme = \"CrepusMobileApp\"\n",
        "name: CrepusMobileApp\nPRODUCT_BUNDLE_IDENTIFIER: dev.crepuscularity.mobile\n",
    );
    assert_eq!(cfg.scheme, "CrepusMobileApp");
    assert_eq!(cfg.bundle_id, "hk.tsc.acme");
    assert_eq!(cfg.development_team.as_deref(), Some("LZ3NL5434Q"));
    assert_eq!(cfg.code_sign_style.as_deref(), Some("Automatic"));
    assert!(cfg.allow_provisioning_updates);

    let fallback = mobile_ios_config(&None, &None, "", "name: Shell\nPRODUCT_BUNDLE_IDENTIFIER: a.b\n");
    assert_eq!(fallback.scheme, "Shell");
    assert_eq!(fallback.bundle_id, "a.b");
    let defaults = mobile_ios_config(&None, &None, "", "");
    assert_eq!(defaults.scheme, "CrepusMobileApp");
    assert_eq!(defaults.bundle_id, "dev.crepuscularity.mobile");
    assert!(!defaults.allow_provisioning_updates);
}

#[test]
fn android_identity_rewrites_gradle() {
    let gradle = "android {\n    namespace = \"dev.crepuscularity.nativeshell\"\n    defaultConfig {\n        applicationId = \"dev.crepuscularity.nativeshell\"\n    }\n}\n";
    let out = android_gradle_edit(gradle, &Some("hk.tsc.acme".to_string()), &Some("hk.tsc.acme".to_string())).unwrap();
    assert!(out.contains("namespace = \"hk.tsc.acme\""));
    assert!(out.contains("applicationId = \"hk.tsc.acme\""));
    assert_eq!(android_gradle_edit(gradle, &None, &None), None);
}
