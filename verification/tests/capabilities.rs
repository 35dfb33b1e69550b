use crepuscularity_cli::capabilities::{
    add_feature_text, add_once_text, capabilities, cargo_edit, dedupe_imports_text,
    enable_default_feature_text, find_capability, insert_plist_keys, ios_info_plist_key,
    ios_project_edit, manifest_edit, permission_name, plist_keys_of, IosProjectEdit,
};

#[test]
fn capabilities_are_found_by_name_or_alias_in_any_ascii_case() {
    let table = capabilities();
    let camera = find_capability(&table, "camera").unwrap();
    assert_eq!(table[camera].name, "camera");
    assert_eq!(find_capability(&table, "CAMERA"), Ok(camera));
    let ble = find_capability(&table, "BLE").unwrap();
    assert_eq!(table[ble].name, "bluetooth");
    assert_eq!(table[find_capability(&table, "storage").unwrap()].name, "preferences");
    let err = find_capability(&table, "Teleport").unwrap_err();
    assert!(err.starts_with("unknown native capability 'teleport'; available: sensors, bluetooth, haptics"));
    assert!(err.ends_with("system-bars, deep-links"));
    for c in &table {
        assert_eq!(c.cargo_feature, c.name);
    }
}

#[test]
fn cargo_features_are_added_once() {
    let src = "[package]\nname = \"x\"\n\n[features]\ndefault = []\n\n[dependencies]\n";
    let added = add_feature_text(src, "camera").unwrap();
    assert_eq!(
        added,
        "[package]\nname = \"x\"\n\n[features]\ndefault = []\ncamera = []\n\n[dependencies]\n"
    );
    assert_eq!(add_feature_text(&added, "camera"), None);
    assert_eq!(
        add_feature_text("[package]\n", "toast"),
        Some("[package]\n\n[features]\ntoast = []\n".to_string())
    );
}

#[test]
fn default_features_are_enabled_once() {
    let first = enable_default_feature_text("[features]\ndefault = []\n", "filesystem", "Cargo.toml")
        .unwrap()
        .unwrap();
    assert_eq!(first, "[features]\ndefault = [\"filesystem\"]\n");
    assert_eq!(enable_default_feature_text(&first, "filesystem", "Cargo.toml"), Ok(None));
    assert_eq!(
        enable_default_feature_text("[features]\ndefault = [\"a\"]\n", "b", "C"),
        Ok(Some("[features]\ndefault = [\"b\", \"a\"]\n".to_string()))
    );
    assert_eq!(
        enable_default_feature_text("[features]\nx = []\n", "b", "C"),
        Ok(Some("[features]\ndefault = [\"b\"]\nx = []\n".to_string()))
    );
    assert_eq!(
        enable_default_feature_text("[package]\n", "b", "rust/Cargo.toml"),
        Err("missing feature table in 'rust/Cargo.toml'".to_string())
    );
}

#[test]
fn filesystem_capability_turns_its_feature_on_by_default() {
    let table = capabilities();
    let fs = &table[find_capability(&table, "files").unwrap()];
    let out = cargo_edit(fs, "[features]\ndefault = []\n", "Cargo.toml").unwrap().unwrap();
    assert_eq!(out, "[features]\ndefault = [\"filesystem\"]\nfilesystem = []\n");
    let toast = &table[find_capability(&table, "toast").unwrap()];
    assert_eq!(cargo_edit(toast, "[features]\ntoast = []\n", "Cargo.toml"), Ok(None));
}

#[test]
fn manifest_permissions_are_added_once() {
    let internet = "    <uses-permission android:name=\"android.permission.INTERNET\" />\n";
    let manifest = format!("<manifest>\n{internet}</manifest>\n");
    let table = capabilities();
    let camera = &table[find_capability(&table, "camera").unwrap()];
    let once = manifest_edit(camera, &manifest).unwrap();
    assert!(once.contains("android.permission.CAMERA"));
    assert!(once.contains("android.hardware.camera"));
    assert_eq!(manifest_edit(camera, &once), Some(once.clone()));
    assert_eq!(permission_name("    <uses-permission android:name=\"android.permission.CAMERA\" />"), Some("android.permission.CAMERA".to_string()));
    assert_eq!(add_once_text("a\nb\n", "x\n", "a\n"), Some("a\nx\nb\n".to_string()));
    assert_eq!(add_once_text("a\nx\nb\n", "x\n", "a\n"), None);
}

#[test]
fn duplicate_imports_are_removed() {
    let src = "import a.B\nimport a.C\nimport a.B\nval x = 1\nval x = 1\n";
    let once = dedupe_imports_text(src).unwrap();
    assert_eq!(once, "import a.B\nimport a.C\nval x = 1\nval x = 1\n");
    assert_eq!(dedupe_imports_text(&once), None);
}

#[test]
fn info_plist_keys_from_project_settings() {
    assert_eq!(
        ios_info_plist_key("        INFOPLIST_KEY_NSCameraUsageDescription: \"uses camera\""),
        Some(("NSCameraUsageDescription".to_string(), "uses camera".to_string()))
    );
    assert_eq!(ios_info_plist_key("        OTHER_LDFLAGS: \"-lx\""), None);
    let table = capabilities();
    let video = &table[find_capability(&table, "video").unwrap()];
    let keys = plist_keys_of(video.ios_project);
    assert_eq!(keys.len(), 2);
    assert_eq!(keys[0].0, "NSCameraUsageDescription");
    assert_eq!(keys[1].0, "NSMicrophoneUsageDescription");
    let plist = "<dict>\n    <key>UILaunchScreen</key>\n</dict>\n";
    let (out, changed) = insert_plist_keys(plist, &keys);
    assert!(changed);
    assert!(out.contains("<key>NSCameraUsageDescription</key>"));
    let (again, changed_again) = insert_plist_keys(&out, &keys);
    assert!(!changed_again);
    assert_eq!(again, out);
}

#[test]
fn ios_project_settings_of_capabilities() {
    let table = capabilities();
    let camera = &table[find_capability(&table, "camera").unwrap()];
    let project = "settings:\n        INFOPLIST_KEY_UILaunchScreen_Generation: YES\n";
    match ios_project_edit(camera, project) {
        IosProjectEdit::Rewrite(t) => {
            assert!(t.contains("INFOPLIST_KEY_NSCameraUsageDescription"));
            assert_eq!(ios_project_edit(camera, &t), IosProjectEdit::Unchanged);
        }
        other => panic!("unexpected {other:?}"),
    }
    assert_eq!(ios_project_edit(camera, "INFOPLIST_FILE: App/Info.plist\n"), IosProjectEdit::InfoPlist);
}
