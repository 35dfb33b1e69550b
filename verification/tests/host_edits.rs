use crepuscularity_cli::host_edits::{
    deep_links_activity_edit, deep_links_android_actions_edit, deep_links_app_edit, deep_links_info_plist,
    deep_links_ios_actions_edit, deep_links_manifest_edit, deep_links_project_edit, guarded_edit,
};

#[test]
fn guarded_edits_leave_wired_files_alone() {
    let pairs = vec![("a".to_string(), "b".to_string()), ("b".to_string(), "c".to_string())];
    assert_eq!(guarded_edit("xa", "marker", &pairs), Some("xc".to_string()));
    assert_eq!(guarded_edit("xa marker", "marker", &pairs), None);
}

#[test]
fn deep_links_add_an_intent_filter_to_the_activity() {
    let manifest = "<manifest>\n    <application>\n        <activity android:name=\".MainActivity\">\n        </activity>\n    </application>\n</manifest>\n";
    let edited = deep_links_manifest_edit(manifest).unwrap();
    assert_eq!(
        edited,
        "<manifest>\n    <application>\n        <activity android:name=\".MainActivity\">\n            <intent-filter>\n                <action android:name=\"android.intent.action.VIEW\" />\n                <category android:name=\"android.intent.category.DEFAULT\" />\n                <category android:name=\"android.intent.category.BROWSABLE\" />\n                <data android:scheme=\"crepus\" />\n            </intent-filter>\n        </activity>\n    </application>\n</manifest>\n"
    );
    assert_eq!(deep_links_manifest_edit(&edited), None);
}

#[test]
fn deep_links_forward_intents_from_the_activity() {
    let activity = "import android.os.Bundle\n\nclass MainActivity {\n    fun onCreate() {\n        CrepusRustActions.install(this)\n    }\n\n    override fun onDestroy() {}\n}\n";
    let edited = deep_links_activity_edit(activity).unwrap();
    assert!(edited.starts_with("import android.content.Intent\nimport android.os.Bundle\n"));
    assert!(edited.contains("        CrepusRustActions.install(this)\n        CrepusRustActions.receiveDeepLink(intent.data)\n"));
    assert!(edited.contains("    override fun onNewIntent(intent: Intent) {\n        super.onNewIntent(intent)\n        setIntent(intent)\n        CrepusRustActions.receiveDeepLink(intent.data)\n    }\n\n    override fun onDestroy() {}"));
    assert_eq!(deep_links_activity_edit(&edited), None);
}

#[test]
fn deep_links_open_urls_in_the_app_window() {
    let app = "    var body: some Scene {\n        WindowGroup {\n            ContentView()\n        }\n    }\n";
    assert_eq!(
        deep_links_app_edit(app),
        Some("    var body: some Scene {\n        WindowGroup {\n            ContentView()\n                .onOpenURL { CrepusRustActions.receiveDeepLink($0) }\n        }\n    }\n".to_string())
    );
    assert_eq!(deep_links_app_edit("x.onOpenURL {}"), None);
}

#[test]
fn deep_links_dispatch_to_their_handlers() {
    let kotlin = "        when (capability) {\n            else -> null\n        }\n\n    private fun dispatchHostAction() {}\n";
    assert_eq!(
        deep_links_android_actions_edit(kotlin, "    fun deepLinksValue() {}\n"),
        Some("        when (capability) {\n            \"deepLinks\" -> deepLinksValue(method, payload)\n            else -> null\n        }\n    fun deepLinksValue() {}\n\n    private fun dispatchHostAction() {}\n".to_string())
    );
    let swift = "        switch capability {\n        default: break\n        }\n\n    private static func dispatchHostAction() {}\n";
    assert_eq!(
        deep_links_ios_actions_edit(swift, "    static func deepLinksValue() {}"),
        Some("        switch capability {\n        case \"deepLinks\":\n            return try deepLinksValue(method: method, payload: payload)\n        default: break\n        }\n    static func deepLinksValue() {}\n\n    private static func dispatchHostAction() {}\n".to_string())
    );
    assert_eq!(deep_links_ios_actions_edit("deepLinksValue", "x"), None);
}

#[test]
fn deep_links_move_the_project_to_its_own_info_plist() {
    let project = "settings:\n        GENERATE_INFOPLIST_FILE: YES\n        INFOPLIST_KEY_NSCameraUsageDescription: \"Camera\"\n";
    let edited = deep_links_project_edit(project).unwrap();
    assert_eq!(
        edited,
        "settings:\n        GENERATE_INFOPLIST_FILE: NO\n        INFOPLIST_FILE: App/Info.plist\n        INFOPLIST_KEY_NSCameraUsageDescription: \"Camera\"\n"
    );
    assert_eq!(deep_links_project_edit(&edited), None);
    let plist = deep_links_info_plist(&edited);
    assert!(plist.starts_with("<?xml version=\"1.0\" encoding=\"UTF-8\"?>\n"));
    assert!(plist.contains("                <string>crepus</string>\n"));
    assert!(plist.ends_with(
        "    </array>\n    <key>NSCameraUsageDescription</key>\n    <string>Camera</string>\n    <key>UILaunchScreen</key>\n    <dict/>\n</dict>\n</plist>\n"
    ));
}
