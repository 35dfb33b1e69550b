//! The host-side wiring of the `deep-links` capability: the edits that
//! `crepus native add deep-links` makes to the Android manifest, the Kotlin
//! and Swift action dispatchers, the Android activity, the SwiftUI app and
//! the iOS project, and the Info.plist it writes when there is none. Each
//! edit takes the file's text and gives its new text, or `None` when the
//! file already carries the wiring and is left alone. The Kotlin and Swift
//! handler sources that go into the dispatchers are parameters.
use vstd::prelude::*;
use crate::capabilities::plist_entries;
use crate::capabilities::ios_info_plist_keys;
use crate::native_mobile::spec_apply_replacements;
use crate::scaffold::render_template;
use crate::text::{contains, contains_str, lines, opt_view, pair_views, push_str, replace_all, replace_str, to_owned_string};

verus! {

/// An edit guarded by a marker: a file that already holds `marker` is left
/// alone; any other file gets each `(from, to)` replacement in order.
pub open spec fn spec_guarded_edit(source: Seq<char>, marker: Seq<char>, pairs: Seq<(Seq<char>, Seq<char>)>) -> Option<Seq<char>> {
    if contains(source, marker) {
        None
    } else {
        Some(spec_apply_replacements(source, pairs))
    }
}

/// Applies `replacements` to `source` unless `source` already holds `marker`.
pub fn guarded_edit(source: &str, marker: &str, replacements: &Vec<(String, String)>) -> (r: Option<String>)
    ensures
        opt_view(r) == spec_guarded_edit(source@, marker@, pair_views(replacements@)),
{
    if contains_str(source, marker) {
        None
    } else {
        Some(render_template(source, replacements))
    }
}

fn pair(from: &str, to: String) -> (r: (String, String))
    ensures
        r.0@ == from@,
        r.1@ == to@,
{
    (to_owned_string(from), to)
}

fn concat(a: &str, b: &str) -> (r: String)
    ensures
        r@ == a@ + b@,
{
    let mut s = to_owned_string(a);
    push_str(&mut s, b);
    s
}

// ── Android manifest ───────────────────────────────────────────────────────

/// The `crepus://` intent filter, put before the activity's closing tag.
pub open spec fn manifest_pairs() -> Seq<(Seq<char>, Seq<char>)> {
    seq![(
        "        </activity>\n"@,
        "            <intent-filter>\n                <action android:name=\"android.intent.action.VIEW\" />\n                <category android:name=\"android.intent.category.DEFAULT\" />\n                <category android:name=\"android.intent.category.BROWSABLE\" />\n                <data android:scheme=\"crepus\" />\n            </intent-filter>\n        </activity>\n"@,
    )]
}

/// `AndroidManifest.xml` with the deep-link intent filter, unless it
/// already handles `android.intent.action.VIEW`.
pub fn deep_links_manifest_edit(source: &str) -> (r: Option<String>)
    ensures
        opt_view(r) == spec_guarded_edit(source@, "android.intent.action.VIEW"@, manifest_pairs()),
{
    let mut v: Vec<(String, String)> = Vec::new();
    v.push(pair(
        "        </activity>\n",
        to_owned_string("            <intent-filter>\n                <action android:name=\"android.intent.action.VIEW\" />\n                <category android:name=\"android.intent.category.DEFAULT\" />\n                <category android:name=\"android.intent.category.BROWSABLE\" />\n                <data android:scheme=\"crepus\" />\n            </intent-filter>\n        </activity>\n"),
    ));
    assert(pair_views(v@) =~= manifest_pairs());
    guarded_edit(source, "android.intent.action.VIEW", &v)
}

// ── Kotlin and Swift dispatchers ───────────────────────────────────────────

/// The `deepLinks` branch of the Kotlin dispatcher and its handler
/// `snippet`, put before `dispatchHostAction`.
pub open spec fn android_actions_pairs(snippet: Seq<char>) -> Seq<(Seq<char>, Seq<char>)> {
    seq![
        (
            "        when (capability) {\n"@,
            "        when (capability) {\n            \"deepLinks\" -> deepLinksValue(method, payload)\n"@,
        ),
        ("\n    private fun dispatchHostAction"@, snippet + "\n    private fun dispatchHostAction"@),
    ]
}

/// `CrepusRustActions.kt` with the deep-link branch and handler, unless it
/// already has `deepLinksValue`.
pub fn deep_links_android_actions_edit(source: &str, snippet: &str) -> (r: Option<String>)
    ensures
        opt_view(r) == spec_guarded_edit(source@, "deepLinksValue"@, android_actions_pairs(snippet@)),
{
    let mut v: Vec<(String, String)> = Vec::new();
    v.push(pair(
        "        when (capability) {\n",
        to_owned_string("        when (capability) {\n            \"deepLinks\" -> deepLinksValue(method, payload)\n"),
    ));
    v.push(pair("\n    private fun dispatchHostAction", concat(snippet, "\n    private fun dispatchHostAction")));
    assert(pair_views(v@) =~= android_actions_pairs(snippet@));
    guarded_edit(source, "deepLinksValue", &v)
}

/// The `deepLinks` case of the Swift dispatcher and its handler `snippet`,
/// put before `dispatchHostAction`.
pub open spec fn ios_actions_pairs(snippet: Seq<char>) -> Seq<(Seq<char>, Seq<char>)> {
    seq![
        (
            "        switch capability {\n"@,
            "        switch capability {\n        case \"deepLinks\":\n            return try deepLinksValue(method: method, payload: payload)\n"@,
        ),
        ("\n    private static func dispatchHostAction"@, snippet + "\n\n    private static func dispatchHostAction"@),
    ]
}

/// `CrepusRustActions.swift` with the deep-link case and handler, unless it
/// already has `deepLinksValue`.
pub fn deep_links_ios_actions_edit(source: &str, snippet: &str) -> (r: Option<String>)
    ensures
        opt_view(r) == spec_guarded_edit(source@, "deepLinksValue"@, ios_actions_pairs(snippet@)),
{
    let mut v: Vec<(String, String)> = Vec::new();
    v.push(pair(
        "        switch capability {\n",
        to_owned_string("        switch capability {\n        case \"deepLinks\":\n            return try deepLinksValue(method: method, payload: payload)\n"),
    ));
    v.push(pair("\n    private static func dispatchHostAction", concat(snippet, "\n\n    private static func dispatchHostAction")));
    assert(pair_views(v@) =~= ios_actions_pairs(snippet@));
    guarded_edit(source, "deepLinksValue", &v)
}

// ── Android activity and SwiftUI app ───────────────────────────────────────

/// The activity hands its launch URL and each new intent's URL to the
/// actions.
pub open spec fn activity_pairs() -> Seq<(Seq<char>, Seq<char>)> {
    seq![
        ("import android.os.Bundle\n"@, "import android.content.Intent\nimport android.os.Bundle\n"@),
        (
            "        CrepusRustActions.install(this)\n"@,
            "        CrepusRustActions.install(this)\n        CrepusRustActions.receiveDeepLink(intent.data)\n"@,
        ),
        (
            "\n    override fun onDestroy()"@,
            "\n    override fun onNewIntent(intent: Intent) {\n        super.onNewIntent(intent)\n        setIntent(intent)\n        CrepusRustActions.receiveDeepLink(intent.data)\n    }\n\n    override fun onDestroy()"@,
        ),
    ]
}

/// `MainActivity.kt` forwarding deep links, unless it already calls
/// `receiveDeepLink(intent.data)`.
pub fn deep_links_activity_edit(source: &str) -> (r: Option<String>)
    ensures
        opt_view(r) == spec_guarded_edit(source@, "receiveDeepLink(intent.data)"@, activity_pairs()),
{
    let mut v: Vec<(String, String)> = Vec::new();
    v.push(pair("import android.os.Bundle\n", to_owned_string("import android.content.Intent\nimport android.os.Bundle\n")));
    v.push(pair(
        "        CrepusRustActions.install(this)\n",
        to_owned_string("        CrepusRustActions.install(this)\n        CrepusRustActions.receiveDeepLink(intent.data)\n"),
    ));
    v.push(pair(
        "\n    override fun onDestroy()",
        to_owned_string("\n    override fun onNewIntent(intent: Intent) {\n        super.onNewIntent(intent)\n        setIntent(intent)\n        CrepusRustActions.receiveDeepLink(intent.data)\n    }\n\n    override fun onDestroy()"),
    ));
    assert(pair_views(v@) =~= activity_pairs());
    guarded_edit(source, "receiveDeepLink(intent.data)", &v)
}

/// The app's window hands opened URLs to the actions.
pub open spec fn app_pairs() -> Seq<(Seq<char>, Seq<char>)> {
    seq![(
        "        WindowGroup {\n            ContentView()\n        }\n"@,
        "        WindowGroup {\n            ContentView()\n                .onOpenURL { CrepusRustActions.receiveDeepLink($0) }\n        }\n"@,
    )]
}

/// `CrepusMobileApp.swift` forwarding opened URLs, unless it already has
/// `.onOpenURL`.
pub fn deep_links_app_edit(source: &str) -> (r: Option<String>)
    ensures
        opt_view(r) == spec_guarded_edit(source@, ".onOpenURL"@, app_pairs()),
{
    let mut v: Vec<(String, String)> = Vec::new();
    v.push(pair(
        "        WindowGroup {\n            ContentView()\n        }\n",
        to_owned_string("        WindowGroup {\n            ContentView()\n                .onOpenURL { CrepusRustActions.receiveDeepLink($0) }\n        }\n"),
    ));
    assert(pair_views(v@) =~= app_pairs());
    guarded_edit(source, ".onOpenURL", &v)
}

// ── iOS project and Info.plist ─────────────────────────────────────────────

/// The project setting that has Xcode generate the Info.plist.
pub open spec fn generated_plist_setting() -> Seq<char> {
    "GENERATE_INFOPLIST_FILE: YES"@
}

/// What the project's generated-Info.plist setting becomes: a file of its own.
pub open spec fn spec_project_plist_edit(source: Seq<char>) -> Option<Seq<char>> {
    if contains(source, generated_plist_setting()) {
        Some(replace_all(
            source,
            "        GENERATE_INFOPLIST_FILE: YES\n"@,
            "        GENERATE_INFOPLIST_FILE: NO\n        INFOPLIST_FILE: App/Info.plist\n"@,
        ))
    } else {
        None
    }
}

/// `project.yml` switched from a generated Info.plist to `App/Info.plist`,
/// when it has Xcode generate one; `None` otherwise.
pub fn deep_links_project_edit(source: &str) -> (r: Option<String>)
    ensures
        opt_view(r) == spec_project_plist_edit(source@),
{
    if contains_str(source, "GENERATE_INFOPLIST_FILE: YES") {
        Some(replace_str(
            source,
            "        GENERATE_INFOPLIST_FILE: YES\n",
            "        GENERATE_INFOPLIST_FILE: NO\n        INFOPLIST_FILE: App/Info.plist\n",
        ))
    } else {
        None
    }
}

/// The start of the Info.plist that declares the `crepus` URL scheme.
pub open spec fn url_plist_head() -> Seq<char> {
    "<?xml version=\"1.0\" encoding=\"UTF-8\"?>\n<!DOCTYPE plist PUBLIC \"-//Apple//DTD PLIST 1.0//EN\" \"http://www.apple.com/DTDs/PropertyList-1.0.dtd\">\n<plist version=\"1.0\">\n<dict>\n    <key>CFBundleURLTypes</key>\n    <array>\n        <dict>\n            <key>CFBundleTypeRole</key>\n            <string>Editor</string>\n            <key>CFBundleURLName</key>\n            <string>$(PRODUCT_BUNDLE_IDENTIFIER)</string>\n            <key>CFBundleURLSchemes</key>\n            <array>\n                <string>crepus</string>\n            </array>\n        </dict>\n    </array>\n"@
}

/// The end of that Info.plist.
pub open spec fn url_plist_tail() -> Seq<char> {
    "    <key>UILaunchScreen</key>\n    <dict/>\n</dict>\n</plist>\n"@
}

/// The Info.plist written when the app has none: the `crepus` URL scheme,
/// then an entry for each `INFOPLIST_KEY_NS…` setting of `project` (the
/// text of `project.yml`), then the launch screen.
pub fn deep_links_info_plist(project: &str) -> (r: String)
    ensures
        r@ == url_plist_head() + plist_entries(lines(project@)) + url_plist_tail(),
{
    let mut s = to_owned_string("<?xml version=\"1.0\" encoding=\"UTF-8\"?>\n<!DOCTYPE plist PUBLIC \"-//Apple//DTD PLIST 1.0//EN\" \"http://www.apple.com/DTDs/PropertyList-1.0.dtd\">\n<plist version=\"1.0\">\n<dict>\n    <key>CFBundleURLTypes</key>\n    <array>\n        <dict>\n            <key>CFBundleTypeRole</key>\n            <string>Editor</string>\n            <key>CFBundleURLName</key>\n            <string>$(PRODUCT_BUNDLE_IDENTIFIER)</string>\n            <key>CFBundleURLSchemes</key>\n            <array>\n                <string>crepus</string>\n            </array>\n        </dict>\n    </array>\n");
    let keys = ios_info_plist_keys(project);
    push_str(&mut s, keys.as_str());
    push_str(&mut s, "    <key>UILaunchScreen</key>\n    <dict/>\n</dict>\n</plist>\n");
    s
}

} // verus!
