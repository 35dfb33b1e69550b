//! `crepus ios`: the SwiftUI host app scaffold (its files' texts), the
//! scheme of a legacy `project.yml`, the `xcodebuild` invocation, and what
//! each `crepus ios` command does.
use vstd::prelude::*;
use crate::text::{sviews};
use crate::build_options::{BuildOptions, BuildOptionsArgs};
use crate::cli::IosCommands;
use crate::apple_project::{AppleConfig, Platform};
use crate::text::{
    chars_of, first_some, lemma_first_some, lines, lines_of, push_str, starts_with, string_from_range,
    to_owned_string, trim, trim_bounds, trim_start, contains, contains_str, starts_with_str,
};

verus! {

/// The `crepus.toml` of a new iOS app, naming its scheme.
pub open spec fn spec_crepus_toml_text(app_target: Seq<char>) -> Seq<char> {
    "# Crepuscularity — `crepus ios generate` / `crepus ios build` read this (walks up from cwd).\n[ios]\nscheme = \""@
        + app_target
        + "\"\ndestination = \"platform=iOS Simulator,name=iPhone 16,OS=latest\"\n"@
}

pub fn crepus_toml_text(app_target: &str) -> (r: String)
    ensures
        r@ == spec_crepus_toml_text(app_target@),
{
    let mut r = String::new();
    push_str(&mut r, "# Crepuscularity — `crepus ios generate` / `crepus ios build` read this (walks up from cwd).\n[ios]\nscheme = \"");
    push_str(&mut r, app_target);
    push_str(&mut r, "\"\ndestination = \"platform=iOS Simulator,name=iPhone 16,OS=latest\"\n");
    assert(r@ =~= spec_crepus_toml_text(app_target@));
    r
}

/// The `Package.swift` of the NativeShell Swift package.
pub open spec fn spec_native_package_swift() -> Seq<char> {
    "// swift-tools-version: 5.9\nimport PackageDescription\n\nlet package = Package(\n    name: \"NativeShell\",\n    platforms: [.iOS(.v17), .macOS(.v14)],\n    products: [\n        .library(name: \"NativeShell\", targets: [\"NativeShell\"]),\n    ],\n    targets: [\n        .target(\n            name: \"NativeShell\",\n            path: \"Sources/NativeShell\",\n            resources: [.copy(\"fixture.json\")]\n        ),\n    ]\n)\n"@
}

pub fn native_package_swift() -> (r: String)
    ensures
        r@ == spec_native_package_swift(),
{
    let mut r = String::new();
    push_str(&mut r, "// swift-tools-version: 5.9\nimport PackageDescription\n\nlet package = Package(\n    name: \"NativeShell\",\n    platforms: [.iOS(.v17), .macOS(.v14)],\n    products: [\n        .library(name: \"NativeShell\", targets: [\"NativeShell\"]),\n    ],\n    targets: [\n        .target(\n            name: \"NativeShell\",\n            path: \"Sources/NativeShell\",\n            resources: [.copy(\"fixture.json\")]\n        ),\n    ]\n)\n");
    assert(r@ =~= spec_native_package_swift());
    r
}

/// The SwiftUI `App` of a new iOS app.
pub open spec fn spec_app_swift(pascal: Seq<char>) -> Seq<char> {
    "import SwiftUI\n\n@main\nstruct "@
        + pascal
        + "App: App {\n    var body: some Scene {\n        WindowGroup {\n            ContentView()\n        }\n    }\n}\n"@
}

pub fn app_swift(pascal: &str) -> (r: String)
    ensures
        r@ == spec_app_swift(pascal@),
{
    let mut r = String::new();
    push_str(&mut r, "import SwiftUI\n\n@main\nstruct ");
    push_str(&mut r, pascal);
    push_str(&mut r, "App: App {\n    var body: some Scene {\n        WindowGroup {\n            ContentView()\n        }\n    }\n}\n");
    assert(r@ =~= spec_app_swift(pascal@));
    r
}

/// The root view of a new iOS app.
pub open spec fn spec_content_view_swift() -> Seq<char> {
    "import SwiftUI\nimport NativeShell\n\nstruct ContentView: View {\n    var body: some View {\n        FixtureRootView()\n    }\n}\n"@
}

pub fn content_view_swift() -> (r: String)
    ensures
        r@ == spec_content_view_swift(),
{
    let mut r = String::new();
    push_str(&mut r, "import SwiftUI\nimport NativeShell\n\nstruct ContentView: View {\n    var body: some View {\n        FixtureRootView()\n    }\n}\n");
    assert(r@ =~= spec_content_view_swift());
    r
}

/// The `.gitignore` of a new iOS app.
pub open spec fn spec_ios_gitignore() -> Seq<char> {
    "DerivedData/\n.build/\nxcuserdata/\n*.xcuserstate\n*.xcodeproj/\n*.xcworkspace/\n.DS_Store\n"@
}

pub fn ios_gitignore() -> (r: String)
    ensures
        r@ == spec_ios_gitignore(),
{
    let mut r = String::new();
    push_str(&mut r, "DerivedData/\n.build/\nxcuserdata/\n*.xcuserstate\n*.xcodeproj/\n*.xcworkspace/\n.DS_Store\n");
    assert(r@ =~= spec_ios_gitignore());
    r
}

/// The README of a new iOS app.
pub open spec fn spec_readme_md(name: Seq<char>, app_target: Seq<char>) -> Seq<char> {
    "# "@
        + name
        + " (Crepuscularity iOS shell)\n\nGenerated with `crepus ios new "@
        + name
        + "`.\n\n- **Crepus** produces `"@
        + app_target
        + ".xcodeproj` from `crepus.toml`.\n- **NativeShell** is a local Swift package that decodes View IR JSON (`fixture.json`).\n\n## Commands\n\n`crepus.toml` stores the Xcode scheme and simulator destination; run commands from this directory (or any subfolder).\n\n```bash\ncrepus ios generate\nopen "@
        + app_target
        + ".xcodeproj\n```\n\nBuild from the CLI:\n\n```bash\ncrepus ios build\n```\n\nReplace `fixture.json` under `NativeShell/Sources/NativeShell/` when you change templates; rebuild the app.\n\n"@
}

pub fn readme_md(name: &str, app_target: &str) -> (r: String)
    ensures
        r@ == spec_readme_md(name@, app_target@),
{
    let mut r = String::new();
    push_str(&mut r, "# ");
    push_str(&mut r, name);
    push_str(&mut r, " (Crepuscularity iOS shell)\n\nGenerated with `crepus ios new ");
    push_str(&mut r, name);
    push_str(&mut r, "`.\n\n- **Crepus** produces `");
    push_str(&mut r, app_target);
    push_str(&mut r, ".xcodeproj` from `crepus.toml`.\n- **NativeShell** is a local Swift package that decodes View IR JSON (`fixture.json`).\n\n## Commands\n\n`crepus.toml` stores the Xcode scheme and simulator destination; run commands from this directory (or any subfolder).\n\n```bash\ncrepus ios generate\nopen ");
    push_str(&mut r, app_target);
    push_str(&mut r, ".xcodeproj\n```\n\nBuild from the CLI:\n\n```bash\ncrepus ios build\n```\n\nReplace `fixture.json` under `NativeShell/Sources/NativeShell/` when you change templates; rebuild the app.\n\n");
    assert(r@ =~= spec_readme_md(name@, app_target@));
    r
}

// ── Legacy trees: the scheme from `project.yml` ────────────────────────────

/// A `name:` line of `project.yml` that is not a bundle-identifier setting.
pub open spec fn legacy_name_line(l: Seq<char>) -> Option<Seq<char>> {
    let t = trim_start(l);
    if starts_with(t, "name:"@) && !contains(t, "PRODUCT_BUNDLE_IDENTIFIER"@) {
        Some(t)
    } else {
        None
    }
}

pub open spec fn legacy_name_line_fn() -> spec_fn(Seq<char>) -> Option<Seq<char>> {
    |l: Seq<char>| legacy_name_line(l)
}

/// The scheme of a tree with only a `project.yml`: the first word after
/// its first `name:` line's colon.
pub open spec fn spec_legacy_scheme(yml: Seq<char>) -> Option<Seq<char>> {
    match first_some(lines(yml), legacy_name_line_fn()) {
        Some(t) => {
            let ws = crate::native_mobile::words(trim(t.skip(5)));
            if ws.len() > 0 {
                Some(ws[0])
            } else {
                None
            }
        },
        None => None,
    }
}

fn legacy_line(line: &str) -> (r: Option<String>)
    ensures
        match r {
            Some(x) => legacy_name_line(line@) == Some(x@),
            None => legacy_name_line(line@) is None,
        },
{
    proof {
        reveal_strlit("name:");
        reveal_strlit("PRODUCT_BUNDLE_IDENTIFIER");
    }
    let cs = chars_of(line);
    let (a, _b) = trim_bounds(&cs, 0, cs.len());
    assert(cs@.subrange(0, cs@.len() as int) =~= cs@);
    let t = string_from_range(&cs, a, cs.len());
    if starts_with_str(t.as_str(), "name:") && !contains_str(t.as_str(), "PRODUCT_BUNDLE_IDENTIFIER") {
        Some(t)
    } else {
        None
    }
}

pub fn legacy_scheme(yml: &str) -> (r: Option<String>)
    ensures
        match (r, spec_legacy_scheme(yml@)) {
            (Some(x), Some(y)) => x@ == y,
            (None, None) => true,
            _ => false,
        },
{
    let ls = lines_of(yml);
    let ghost sl = lines(yml@);
    let ghost f = legacy_name_line_fn();
    let mut i: usize = 0;
    while i < ls.len()
        invariant
            ls@.len() == sl.len(),
            forall|j: int| 0 <= j < ls@.len() ==> #[trigger] ls@[j]@ == sl[j],
            i <= ls@.len(),
            sl == lines(yml@),
            f == legacy_name_line_fn(),
            forall|j: int| 0 <= j < i ==> f(#[trigger] sl[j]) is None,
        decreases ls@.len() - i,
    {
        match legacy_line(ls[i].as_str()) {
            Some(t) => {
                proof {
                    lemma_first_some(sl, f, i as int);
                    assert(sl.skip(i as int)[0] == sl[i as int]);
                    assert(first_some(sl.skip(i as int), f) == f(sl[i as int]));
                    reveal_strlit("name:");
                }
                let tc = chars_of(t.as_str());
                let (a, b) = trim_bounds(&tc, 5, tc.len());
                let rest = string_from_range(&tc, a, b);
                assert(tc@.subrange(5, tc@.len() as int) =~= t@.skip(5));
                let ws = crate::native_mobile::words_of(rest.as_str());
                if ws.len() > 0 {
                    return Some(to_owned_string(ws[0].as_str()));
                } else {
                    return None;
                }
            },
            None => {},
        }
        i = i + 1;
    }
    proof {
        lemma_first_some(sl, f, sl.len() as int);
    }
    None
}

// ── xcodebuild ─────────────────────────────────────────────────────────────

/// The signing settings of an iOS build.
#[derive(Debug, Clone, PartialEq, Eq)]
pub struct IosSigning {
    pub bundle_id: Option<String>,
    pub development_team: Option<String>,
    pub code_sign_style: Option<String>,
    pub allow_provisioning_updates: bool,
}

pub open spec fn opt_arg(prefix: Seq<char>, v: Option<String>) -> Seq<Seq<char>> {
    match v {
        Some(x) => seq![prefix + x@],
        None => Seq::empty(),
    }
}

/// The `xcodebuild` arguments of `crepus ios build`: project, scheme,
/// destination and configuration, then the signing settings that are set,
/// then `build`.
pub open spec fn spec_xcodebuild_args(
    project: Seq<char>,
    scheme: Seq<char>,
    destination: Seq<char>,
    release: bool,
    signing: IosSigning,
) -> Seq<Seq<char>> {
    seq!["-project"@, project, "-scheme"@, scheme, "-destination"@, destination, "-configuration"@,
        if release { "Release"@ } else { "Debug"@ }]
        + (if signing.allow_provisioning_updates { seq!["-allowProvisioningUpdates"@] } else { Seq::empty() })
        + opt_arg("PRODUCT_BUNDLE_IDENTIFIER="@, signing.bundle_id)
        + opt_arg("DEVELOPMENT_TEAM="@, signing.development_team)
        + opt_arg("CODE_SIGN_STYLE="@, signing.code_sign_style)
        + seq!["build"@]
}

fn push_opt_arg(args: &mut Vec<String>, prefix: &str, v: &Option<String>)
    ensures
        sviews(final(args)@) == sviews(old(args)@) + opt_arg(prefix@, *v),
{
    match v {
        Some(x) => {
            let mut a = to_owned_string(prefix);
            push_str(&mut a, x.as_str());
            args.push(a);
        },
        None => {},
    }
    assert(sviews(final(args)@) =~= sviews(old(args)@) + opt_arg(prefix@, *v));
}

pub fn xcodebuild_args(project: &str, scheme: &str, destination: &str, release: bool, signing: &IosSigning) -> (r: Vec<String>)
    ensures
        sviews(r@) == spec_xcodebuild_args(project@, scheme@, destination@, release, *signing),
{
    let mut args: Vec<String> = Vec::new();
    args.push(to_owned_string("-project"));
    args.push(to_owned_string(project));
    args.push(to_owned_string("-scheme"));
    args.push(to_owned_string(scheme));
    args.push(to_owned_string("-destination"));
    args.push(to_owned_string(destination));
    args.push(to_owned_string("-configuration"));
    args.push(to_owned_string(if release { "Release" } else { "Debug" }));
    let ghost base = sviews(args@);
    assert(base =~= seq!["-project"@, project@, "-scheme"@, scheme@, "-destination"@, destination@,
        "-configuration"@, if release { "Release"@ } else { "Debug"@ }]);
    if signing.allow_provisioning_updates {
        args.push(to_owned_string("-allowProvisioningUpdates"));
    }
    assert(sviews(args@) =~= base + (if signing.allow_provisioning_updates {
        seq!["-allowProvisioningUpdates"@]
    } else {
        Seq::empty()
    }));
    push_opt_arg(&mut args, "PRODUCT_BUNDLE_IDENTIFIER=", &signing.bundle_id);
    push_opt_arg(&mut args, "DEVELOPMENT_TEAM=", &signing.development_team);
    push_opt_arg(&mut args, "CODE_SIGN_STYLE=", &signing.code_sign_style);
    let ghost before = sviews(args@);
    args.push(to_owned_string("build"));
    assert(sviews(args@) =~= before.push("build"@));
    assert(sviews(args@) =~= spec_xcodebuild_args(project@, scheme@, destination@, release, *signing));
    args
}

// ── `crepus ios <command>` ─────────────────────────────────────────────────

/// What a `crepus ios` command does.
#[derive(Debug, Clone, PartialEq, Eq)]
pub enum IosAction {
    /// Scaffold a new app directory.
    Scaffold { name: String },
    /// Generate the Xcode project of the app found at (or above) `dir`.
    Generate { dir: Option<String> },
    /// Generate, then build with these options; a scheme or destination
    /// given here overrides the app's configuration.
    Build { options: BuildOptions, dir: Option<String>, scheme: Option<String>, destination: Option<String> },
}

pub fn execute(cmd: IosCommands) -> (r: IosAction)
    ensures
        cmd matches IosCommands::New { name } ==> r == (IosAction::Scaffold { name }),
        cmd matches IosCommands::Generate { dir, .. } ==> r == (IosAction::Generate { dir }),
        cmd matches IosCommands::Build { build, dir, scheme, destination, .. } ==> r == (IosAction::Build {
            options: build.spec_options(),
            dir,
            scheme,
            destination,
        }),
{
    match cmd {
        IosCommands::New { name } => IosAction::Scaffold { name },
        IosCommands::Generate { dir, .. } => IosAction::Generate { dir },
        IosCommands::Build { build, dir, scheme, destination, .. } => {
            let options = match build.into_options() {
                Ok(o) => o,
                Err(_) => BuildOptions::debug(),
            };
            IosAction::Build { options, dir, scheme, destination }
        },
    }
}

/// The scheme and destination of a build: those given, else the app's.
pub fn build_target(scheme: Option<String>, destination: Option<String>, cfg_scheme: String, cfg_destination: String) -> (r: (String, String))
    ensures
        r.0 == match scheme {
            Some(s) => s,
            None => cfg_scheme,
        },
        r.1 == match destination {
            Some(d) => d,
            None => cfg_destination,
        },
{
    let s = match scheme {
        Some(s) => s,
        None => cfg_scheme,
    };
    let d = match destination {
        Some(d) => d,
        None => cfg_destination,
    };
    (s, d)
}

/// The Xcode project that `crepus ios generate` and `crepus ios build`
/// write for an app: an iOS 17 app named after its scheme, with the
/// configured bundle id (`dev.crepuscularity.app` when there is none), on the
/// `NativeShell` package.
pub fn ios_project_config(scheme: &str, bundle_id: &Option<String>) -> (r: AppleConfig)
    ensures
        r.name@ == scheme@,
        r.bundle_id@ == match bundle_id {
            Some(b) => b@,
            None => "dev.crepuscularity.app"@,
        },
        r.platform == Platform::Ios,
        r.deployment_target@ == "17.0"@,
        r.package_path@ == "NativeShell"@,
        r.package_product@ == "NativeShell"@,
{
    AppleConfig {
        name: to_owned_string(scheme),
        bundle_id: match bundle_id {
            Some(b) => b.clone(),
            None => to_owned_string("dev.crepuscularity.app"),
        },
        platform: Platform::Ios,
        deployment_target: to_owned_string("17.0"),
        package_path: to_owned_string("NativeShell"),
        package_product: to_owned_string("NativeShell"),
    }
}

} // verus!
