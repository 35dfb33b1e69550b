//! Share extensions of the native iOS and macOS shells: the XcodeGen target
//! that `crepus native extension ios-share|macos-share` appends to
//! `ios/project.yml`, and the files it writes beside it.
use vstd::prelude::*;
use crate::text::{
    contains, contains_str, first_some, lemma_first_some, lines, lines_of, push_str, starts_with,
    string_from_range, to_owned_string, trim, trim_char, trim_char_bounds, chars_of, trim_bounds,
    starts_with_str,
};

verus! {

/// The Apple platform of a share extension.
#[derive(Clone, Copy, Debug, PartialEq, Eq, Structural)]
pub enum ShareExtensionPlatform {
    Ios,
    Macos,
}

impl ShareExtensionPlatform {
    pub open spec fn spec_xcode_platform(self) -> Seq<char> {
        match self {
            ShareExtensionPlatform::Ios => "iOS"@,
            ShareExtensionPlatform::Macos => "macOS"@,
        }
    }

    /// The XcodeGen platform name.
    pub fn xcode_platform(self) -> (r: &'static str)
        ensures
            r@ == self.spec_xcode_platform(),
    {
        match self {
            ShareExtensionPlatform::Ios => "iOS",
            ShareExtensionPlatform::Macos => "macOS",
        }
    }

    pub open spec fn spec_source_dir(self) -> Seq<char> {
        match self {
            ShareExtensionPlatform::Ios => "ShareExtension"@,
            ShareExtensionPlatform::Macos => "MacShareExtension"@,
        }
    }

    /// The directory of the extension's sources under `ios/`.
    pub fn source_dir(self) -> (r: &'static str)
        ensures
            r@ == self.spec_source_dir(),
    {
        match self {
            ShareExtensionPlatform::Ios => "ShareExtension",
            ShareExtensionPlatform::Macos => "MacShareExtension",
        }
    }

    pub open spec fn spec_rust_target_script(self) -> Seq<char> {
        match self {
            ShareExtensionPlatform::Ios => "if [ \"${PLATFORM_NAME:-iphonesimulator}\" = \"iphoneos\" ]; then\n            rust_target=aarch64-apple-ios\n          else\n            rust_target=aarch64-apple-ios-sim\n          fi"@,
            ShareExtensionPlatform::Macos => "case \"${CURRENT_ARCH:-$(uname -m)}\" in\n            arm64) rust_target=aarch64-apple-darwin ;;\n            x86_64) rust_target=x86_64-apple-darwin ;;\n            *) echo \"unsupported macOS arch: ${CURRENT_ARCH:-$(uname -m)}\" >&2; exit 1 ;;\n          esac"@,
        }
    }

    /// The shell lines that pick the Rust target of the build.
    pub fn rust_target_script(self) -> (r: &'static str)
        ensures
            r@ == self.spec_rust_target_script(),
    {
        match self {
            ShareExtensionPlatform::Ios => "if [ \"${PLATFORM_NAME:-iphonesimulator}\" = \"iphoneos\" ]; then\n            rust_target=aarch64-apple-ios\n          else\n            rust_target=aarch64-apple-ios-sim\n          fi",
            ShareExtensionPlatform::Macos => "case \"${CURRENT_ARCH:-$(uname -m)}\" in\n            arm64) rust_target=aarch64-apple-darwin ;;\n            x86_64) rust_target=x86_64-apple-darwin ;;\n            *) echo \"unsupported macOS arch: ${CURRENT_ARCH:-$(uname -m)}\" >&2; exit 1 ;;\n          esac",
        }
    }

    pub open spec fn spec_library_search_paths(self) -> Seq<char> {
        match self {
            ShareExtensionPlatform::Ios => "        LIBRARY_SEARCH_PATHS[sdk=iphoneos*]: \"$(PROJECT_DIR)/build/rust/aarch64-apple-ios\"\n        LIBRARY_SEARCH_PATHS[sdk=iphonesimulator*]: \"$(PROJECT_DIR)/build/rust/aarch64-apple-ios-sim\""@,
            ShareExtensionPlatform::Macos => "        LIBRARY_SEARCH_PATHS: \"$(PROJECT_DIR)/build/rust/aarch64-apple-darwin $(PROJECT_DIR)/build/rust/x86_64-apple-darwin\""@,
        }
    }

    /// Where the linker finds the Rust actions library.
    pub fn library_search_paths(self) -> (r: &'static str)
        ensures
            r@ == self.spec_library_search_paths(),
    {
        match self {
            ShareExtensionPlatform::Ios => "        LIBRARY_SEARCH_PATHS[sdk=iphoneos*]: \"$(PROJECT_DIR)/build/rust/aarch64-apple-ios\"\n        LIBRARY_SEARCH_PATHS[sdk=iphonesimulator*]: \"$(PROJECT_DIR)/build/rust/aarch64-apple-ios-sim\"",
            ShareExtensionPlatform::Macos => "        LIBRARY_SEARCH_PATHS: \"$(PROJECT_DIR)/build/rust/aarch64-apple-darwin $(PROJECT_DIR)/build/rust/x86_64-apple-darwin\"",
        }
    }

    pub open spec fn spec_output_files(self) -> Seq<char> {
        match self {
            ShareExtensionPlatform::Ios => "          - \"$(PROJECT_DIR)/build/rust/aarch64-apple-ios/libcrepus_mobile_actions.a\"\n          - \"$(PROJECT_DIR)/build/rust/aarch64-apple-ios-sim/libcrepus_mobile_actions.a\""@,
            ShareExtensionPlatform::Macos => "          - \"$(PROJECT_DIR)/build/rust/aarch64-apple-darwin/libcrepus_mobile_actions.a\"\n          - \"$(PROJECT_DIR)/build/rust/x86_64-apple-darwin/libcrepus_mobile_actions.a\""@,
        }
    }

    /// The static libraries the Rust build step produces.
    pub fn output_files(self) -> (r: &'static str)
        ensures
            r@ == self.spec_output_files(),
    {
        match self {
            ShareExtensionPlatform::Ios => "          - \"$(PROJECT_DIR)/build/rust/aarch64-apple-ios/libcrepus_mobile_actions.a\"\n          - \"$(PROJECT_DIR)/build/rust/aarch64-apple-ios-sim/libcrepus_mobile_actions.a\"",
            ShareExtensionPlatform::Macos => "          - \"$(PROJECT_DIR)/build/rust/aarch64-apple-darwin/libcrepus_mobile_actions.a\"\n          - \"$(PROJECT_DIR)/build/rust/x86_64-apple-darwin/libcrepus_mobile_actions.a\"",
        }
    }

    /// The Swift view controller of the extension.
    pub open spec fn spec_controller(self) -> Seq<char> {
        match self {
            ShareExtensionPlatform::Ios => r#"import NativeShell
import UIKit
import UniformTypeIdentifiers

final class ShareViewController: UIViewController {
    override func viewDidLoad() {
        super.viewDidLoad()
        Task {
            let payload = await Self.payload(from: extensionContext)
            let data = try? JSONSerialization.data(withJSONObject: [
                "action": "share.receive",
                "value": payload,
            ])
            if let data, let json = String(data: data, encoding: .utf8) {
                _ = CrepusRustActions.dispatchStored(json)
            }
            extensionContext?.completeRequest(returningItems: nil)
        }
    }

    private static func payload(from context: NSExtensionContext?) async -> [String: Any] {
        var items: [[String: String]] = []
        for case let item as NSExtensionItem in context?.inputItems ?? [] {
            for provider in item.attachments ?? [] {
                if let text = await loadString(provider, .plainText) {
                    items.append(["kind": "text", "value": text])
                } else if let url = await loadString(provider, .url) {
                    items.append(["kind": "url", "value": url])
                }
            }
        }
        return ["items": items]
    }

    private static func loadString(_ provider: NSItemProvider, _ type: UTType) async -> String? {
        guard provider.hasItemConformingToTypeIdentifier(type.identifier) else {
            return nil
        }
        return await withCheckedContinuation { continuation in
            provider.loadItem(forTypeIdentifier: type.identifier) { item, _ in
                if let text = item as? String {
                    continuation.resume(returning: text)
                } else if let url = item as? URL {
                    continuation.resume(returning: url.absoluteString)
                } else {
                    continuation.resume(returning: nil)
                }
            }
        }
    }
}
"#@,
            ShareExtensionPlatform::Macos => r#"import AppKit
import NativeShell
import UniformTypeIdentifiers

final class ShareViewController: NSViewController {
    override func viewDidLoad() {
        super.viewDidLoad()
        Task {
            let payload = await Self.payload(from: extensionContext)
            let data = try? JSONSerialization.data(withJSONObject: [
                "action": "share.receive",
                "value": payload,
            ])
            if let data, let json = String(data: data, encoding: .utf8) {
                _ = CrepusRustActions.dispatchStored(json)
            }
            extensionContext?.completeRequest(returningItems: nil, completionHandler: nil)
        }
    }

    private static func payload(from context: NSExtensionContext?) async -> [String: Any] {
        var items: [[String: String]] = []
        for case let item as NSExtensionItem in context?.inputItems ?? [] {
            for provider in item.attachments ?? [] {
                if let text = await loadString(provider, .plainText) {
                    items.append(["kind": "text", "value": text])
                } else if let url = await loadString(provider, .url) {
                    items.append(["kind": "url", "value": url])
                }
            }
        }
        return ["items": items]
    }

    private static func loadString(_ provider: NSItemProvider, _ type: UTType) async -> String? {
        guard provider.hasItemConformingToTypeIdentifier(type.identifier) else {
            return nil
        }
        return await withCheckedContinuation { continuation in
            provider.loadItem(forTypeIdentifier: type.identifier) { item, _ in
                if let text = item as? String {
                    continuation.resume(returning: text)
                } else if let url = item as? URL {
                    continuation.resume(returning: url.absoluteString)
                } else {
                    continuation.resume(returning: nil)
                }
            }
        }
    }
}
"#@,
        }
    }

    pub fn controller(self) -> (r: &'static str)
        ensures
            r@ == self.spec_controller(),
    {
        match self {
            ShareExtensionPlatform::Ios => r#"import NativeShell
import UIKit
import UniformTypeIdentifiers

final class ShareViewController: UIViewController {
    override func viewDidLoad() {
        super.viewDidLoad()
        Task {
            let payload = await Self.payload(from: extensionContext)
            let data = try? JSONSerialization.data(withJSONObject: [
                "action": "share.receive",
                "value": payload,
            ])
            if let data, let json = String(data: data, encoding: .utf8) {
                _ = CrepusRustActions.dispatchStored(json)
            }
            extensionContext?.completeRequest(returningItems: nil)
        }
    }

    private static func payload(from context: NSExtensionContext?) async -> [String: Any] {
        var items: [[String: String]] = []
        for case let item as NSExtensionItem in context?.inputItems ?? [] {
            for provider in item.attachments ?? [] {
                if let text = await loadString(provider, .plainText) {
                    items.append(["kind": "text", "value": text])
                } else if let url = await loadString(provider, .url) {
                    items.append(["kind": "url", "value": url])
                }
            }
        }
        return ["items": items]
    }

    private static func loadString(_ provider: NSItemProvider, _ type: UTType) async -> String? {
        guard provider.hasItemConformingToTypeIdentifier(type.identifier) else {
            return nil
        }
        return await withCheckedContinuation { continuation in
            provider.loadItem(forTypeIdentifier: type.identifier) { item, _ in
                if let text = item as? String {
                    continuation.resume(returning: text)
                } else if let url = item as? URL {
                    continuation.resume(returning: url.absoluteString)
                } else {
                    continuation.resume(returning: nil)
                }
            }
        }
    }
}
"#,
            ShareExtensionPlatform::Macos => r#"import AppKit
import NativeShell
import UniformTypeIdentifiers

final class ShareViewController: NSViewController {
    override func viewDidLoad() {
        super.viewDidLoad()
        Task {
            let payload = await Self.payload(from: extensionContext)
            let data = try? JSONSerialization.data(withJSONObject: [
                "action": "share.receive",
                "value": payload,
            ])
            if let data, let json = String(data: data, encoding: .utf8) {
                _ = CrepusRustActions.dispatchStored(json)
            }
            extensionContext?.completeRequest(returningItems: nil, completionHandler: nil)
        }
    }

    private static func payload(from context: NSExtensionContext?) async -> [String: Any] {
        var items: [[String: String]] = []
        for case let item as NSExtensionItem in context?.inputItems ?? [] {
            for provider in item.attachments ?? [] {
                if let text = await loadString(provider, .plainText) {
                    items.append(["kind": "text", "value": text])
                } else if let url = await loadString(provider, .url) {
                    items.append(["kind": "url", "value": url])
                }
            }
        }
        return ["items": items]
    }

    private static func loadString(_ provider: NSItemProvider, _ type: UTType) async -> String? {
        guard provider.hasItemConformingToTypeIdentifier(type.identifier) else {
            return nil
        }
        return await withCheckedContinuation { continuation in
            provider.loadItem(forTypeIdentifier: type.identifier) { item, _ in
                if let text = item as? String {
                    continuation.resume(returning: text)
                } else if let url = item as? URL {
                    continuation.resume(returning: url.absoluteString)
                } else {
                    continuation.resume(returning: nil)
                }
            }
        }
    }
}
"#,
        }
    }
}

/// The `Info.plist` of a share extension.
pub open spec fn spec_share_info_plist() -> Seq<char> {
    r#"<?xml version="1.0" encoding="UTF-8"?>
<!DOCTYPE plist PUBLIC "-//Apple//DTD PLIST 1.0//EN" "http://www.apple.com/DTDs/PropertyList-1.0.dtd">
<plist version="1.0">
<dict>
	<key>NSExtension</key>
	<dict>
		<key>NSExtensionPointIdentifier</key>
		<string>com.apple.share-services</string>
		<key>NSExtensionPrincipalClass</key>
		<string>$(PRODUCT_MODULE_NAME).ShareViewController</string>
	</dict>
</dict>
</plist>
"#@
}

pub fn share_info_plist() -> (r: &'static str)
    ensures
        r@ == spec_share_info_plist(),
{
    r#"<?xml version="1.0" encoding="UTF-8"?>
<!DOCTYPE plist PUBLIC "-//Apple//DTD PLIST 1.0//EN" "http://www.apple.com/DTDs/PropertyList-1.0.dtd">
<plist version="1.0">
<dict>
	<key>NSExtension</key>
	<dict>
		<key>NSExtensionPointIdentifier</key>
		<string>com.apple.share-services</string>
		<key>NSExtensionPrincipalClass</key>
		<string>$(PRODUCT_MODULE_NAME).ShareViewController</string>
	</dict>
</dict>
</plist>
"#
}

/// The XcodeGen target of a share extension named `name` for an app with
/// bundle identifier `main_bundle_id`: an app extension with its own sources
/// and Info.plist, bundle identifier `<main>.share`, linked against the Rust
/// actions library that its pre-build script compiles for the right target.
pub open spec fn spec_share_extension_target(name: Seq<char>, main_bundle_id: Seq<char>, platform: ShareExtensionPlatform) -> Seq<char> {
    "\n  "@
        + name
        + ":\n    type: app-extension\n    platform: "@
        + platform.spec_xcode_platform()
        + "\n    sources:\n      - path: "@
        + platform.spec_source_dir()
        + "\n    settings:\n      base:\n"@
        + platform.spec_library_search_paths()
        + "\n        OTHER_LDFLAGS: \"-lcrepus_mobile_actions\"\n        EXCLUDED_ARCHS[sdk=iphonesimulator*]: \"x86_64\"\n        INFOPLIST_FILE: "@
        + platform.spec_source_dir()
        + "/Info.plist\n        PRODUCT_BUNDLE_IDENTIFIER: "@
        + main_bundle_id
        + ".share\n    dependencies:\n      - package: NativeShell\n        product: NativeShell\n    preBuildScripts:\n      - name: Build Rust Actions\n        outputFiles:\n"@
        + platform.spec_output_files()
        + "\n        script: |\n          set -euo pipefail\n          export PATH=\"$HOME/.cargo/bin:/opt/homebrew/bin:/usr/local/bin:$PATH\"\n          "@
        + platform.spec_rust_target_script()
        + "\n          rustup target add \"$rust_target\" >/dev/null\n          cargo_profile=debug\n          if [ \"${CONFIGURATION:-Debug}\" = \"Release\" ]; then\n            cargo_profile=release\n          fi\n          cargo build --manifest-path \"$PROJECT_DIR/../rust/Cargo.toml\" \\\n            --target \"$rust_target\" \\\n            $([ \"$cargo_profile\" = release ] && echo \"--release\") \\\n            --no-default-features\n          mkdir -p \"$PROJECT_DIR/build/rust/$rust_target\"\n          cp \"$PROJECT_DIR/../rust/target/$rust_target/$cargo_profile/libcrepus_mobile_actions.a\" \"$PROJECT_DIR/build/rust/$rust_target/\"\n"@
}

pub fn share_extension_target(name: &str, main_bundle_id: &str, platform: ShareExtensionPlatform) -> (r: String)
    ensures
        r@ == spec_share_extension_target(name@, main_bundle_id@, platform),
{
    let mut r = String::new();
    push_str(&mut r, "\n  ");
    push_str(&mut r, name);
    push_str(&mut r, ":\n    type: app-extension\n    platform: ");
    push_str(&mut r, platform.xcode_platform());
    push_str(&mut r, "\n    sources:\n      - path: ");
    push_str(&mut r, platform.source_dir());
    push_str(&mut r, "\n    settings:\n      base:\n");
    push_str(&mut r, platform.library_search_paths());
    push_str(&mut r, "\n        OTHER_LDFLAGS: \"-lcrepus_mobile_actions\"\n        EXCLUDED_ARCHS[sdk=iphonesimulator*]: \"x86_64\"\n        INFOPLIST_FILE: ");
    push_str(&mut r, platform.source_dir());
    push_str(&mut r, "/Info.plist\n        PRODUCT_BUNDLE_IDENTIFIER: ");
    push_str(&mut r, main_bundle_id);
    push_str(&mut r, ".share\n    dependencies:\n      - package: NativeShell\n        product: NativeShell\n    preBuildScripts:\n      - name: Build Rust Actions\n        outputFiles:\n");
    push_str(&mut r, platform.output_files());
    push_str(&mut r, "\n        script: |\n          set -euo pipefail\n          export PATH=\"$HOME/.cargo/bin:/opt/homebrew/bin:/usr/local/bin:$PATH\"\n          ");
    push_str(&mut r, platform.rust_target_script());
    push_str(&mut r, "\n          rustup target add \"$rust_target\" >/dev/null\n          cargo_profile=debug\n          if [ \"${CONFIGURATION:-Debug}\" = \"Release\" ]; then\n            cargo_profile=release\n          fi\n          cargo build --manifest-path \"$PROJECT_DIR/../rust/Cargo.toml\" \\\n            --target \"$rust_target\" \\\n            $([ \"$cargo_profile\" = release ] && echo \"--release\") \\\n            --no-default-features\n          mkdir -p \"$PROJECT_DIR/build/rust/$rust_target\"\n          cp \"$PROJECT_DIR/../rust/target/$rust_target/$cargo_profile/libcrepus_mobile_actions.a\" \"$PROJECT_DIR/build/rust/$rust_target/\"\n");
    assert(r@ =~= spec_share_extension_target(name@, main_bundle_id@, platform));
    r
}

/// The bundle identifier of a `PRODUCT_BUNDLE_IDENTIFIER: …` line.
pub open spec fn bundle_id_line(line: Seq<char>) -> Option<Seq<char>> {
    let t = trim(line);
    if starts_with(t, "PRODUCT_BUNDLE_IDENTIFIER: "@) {
        Some(t.skip(27))
    } else {
        None
    }
}

pub open spec fn bundle_id_line_fn() -> spec_fn(Seq<char>) -> Option<Seq<char>> {
    |l: Seq<char>| bundle_id_line(l)
}

/// The app's bundle identifier in an XcodeGen `project.yml`: from the first
/// `PRODUCT_BUNDLE_IDENTIFIER:` line (`dev.crepuscularity.mobile` when there
/// is none), without surrounding quotes.
pub open spec fn spec_main_bundle_id(project_yml: Seq<char>) -> Seq<char> {
    trim_char(match first_some(lines(project_yml), bundle_id_line_fn()) {
        Some(v) => v,
        None => "dev.crepuscularity.mobile"@,
    }, '"')
}

fn bundle_id_of_line(line: &str) -> (r: Option<String>)
    ensures
        match r {
            Some(x) => bundle_id_line(line@) == Some(x@),
            None => bundle_id_line(line@) is None,
        },
{
    proof {
        reveal_strlit("PRODUCT_BUNDLE_IDENTIFIER: ");
    }
    let cs = chars_of(line);
    let (a, b) = trim_bounds(&cs, 0, cs.len());
    assert(cs@.subrange(0, cs@.len() as int) =~= cs@);
    let t = string_from_range(&cs, a, b);
    if starts_with_str(t.as_str(), "PRODUCT_BUNDLE_IDENTIFIER: ") {
        let tc = chars_of(t.as_str());
        let v = string_from_range(&tc, 27, tc.len());
        assert(v@ =~= t@.skip(27));
        Some(v)
    } else {
        None
    }
}

pub fn main_bundle_id(project_yml: &str) -> (r: String)
    ensures
        r@ == spec_main_bundle_id(project_yml@),
{
    let ls = lines_of(project_yml);
    let ghost sl = lines(project_yml@);
    let ghost f = bundle_id_line_fn();
    let mut found: Option<String> = None;
    let mut i: usize = 0;
    while i < ls.len()
        invariant
            ls@.len() == sl.len(),
            forall|j: int| 0 <= j < ls@.len() ==> #[trigger] ls@[j]@ == sl[j],
            i <= ls@.len(),
            sl == lines(project_yml@),
            f == bundle_id_line_fn(),
            found is None,
            forall|j: int| 0 <= j < i ==> f(#[trigger] sl[j]) is None,
        decreases ls@.len() - i,
    {
        match bundle_id_of_line(ls[i].as_str()) {
            Some(v) => {
                proof {
                    lemma_first_some(sl, f, i as int);
                    assert(sl.skip(i as int)[0] == sl[i as int]);
                    assert(first_some(sl.skip(i as int), f) == f(sl[i as int]));
                }
                let vc = chars_of(v.as_str());
                let (x, y) = trim_char_bounds(&vc, 0, vc.len(), '"');
                assert(vc@.subrange(0, vc@.len() as int) =~= vc@);
                return string_from_range(&vc, x, y);
            },
            None => {},
        }
        i = i + 1;
    }
    proof {
        lemma_first_some(sl, f, sl.len() as int);
    }
    let d = to_owned_string("dev.crepuscularity.mobile");
    let dc = chars_of(d.as_str());
    let (x, y) = trim_char_bounds(&dc, 0, dc.len(), '"');
    assert(dc@.subrange(0, dc@.len() as int) =~= dc@);
    string_from_range(&dc, x, y)
}

/// What `crepus native extension` writes to `project.yml`: the target
/// appended, unless a target of that name (`  <name>:`) is there already.
pub fn add_share_extension_target(project_yml: &str, name: &str, platform: ShareExtensionPlatform) -> (r: Option<String>)
    ensures
        contains(project_yml@, "  "@ + name@ + ":"@) ==> r is None,
        !contains(project_yml@, "  "@ + name@ + ":"@) ==> (r matches Some(t) && t@ == project_yml@
            + spec_share_extension_target(name@, spec_main_bundle_id(project_yml@), platform)),
{
    proof {
        reveal_strlit("  ");
        reveal_strlit(":");
    }
    let mut probe = to_owned_string("  ");
    push_str(&mut probe, name);
    push_str(&mut probe, ":");
    if contains_str(project_yml, probe.as_str()) {
        return None;
    }
    let id = main_bundle_id(project_yml);
    let target = share_extension_target(name, id.as_str(), platform);
    let mut out = to_owned_string(project_yml);
    push_str(&mut out, target.as_str());
    Some(out)
}

} // verus!
