//! `crepus tauri convert`: the edits that carry a Tauri project's metadata
//! into a freshly scaffolded native shell, and the generated files' text.
use vstd::prelude::*;
use crate::text::{opt_view};
use crate::native_ir::{join_path, path_join};
use crate::text::{push_str, to_owned_string};

verus! {

/// What the conversion reads of a Tauri project's configuration.
pub struct TauriMetadata {
    pub product_name: Option<String>,
    pub window_title: Option<String>,
    pub identifier: Option<String>,
    pub version: Option<String>,
}

/// Replace every `from` in the file at `path` by `to`.
pub struct MetadataEdit {
    pub path: String,
    pub from: String,
    pub to: String,
}

/// The app name of the shell: the window title, else the product name, else
/// `NativeShell`.
pub open spec fn spec_product_name(window_title: Option<Seq<char>>, product_name: Option<Seq<char>>) -> Seq<char> {
    match window_title {
        Some(t) => t,
        None => match product_name {
            Some(p) => p,
            None => "NativeShell"@,
        },
    }
}

pub fn product_name(meta: &TauriMetadata) -> (r: String)
    ensures
        r@ == spec_product_name(opt_view(meta.window_title), opt_view(meta.product_name)),
{
    match &meta.window_title {
        Some(t) => to_owned_string(t.as_str()),
        None => match &meta.product_name {
            Some(p) => to_owned_string(p.as_str()),
            None => to_owned_string("NativeShell"),
        },
    }
}

/// An edit as plain text: path, text replaced, replacement.
pub open spec fn edit_view(e: MetadataEdit) -> (Seq<char>, Seq<char>, Seq<char>) {
    (e.path@, e.from@, e.to@)
}

/// The edits, in order: the app name in the Android manifest; with an
/// identifier, the Gradle `applicationId` and the iOS bundle identifier; with
/// a version, the Gradle `versionName`.
pub open spec fn spec_metadata_edits(
    root: Seq<char>,
    window_title: Option<Seq<char>>,
    product_name: Option<Seq<char>>,
    identifier: Option<Seq<char>>,
    version: Option<Seq<char>>,
) -> Seq<(Seq<char>, Seq<char>, Seq<char>)> {
    let name = seq![(
        path_join(root, "android/app/src/main/AndroidManifest.xml"@),
        "NativeShell"@,
        spec_product_name(window_title, product_name),
    )];
    let ids = match identifier {
        Some(id) => seq![
            (
                path_join(root, "android/app/build.gradle.kts"@),
                "applicationId = \"dev.crepuscularity.nativeshell\""@,
                "applicationId = \""@ + id + "\""@,
            ),
            (
                path_join(root, "ios/project.yml"@),
                "PRODUCT_BUNDLE_IDENTIFIER: dev.crepuscularity.mobile"@,
                "PRODUCT_BUNDLE_IDENTIFIER: "@ + id,
            ),
        ],
        None => Seq::empty(),
    };
    let ver = match version {
        Some(v) => seq![
            (
                path_join(root, "android/app/build.gradle.kts"@),
                "versionName = \"1.0\""@,
                "versionName = \""@ + v + "\""@,
            ),
        ],
        None => Seq::empty(),
    };
    name + ids + ver
}

fn edit(root: &str, rel: &str, from: &str, to: String) -> (r: MetadataEdit)
    ensures
        edit_view(r) == (path_join(root@, rel@), from@, to@),
{
    MetadataEdit { path: join_path(root, rel), from: to_owned_string(from), to }
}

/// The edits that carry the metadata into the shell scaffolded at `root`.
pub fn metadata_edits(root: &str, meta: &TauriMetadata) -> (r: Vec<MetadataEdit>)
    ensures
        r@.map_values(|e: MetadataEdit| edit_view(e)) == spec_metadata_edits(
            root@,
            opt_view(meta.window_title),
            opt_view(meta.product_name),
            opt_view(meta.identifier),
            opt_view(meta.version),
        ),
{
    proof {
        reveal_strlit("\"");
        reveal_strlit("applicationId = \"");
        reveal_strlit("PRODUCT_BUNDLE_IDENTIFIER: ");
        reveal_strlit("versionName = \"");
    }
    let ghost want = spec_metadata_edits(
        root@,
        opt_view(meta.window_title),
        opt_view(meta.product_name),
        opt_view(meta.identifier),
        opt_view(meta.version),
    );
    let mut r: Vec<MetadataEdit> = Vec::new();
    let name = product_name(meta);
    r.push(edit(root, "android/app/src/main/AndroidManifest.xml", "NativeShell", name));
    match &meta.identifier {
        Some(id) => {
            let mut a = to_owned_string("applicationId = \"");
            push_str(&mut a, id.as_str());
            push_str(&mut a, "\"");
            r.push(
                edit(
                    root,
                    "android/app/build.gradle.kts",
                    "applicationId = \"dev.crepuscularity.nativeshell\"",
                    a,
                ),
            );
            let mut b = to_owned_string("PRODUCT_BUNDLE_IDENTIFIER: ");
            push_str(&mut b, id.as_str());
            r.push(
                edit(root, "ios/project.yml", "PRODUCT_BUNDLE_IDENTIFIER: dev.crepuscularity.mobile", b),
            );
        },
        None => {},
    }
    match &meta.version {
        Some(v) => {
            let mut c = to_owned_string("versionName = \"");
            push_str(&mut c, v.as_str());
            push_str(&mut c, "\"");
            r.push(edit(root, "android/app/build.gradle.kts", "versionName = \"1.0\"", c));
        },
        None => {},
    }
    assert(r@.map_values(|e: MetadataEdit| edit_view(e)) =~= want);
    r
}

/// The entry view of the converted app includes the bundle's entry.
pub fn main_view_source(entry: &str) -> (r: String)
    ensures
        r@ == "include "@ + entry@ + "\n"@,
{
    let mut s = to_owned_string("include ");
    push_str(&mut s, entry);
    push_str(&mut s, "\n");
    s
}

/// The generated Compose view, placed in the shell's package.
pub fn kotlin_view_source(generated: &str) -> (r: String)
    ensures
        r@ == "package dev.crepuscularity.nativeshell\n\n"@ + generated@,
{
    let mut s = to_owned_string("package dev.crepuscularity.nativeshell\n\n");
    push_str(&mut s, generated);
    s
}

} // verus!
