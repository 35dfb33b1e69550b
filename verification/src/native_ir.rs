//! The argument surface and the path logic of `crepus native ir|sync|codegen`:
//! `KEY=VALUE` pairs, where View IR fixtures are written, where a template is
//! looked up, and what `codegen` needs before it can run. Paths are strings
//! with Unix path semantics.
use vstd::prelude::*;
use crate::text::{chars_of, push_char, push_str, string_from_range, to_owned_string};
use crate::num::{decimal, push_decimal};
use crate::mobile_actions::named_segments;

verus! {

/// Target toolkit of `crepus native codegen`.
#[derive(Clone, Copy, Debug, PartialEq, Eq, Structural)]
pub enum CodegenPlatform {
    SwiftUi,
    Compose,
}

impl CodegenPlatform {
    /// The spellings accepted on the command line for each platform.
    pub open spec fn spec_from_name(name: Seq<char>) -> Option<CodegenPlatform> {
        if name == "swiftui"@ || name == "swift"@ || name == "ios"@ {
            Some(CodegenPlatform::SwiftUi)
        } else if name == "compose"@ || name == "kotlin"@ || name == "android"@ {
            Some(CodegenPlatform::Compose)
        } else {
            None
        }
    }

    /// Reads a platform name (`swiftui`, `swift`, `ios`, `compose`, `kotlin`, `android`).
    pub fn from_name(name: &str) -> (r: Option<CodegenPlatform>)
        ensures
            r == Self::spec_from_name(name@),
    {
        proof {
            reveal_strlit("swiftui");
            reveal_strlit("swift");
            reveal_strlit("ios");
            reveal_strlit("compose");
            reveal_strlit("kotlin");
            reveal_strlit("android");
        }
        if crate::text::str_eq(name, "swiftui") || crate::text::str_eq(name, "swift")
            || crate::text::str_eq(name, "ios") {
            Some(CodegenPlatform::SwiftUi)
        } else if crate::text::str_eq(name, "compose") || crate::text::str_eq(name, "kotlin")
            || crate::text::str_eq(name, "android") {
            Some(CodegenPlatform::Compose)
        } else {
            None
        }
    }

    pub open spec fn spec_extension(self) -> Seq<char> {
        match self {
            CodegenPlatform::SwiftUi => "swift"@,
            CodegenPlatform::Compose => "kt"@,
        }
    }

    /// File extension of the generated source.
    pub fn extension(self) -> (r: &'static str)
        ensures
            r@ == self.spec_extension(),
    {
        proof {
            reveal_strlit("swift");
            reveal_strlit("kt");
        }
        match self {
            CodegenPlatform::SwiftUi => "swift",
            CodegenPlatform::Compose => "kt",
        }
    }
}

/// Arguments of `crepus native ir`.
#[derive(Clone, Debug, PartialEq, Eq)]
pub struct IrArgs {
    pub file: Option<String>,
    pub component: Option<String>,
    pub ctx: Option<String>,
    pub vars: Vec<String>,
    pub pretty: bool,
    pub stdin: bool,
    pub stdin_json: bool,
    pub base_dir: Option<String>,
}

/// Arguments of `crepus native sync`.
#[derive(Clone, Debug, PartialEq, Eq)]
pub struct SyncArgs {
    pub template: String,
    pub dir: String,
    pub out: Vec<String>,
    pub no_defaults: bool,
    pub component: Option<String>,
    pub ctx: Option<String>,
    pub vars: Vec<String>,
    pub pretty: bool,
}

/// Arguments of `crepus native codegen`.
#[derive(Clone, Debug, PartialEq, Eq)]
pub struct CodegenArgs {
    pub template: Option<String>,
    pub platform: Option<CodegenPlatform>,
    pub out: Option<String>,
    pub view_name: Option<String>,
    pub component: Option<String>,
    pub ctx: Option<String>,
    pub vars: Vec<String>,
}

// ── KEY=VALUE pairs ────────────────────────────────────────────────────────

/// Index of the first `c` in `s`, if any.
pub open spec fn first_index_of(s: Seq<char>, c: char) -> Option<int> {
    if exists|i: int| 0 <= i < s.len() && s[i] == c {
        let i = choose|i: int| 0 <= i < s.len() && s[i] == c && forall|j: int| 0 <= j < i ==> s[j] != c;
        Some(i)
    } else {
        None
    }
}

/// `str::split_once('=')`: the text before and after the first `=`.
pub open spec fn spec_split_kv(raw: Seq<char>) -> Option<(Seq<char>, Seq<char>)> {
    match first_index_of(raw, '=') {
        Some(i) => Some((raw.subrange(0, i), raw.subrange(i + 1, raw.len() as int))),
        None => None,
    }
}

proof fn lemma_first_index_of(s: Seq<char>, c: char, k: int)
    requires
        0 <= k < s.len(),
        s[k] == c,
        forall|j: int| 0 <= j < k ==> s[j] != c,
    ensures
        first_index_of(s, c) == Some(k),
{
    let i = choose|i: int| 0 <= i < s.len() && s[i] == c && forall|j: int| 0 <= j < i ==> s[j] != c;
    assert(0 <= i < s.len() && s[i] == c && forall|j: int| 0 <= j < i ==> s[j] != c);
    if i < k {
        assert(s[i] != c);
    } else if i > k {
        assert(s[k] != c);
    }
}

/// Splits one `KEY=VALUE` argument at its first `=`.
pub fn split_kv(raw: &str) -> (r: Option<(String, String)>)
    ensures
        match r {
            Some((k, v)) => spec_split_kv(raw@) == Some((k@, v@)),
            None => spec_split_kv(raw@) is None,
        },
{
    let cs = chars_of(raw);
    let mut i: usize = 0;
    while i < cs.len()
        invariant
            i <= cs@.len(),
            cs@ == raw@,
            forall|j: int| 0 <= j < i ==> cs@[j] != '=',
        decreases cs@.len() - i,
    {
        if cs[i] == '=' {
            proof {
                lemma_first_index_of(raw@, '=', i as int);
            }
            let k = string_from_range(&cs, 0, i);
            let v = string_from_range(&cs, i + 1, cs.len());
            return Some((k, v));
        }
        i = i + 1;
    }
    None
}

/// The message for a `--var` argument without `=`.
pub open spec fn spec_kv_error(raw: Seq<char>) -> Seq<char> {
    "--var expects key=value, got: "@ + raw
}

/// Parses every `--var KEY=VALUE` argument, in order. The first argument
/// without `=` makes the whole list fail with its message.
pub fn parse_kv_vars(vars: &Vec<String>) -> (r: Result<Vec<(String, String)>, String>)
    ensures
        match r {
            Ok(pairs) => {
                &&& pairs@.len() == vars@.len()
                &&& forall|i: int| 0 <= i < vars@.len()
                    ==> spec_split_kv(#[trigger] vars@[i]@) == Some((pairs@[i].0@, pairs@[i].1@))
            },
            Err(msg) => exists|i: int|
                0 <= i < vars@.len()
                && spec_split_kv(#[trigger] vars@[i]@) is None
                && (forall|j: int| 0 <= j < i ==> spec_split_kv(#[trigger] vars@[j]@) is Some)
                && msg@ == spec_kv_error(vars@[i]@),
        },
{
    let mut pairs: Vec<(String, String)> = Vec::new();
    let mut i: usize = 0;
    while i < vars.len()
        invariant
            i <= vars@.len(),
            pairs@.len() == i,
            forall|j: int| 0 <= j < i
                ==> spec_split_kv(#[trigger] vars@[j]@) == Some((pairs@[j].0@, pairs@[j].1@)),
        decreases vars@.len() - i,
    {
        match split_kv(vars[i].as_str()) {
            Some(kv) => {
                pairs.push(kv);
            },
            None => {
                let mut msg = to_owned_string("--var expects key=value, got: ");
                push_str(&mut msg, vars[i].as_str());
                assert(spec_split_kv(vars@[i as int]@) is None);
                return Err(msg);
            },
        }
        i = i + 1;
    }
    Ok(pairs)
}

// ── Unix paths as strings ──────────────────────────────────────────────────

/// A path is absolute when it starts at the root.
pub open spec fn is_absolute(p: Seq<char>) -> bool {
    p.len() > 0 && p[0] == '/'
}

/// `Path::join`: an absolute `p` replaces `base`; otherwise `p` is appended,
/// with a `/` between them unless `base` is empty or already ends in `/`.
pub open spec fn path_join(base: Seq<char>, p: Seq<char>) -> Seq<char> {
    if is_absolute(p) {
        p
    } else if base.len() == 0 || base[base.len() - 1] == '/' {
        base + p
    } else {
        base + seq!['/'] + p
    }
}

/// Joins `p` onto `base` as `Path::join` does.
pub fn join_path(base: &str, p: &str) -> (r: String)
    ensures
        r@ == path_join(base@, p@),
{
    let pc = chars_of(p);
    if pc.len() > 0 && pc[0] == '/' {
        return to_owned_string(p);
    }
    let bc = chars_of(base);
    let mut r = to_owned_string(base);
    if !(bc.len() == 0 || bc[bc.len() - 1] == '/') {
        push_char(&mut r, '/');
    }
    push_str(&mut r, p);
    r
}

/// Where `crepus native sync` writes the fixture by default, under `root`.
pub open spec fn spec_default_fixture_paths(root: Seq<char>) -> Seq<Seq<char>> {
    seq![
        path_join(root, "fixture.json"@),
        path_join(root, "ios/Sources/NativeShell/fixture.json"@),
        path_join(root, "NativeShell/Sources/NativeShell/fixture.json"@),
        path_join(root, "android/app/src/main/assets/fixture.json"@),
    ]
}

/// The default fixture locations of a native shell rooted at `root`.
pub fn default_fixture_output_paths(root: &str) -> (r: Vec<String>)
    ensures
        r@.len() == 4,
        forall|i: int| 0 <= i < 4 ==> #[trigger] r@[i]@ == spec_default_fixture_paths(root@)[i],
{
    let mut r: Vec<String> = Vec::new();
    r.push(join_path(root, "fixture.json"));
    r.push(join_path(root, "ios/Sources/NativeShell/fixture.json"));
    r.push(join_path(root, "NativeShell/Sources/NativeShell/fixture.json"));
    r.push(join_path(root, "android/app/src/main/assets/fixture.json"));
    r
}

/// Fixture paths given with `--out`: absolute ones as they are, relative ones
/// under `root`.
pub fn explicit_fixture_output_paths(root: &str, explicit: &Vec<String>) -> (r: Vec<String>)
    ensures
        r@.len() == explicit@.len(),
        forall|i: int| 0 <= i < explicit@.len() ==> #[trigger] r@[i]@ == path_join(root@, explicit@[i]@),
{
    let mut r: Vec<String> = Vec::new();
    let mut i: usize = 0;
    while i < explicit.len()
        invariant
            i <= explicit@.len(),
            r@.len() == i,
            forall|j: int| 0 <= j < i ==> #[trigger] r@[j]@ == path_join(root@, explicit@[j]@),
        decreases explicit@.len() - i,
    {
        r.push(join_path(root, explicit[i].as_str()));
        i = i + 1;
    }
    r
}

/// The components of a path as `Path::components` yields them on Unix: "/"
/// for a leading root, "." for a leading current-directory mark (the path
/// "." or one that begins with "./"), then each piece between separators
/// that is neither empty nor "." (repeated and trailing separators and
/// inner "." pieces are normalized away; ".." stays a component).
pub open spec fn unix_components(p: Seq<char>) -> Seq<Seq<char>> {
    if p.len() > 0 && p[0] == '/' {
        seq!["/"@] + named_segments(p)
    } else if p.len() > 0 && p[0] == '.' && (p.len() == 1 || p[1] == '/') {
        seq!["."@] + named_segments(p)
    } else {
        named_segments(p)
    }
}

/// Whether the components of `suffix` are the last components of `path`.
pub open spec fn path_components_end_with(path: Seq<char>, suffix: Seq<char>) -> bool {
    let a = unix_components(path);
    let b = unix_components(suffix);
    b.len() <= a.len() && a.skip(a.len() - b.len()) == b
}

/// `Path::ends_with`: whether `suffix` is a suffix of `path`, comparing
/// whole components as `Path::components` yields them (the Unix form of
/// those components is `unix_components`).
#[verifier::external_body]
fn path_ends_with(path: &str, suffix: &str) -> (r: bool)
    ensures
        r == path_components_end_with(path@, suffix@),
{
    std::path::Path::new(path).ends_with(suffix)
}

/// The generated-sources directory of the Android native shell.
pub open spec fn android_generated_suffix() -> Seq<char> {
    "android/app/src/main/java/dev/crepuscularity/nativeshell/generated"@
}

/// Whether `path` is the Android shell's generated-sources directory, into
/// which generated Kotlin needs a package line.
pub fn is_native_shell_android_generated_dir(path: &str) -> (r: bool)
    ensures
        r == path_components_end_with(path@, android_generated_suffix()),
{
    proof {
        reveal_strlit("android/app/src/main/java/dev/crepuscularity/nativeshell/generated");
    }
    path_ends_with(path, "android/app/src/main/java/dev/crepuscularity/nativeshell/generated")
}

/// `Path::exists`: asks the file system. Nothing is stated of the answer,
/// which depends on the disk at the time of the call.
#[verifier::external_body]
fn path_exists(path: &str) -> (r: bool) {
    std::path::Path::new(path).exists()
}

/// Where a template is looked up, given whether `root/template` exists:
/// an absolute template as it is; a relative one under `root` if it is
/// there, else as given (relative to the working directory).
pub open spec fn spec_template_path(root: Seq<char>, template: Seq<char>, rooted_exists: bool) -> Seq<char> {
    if is_absolute(template) {
        template
    } else if rooted_exists {
        path_join(root, template)
    } else {
        template
    }
}

/// The choice of `resolve_template_path` for a known answer to "does
/// `root/template` exist".
pub fn choose_template_path(root: &str, template: &str, rooted_exists: bool) -> (r: String)
    ensures
        r@ == spec_template_path(root@, template@, rooted_exists),
{
    let tc = chars_of(template);
    if tc.len() > 0 && tc[0] == '/' {
        return to_owned_string(template);
    }
    if rooted_exists {
        join_path(root, template)
    } else {
        to_owned_string(template)
    }
}

/// Resolves a template path against the scaffold root, looking on disk
/// whether `root/template` exists.
pub fn resolve_template_path(root: &str, template: &str) -> (r: String)
    ensures
        r@ == spec_template_path(root@, template@, true)
            || r@ == spec_template_path(root@, template@, false),
        is_absolute(template@) ==> r@ == template@,
{
    let rooted = join_path(root, template);
    let exists = path_exists(rooted.as_str());
    choose_template_path(root, template, exists)
}

// ── codegen ────────────────────────────────────────────────────────────────

/// What `crepus native codegen` has once its required arguments are there.
#[derive(Clone, Debug, PartialEq, Eq)]
pub struct CodegenPlan {
    pub template: String,
    pub platform: CodegenPlatform,
    pub out_dir: String,
    pub view_name: String,
    /// `out_dir/view_name.ext`
    pub output_file: String,
}

pub open spec fn codegen_usage() -> Seq<char> {
    "Usage: crepus native codegen <file.crepus> --platform swiftui|compose --out DIR --view-name NAME"@
}

/// The output file of `codegen`: `<out>/<view_name>.<ext>`.
pub open spec fn spec_codegen_output(out_dir: Seq<char>, view_name: Seq<char>, platform: CodegenPlatform) -> Seq<char> {
    path_join(out_dir, view_name + seq!['.'] + platform.spec_extension())
}

/// Checks the required arguments of `codegen` in the order the command does
/// (template, `--platform`, `--out`, `--view-name`) and computes the output file.
pub fn plan_codegen(args: &CodegenArgs) -> (r: Result<CodegenPlan, String>)
    ensures
        args.template is None ==> r is Err && r->Err_0@ == codegen_usage(),
        args.template is Some && args.platform is None
            ==> r is Err && r->Err_0@ == "--platform swiftui|compose is required"@,
        args.template is Some && args.platform is Some && args.out is None
            ==> r is Err && r->Err_0@ == "--out DIR is required"@,
        args.template is Some && args.platform is Some && args.out is Some && args.view_name is None
            ==> r is Err && r->Err_0@ == "--view-name NAME is required"@,
        r is Ok <==> (args.template is Some && args.platform is Some && args.out is Some
            && args.view_name is Some),
        r is Ok ==> {
            let p = r->Ok_0;
            &&& p.template@ == args.template->Some_0@
            &&& p.platform == args.platform->Some_0
            &&& p.out_dir@ == args.out->Some_0@
            &&& p.view_name@ == args.view_name->Some_0@
            &&& p.output_file@ == spec_codegen_output(p.out_dir@, p.view_name@, p.platform)
        },
{
    let template = match &args.template {
        Some(t) => t,
        None => {
            let m = to_owned_string(
                "Usage: crepus native codegen <file.crepus> --platform swiftui|compose --out DIR --view-name NAME",
            );
            proof {
                reveal_strlit(
                    "Usage: crepus native codegen <file.crepus> --platform swiftui|compose --out DIR --view-name NAME",
                );
            }
            return Err(m);
        },
    };
    let platform = match args.platform {
        Some(p) => p,
        None => {
            proof {
                reveal_strlit("--platform swiftui|compose is required");
            }
            return Err(to_owned_string("--platform swiftui|compose is required"));
        },
    };
    let out_dir = match &args.out {
        Some(o) => o,
        None => {
            proof {
                reveal_strlit("--out DIR is required");
            }
            return Err(to_owned_string("--out DIR is required"));
        },
    };
    let view_name = match &args.view_name {
        Some(v) => v,
        None => {
            proof {
                reveal_strlit("--view-name NAME is required");
            }
            return Err(to_owned_string("--view-name NAME is required"));
        },
    };
    let mut file = to_owned_string(view_name.as_str());
    push_char(&mut file, '.');
    push_str(&mut file, platform.extension());
    let output_file = join_path(out_dir.as_str(), file.as_str());
    Ok(CodegenPlan {
        template: to_owned_string(template.as_str()),
        platform,
        out_dir: to_owned_string(out_dir.as_str()),
        view_name: to_owned_string(view_name.as_str()),
        output_file,
    })
}

/// The largest template source, in bytes, that the native commands read.
pub const MAX_TEMPLATE_SIZE: usize = 10_000_000;

/// Refuses a template source of more than `MAX_TEMPLATE_SIZE` bytes.
pub fn check_template_size(len: usize) -> (r: Result<(), String>)
    ensures
        r is Ok <==> len <= MAX_TEMPLATE_SIZE,
        r matches Err(m) ==> m@ == "template too large ("@ + decimal(len as nat) + " bytes, max 10000000)"@,
{
    if len > MAX_TEMPLATE_SIZE {
        let mut m = to_owned_string("template too large (");
        push_decimal(&mut m, len as u64);
        push_str(&mut m, " bytes, max 10000000)");
        Err(m)
    } else {
        Ok(())
    }
}

/// `text` with a final newline added when it has none.
pub fn with_trailing_newline(text: String) -> (r: String)
    ensures
        (text@.len() > 0 && text@.last() == '\n') ==> r@ == text@,
        !(text@.len() > 0 && text@.last() == '\n') ==> r@ == text@.push('\n'),
{
    let cs = chars_of(text.as_str());
    if cs.len() > 0 && cs[cs.len() - 1] == '\n' {
        text
    } else {
        let mut t = text;
        push_char(&mut t, '\n');
        t
    }
}

} // verus!
