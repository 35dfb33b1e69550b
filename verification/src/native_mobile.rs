//! `crepus mobile` on a native shell: which native commands a mobile command
//! stands for, the renaming of a fresh scaffold, and the replies of the
//! mobile dev server.
use vstd::prelude::*;
use crate::text::{sviews, opt_view, pair_views};
use crate::cli::{MobileCodegenPlatformArg, MobilePlatformArg, NativeBuildCommands, NativeCommands, NativeRunCommands};
use crate::native_build::IosBuildTarget;
use crate::native_ir::{
    join_path, path_join, CodegenArgs, CodegenPlatform, SyncArgs, spec_template_path,
    resolve_template_path, is_absolute,
};
use crate::num::{decimal, push_decimal};
use crate::text::{
    chars_of, push_char, push_str, split_char, split_by_char, str_eq, string_from_range,
    to_owned_string, lines, lines_of, replace_all, replace_str, char_to_uppercase, spec_char_upper,
    str_to_lowercase, spec_str_lower, push_seq, string_from_chars,
};
use crate::cli::MobileCommands;
use crate::naming::is_name_sep;
use crate::crepus_toml::{file_name_of, path_file_name};
use vstd::utf8::encode_utf8;

verus! {

/// The platforms a mobile command works on.
#[derive(Debug, Clone, Copy, PartialEq, Eq, Structural)]
pub enum MobilePlatform {
    Ios,
    Android,
    All,
}

/// The platform named on the command line.
pub fn mobile_platform(p: MobilePlatformArg) -> (r: MobilePlatform)
    ensures
        p == MobilePlatformArg::Ios ==> r == MobilePlatform::Ios,
        p == MobilePlatformArg::Android ==> r == MobilePlatform::Android,
        p == MobilePlatformArg::All ==> r == MobilePlatform::All,
{
    match p {
        MobilePlatformArg::Ios => MobilePlatform::Ios,
        MobilePlatformArg::Android => MobilePlatform::Android,
        MobilePlatformArg::All => MobilePlatform::All,
    }
}

// ── The dev server's replies ───────────────────────────────────────────────

/// An HTTP/1.1 reply that closes the connection, with the body's length in
/// bytes as its `Content-Length`.
pub open spec fn spec_http_response(status: Seq<char>, content_type: Seq<char>, body: Seq<char>) -> Seq<char> {
    "HTTP/1.1 "@ + status + "\r\nContent-Type: "@ + content_type + "\r\nCache-Control: no-store\r\nContent-Length: "@
        + decimal(encode_utf8(body).len()) + "\r\nConnection: close\r\n\r\n"@ + body
}

pub fn http_response(status: &str, content_type: &str, body: &str) -> (r: String)
    requires
        encode_utf8(body@).len() <= usize::MAX,
    ensures
        r@ == spec_http_response(status@, content_type@, body@),
{
    proof {
        reveal_strlit("HTTP/1.1 ");
        reveal_strlit("\r\nContent-Type: ");
        reveal_strlit("\r\nCache-Control: no-store\r\nContent-Length: ");
        reveal_strlit("\r\nConnection: close\r\n\r\n");
    }
    let n = body.len();
    let mut r = to_owned_string("HTTP/1.1 ");
    push_str(&mut r, status);
    push_str(&mut r, "\r\nContent-Type: ");
    push_str(&mut r, content_type);
    push_str(&mut r, "\r\nCache-Control: no-store\r\nContent-Length: ");
    push_decimal(&mut r, n as u64);
    push_str(&mut r, "\r\nConnection: close\r\n\r\n");
    push_str(&mut r, body);
    assert(r@ =~= spec_http_response(status@, content_type@, body@));
    r
}

/// The `/health` payload: `{"ok":true,"sequence":N}`.
pub open spec fn spec_health_payload(sequence: u64) -> Seq<char> {
    "{\"ok\":true,\"sequence\":"@ + decimal(sequence as nat) + "}"@
}

/// The `/events` body: one server-sent event carrying the latest envelope.
pub open spec fn spec_events_body(envelope_json: Seq<char>) -> Seq<char> {
    "event: crepus-mobile\ndata: "@ + envelope_json + "\n\n"@
}

/// The reply of the mobile dev server to a request for `path`, given the
/// current event sequence number, the latest View IR JSON and the latest
/// hot-reload envelope as JSON.
pub open spec fn spec_dev_response(path: Seq<char>, sequence: u64, ir_json: Seq<char>, envelope_json: Seq<char>) -> Seq<char> {
    if path == "/health"@ {
        spec_http_response("200 OK"@, "application/json"@, spec_health_payload(sequence))
    } else if path == "/ir"@ {
        spec_http_response("200 OK"@, "application/json"@, ir_json)
    } else if path == "/events"@ {
        spec_http_response("200 OK"@, "text/event-stream"@, spec_events_body(envelope_json))
    } else {
        spec_http_response("404 Not Found"@, "text/plain"@, "not found"@)
    }
}

pub fn mobile_dev_response(path: &str, sequence: u64, ir_json: &str, envelope_json: &str) -> (r: String)
    requires
        encode_utf8(ir_json@).len() <= usize::MAX,
        encode_utf8(spec_events_body(envelope_json@)).len() <= usize::MAX,
    ensures
        r@ == spec_dev_response(path@, sequence, ir_json@, envelope_json@),
{
    proof {
        reveal_strlit("{\"ok\":true,\"sequence\":");
        reveal_strlit("}");
        reveal_strlit("event: crepus-mobile\ndata: ");
        reveal_strlit("\n\n");
    }
    if str_eq(path, "/health") {
        let mut payload = to_owned_string("{\"ok\":true,\"sequence\":");
        push_decimal(&mut payload, sequence);
        push_str(&mut payload, "}");
        proof {
            crate::num::lemma_decimal_u64_len(sequence);
            crate::text::lemma_encode_len_bound(payload@);
        }
        http_response("200 OK", "application/json", payload.as_str())
    } else if str_eq(path, "/ir") {
        http_response("200 OK", "application/json", ir_json)
    } else if str_eq(path, "/events") {
        let mut body = to_owned_string("event: crepus-mobile\ndata: ");
        push_str(&mut body, envelope_json);
        push_str(&mut body, "\n\n");
        http_response("200 OK", "text/event-stream", body.as_str())
    } else {
        proof {
            reveal_strlit("not found");
            crate::text::lemma_encode_len_bound("not found"@);
        }
        http_response("404 Not Found", "text/plain", "not found")
    }
}

// ── Native commands of the mobile commands ─────────────────────────────────

/// The native builds of `crepus mobile build` for a platform: iOS, Android,
/// or both in that order, with the directory, iOS target, configuration and
/// flavor given.
pub open spec fn mobile_builds_ok(
    platform: MobilePlatform,
    dir: Option<String>,
    target: IosBuildTarget,
    configuration: String,
    flavor: String,
    r: Seq<NativeCommands>,
) -> bool {
    &&& platform == MobilePlatform::Ios ==> r == seq![
        NativeCommands::Build { platform: NativeBuildCommands::Ios { dir, target, configuration } },
    ]
    &&& platform == MobilePlatform::Android ==> r == seq![
        NativeCommands::Build { platform: NativeBuildCommands::Android { dir, flavor } },
    ]
    &&& platform == MobilePlatform::All ==> r.len() == 2
        && (r[0] matches NativeCommands::Build { platform: NativeBuildCommands::Ios { dir: d, target: t, configuration: c } }
        && opt_view(d) == opt_view(dir) && t == target && c@ == configuration@)
        && (r[1] matches NativeCommands::Build { platform: NativeBuildCommands::Android { dir: d, flavor: f } }
        && opt_view(d) == opt_view(dir) && f@ == flavor@)
}

/// The build commands of `crepus mobile build`: iOS, Android, or both in
/// that order.
pub fn run_mobile_build(
    platform: MobilePlatform,
    dir: Option<String>,
    target: IosBuildTarget,
    configuration: String,
    flavor: String,
) -> (r: Vec<NativeCommands>)
    ensures
        mobile_builds_ok(platform, dir, target, configuration, flavor, r@),
{
    let mut r: Vec<NativeCommands> = Vec::new();
    match platform {
        MobilePlatform::Ios => {
            r.push(NativeCommands::Build { platform: NativeBuildCommands::Ios { dir, target, configuration } });
        },
        MobilePlatform::Android => {
            r.push(NativeCommands::Build { platform: NativeBuildCommands::Android { dir, flavor } });
        },
        MobilePlatform::All => {
            let d2 = copy_opt(&dir);
            r.push(NativeCommands::Build {
                platform: NativeBuildCommands::Ios {
                    dir,
                    target,
                    configuration: to_owned_string(configuration.as_str()),
                },
            });
            r.push(NativeCommands::Build { platform: NativeBuildCommands::Android { dir: d2, flavor } });
        },
    }
    r
}

/// A copy of an optional string.
pub fn copy_opt(o: &Option<String>) -> (r: Option<String>)
    ensures
        opt_view(r) == opt_view(*o),
{
    match o {
        Some(s) => Some(to_owned_string(s.as_str())),
        None => None,
    }
}

/// The run command of `crepus mobile run`, which runs one platform.
pub fn run_mobile_run(platform: MobilePlatform, dir: Option<String>, flavor: String) -> (r: Result<NativeCommands, String>)
    ensures
        platform == MobilePlatform::Ios ==> r == Ok::<NativeCommands, String>(
            NativeCommands::Run { platform: NativeRunCommands::Ios { dir } },
        ),
        platform == MobilePlatform::Android ==> r == Ok::<NativeCommands, String>(
            NativeCommands::Run { platform: NativeRunCommands::Android { dir, flavor } },
        ),
        platform == MobilePlatform::All ==> (r matches Err(m) && m@ == "crepus mobile run expects --platform ios or android"@),
{
    match platform {
        MobilePlatform::Ios => Ok(NativeCommands::Run { platform: NativeRunCommands::Ios { dir } }),
        MobilePlatform::Android => Ok(NativeCommands::Run { platform: NativeRunCommands::Android { dir, flavor } }),
        MobilePlatform::All => Err(to_owned_string("crepus mobile run expects --platform ios or android")),
    }
}

// ── Mobile arguments ───────────────────────────────────────────────────────

/// The platform names accepted by mobile commands.
pub open spec fn spec_platform_value(raw: Seq<char>) -> Option<MobilePlatform> {
    if raw == "ios"@ || raw == "swift"@ || raw == "swiftui"@ {
        Some(MobilePlatform::Ios)
    } else if raw == "android"@ || raw == "compose"@ || raw == "kotlin"@ {
        Some(MobilePlatform::Android)
    } else if raw == "all"@ {
        Some(MobilePlatform::All)
    } else {
        None
    }
}

/// Reads a platform name, or says which name is unknown.
pub fn parse_platform_value(raw: &str) -> (r: Result<MobilePlatform, String>)
    ensures
        match (r, spec_platform_value(raw@)) {
            (Ok(p), Some(q)) => p == q,
            (Err(m), None) => m@ == "unknown mobile platform: "@ + raw@,
            _ => false,
        },
{
    if str_eq(raw, "ios") || str_eq(raw, "swift") || str_eq(raw, "swiftui") {
        Ok(MobilePlatform::Ios)
    } else if str_eq(raw, "android") || str_eq(raw, "compose") || str_eq(raw, "kotlin") {
        Ok(MobilePlatform::Android)
    } else if str_eq(raw, "all") {
        Ok(MobilePlatform::All)
    } else {
        proof {
            reveal_strlit("unknown mobile platform: ");
        }
        let mut m = to_owned_string("unknown mobile platform: ");
        push_str(&mut m, raw);
        Err(m)
    }
}

/// The value of a `--flag value` pair: the argument after the first `flag`
/// that has one.
pub open spec fn pair_value(args: Seq<Seq<char>>, flag: Seq<char>) -> Option<Seq<char>> {
    if exists|i: int| 0 <= i < args.len() - 1 && args[i] == flag {
        let i = choose|i: int| 0 <= i < args.len() - 1 && args[i] == flag && forall|j: int|
            0 <= j < i ==> args[j] != flag;
        Some(args[i + 1])
    } else {
        None
    }
}

/// The value of the first `--flag=value` argument.
pub open spec fn eq_value(args: Seq<Seq<char>>, prefix: Seq<char>) -> Option<Seq<char>> {
    if exists|i: int| 0 <= i < args.len() && crate::text::starts_with(args[i], prefix) {
        let i = choose|i: int| 0 <= i < args.len() && crate::text::starts_with(args[i], prefix) && forall|j: int|
            0 <= j < i ==> !crate::text::starts_with(args[j], prefix);
        Some(args[i].skip(prefix.len() as int))
    } else {
        None
    }
}

/// A flag's value: from a `--flag value` pair first, then from `--flag=value`.
pub open spec fn spec_flag_value(args: Seq<Seq<char>>, flag: Seq<char>) -> Option<Seq<char>> {
    match pair_value(args, flag) {
        Some(v) => Some(v),
        None => eq_value(args, flag + "="@),
    }
}

proof fn lemma_pair_value(args: Seq<Seq<char>>, flag: Seq<char>, i: int)
    requires
        0 <= i < args.len() - 1,
        args[i] == flag,
        forall|j: int| 0 <= j < i ==> args[j] != flag,
    ensures
        pair_value(args, flag) == Some(args[i + 1]),
{
    let k = choose|k: int| 0 <= k < args.len() - 1 && args[k] == flag && forall|j: int| 0 <= j < k ==> args[j] != flag;
    assert(0 <= k < args.len() - 1 && args[k] == flag && forall|j: int| 0 <= j < k ==> args[j] != flag);
    if k < i {
        assert(args[k] != flag);
    } else if k > i {
        assert(args[i] != flag);
    }
}

proof fn lemma_eq_value(args: Seq<Seq<char>>, prefix: Seq<char>, i: int)
    requires
        0 <= i < args.len(),
        crate::text::starts_with(args[i], prefix),
        forall|j: int| 0 <= j < i ==> !crate::text::starts_with(args[j], prefix),
    ensures
        eq_value(args, prefix) == Some(args[i].skip(prefix.len() as int)),
{
    let k = choose|k: int| 0 <= k < args.len() && crate::text::starts_with(args[k], prefix) && forall|j: int|
        0 <= j < k ==> !crate::text::starts_with(args[j], prefix);
    assert(0 <= k < args.len() && crate::text::starts_with(args[k], prefix));
    if k < i {
        assert(!crate::text::starts_with(args[k], prefix));
    } else if k > i {
        assert(!crate::text::starts_with(args[i], prefix));
    }
}

/// The value of `flag` among `args`, given as `flag value` (first) or as
/// `flag=value`.
pub fn flag_value(args: &Vec<String>, flag: &str) -> (r: Option<String>)
    ensures
        opt_view(r) == spec_flag_value(sviews(args@), flag@),
{
    let ghost a = sviews(args@);
    let mut i: usize = 0;
    while i < args.len() && i + 1 < args.len()
        invariant
            a == sviews(args@),
            i <= args@.len(),
            forall|j: int| 0 <= j < i ==> a[j] != flag@,
        decreases args@.len() - i,
    {
        if str_eq(args[i].as_str(), flag) {
            proof {
                lemma_pair_value(a, flag@, i as int);
            }
            return Some(to_owned_string(args[i + 1].as_str()));
        }
        i = i + 1;
    }
    proof {
        assert(!(exists|k: int| 0 <= k < a.len() - 1 && a[k] == flag@));
        assert(pair_value(a, flag@) is None);
    }
    let mut prefix = to_owned_string(flag);
    push_str(&mut prefix, "=");
    proof {
        reveal_strlit("=");
    }
    let mut k: usize = 0;
    while k < args.len()
        invariant
            a == sviews(args@),
            k <= args@.len(),
            prefix@ == flag@ + "="@,
            pair_value(a, flag@) is None,
            forall|j: int| 0 <= j < k ==> !crate::text::starts_with(a[j], prefix@),
        decreases args@.len() - k,
    {
        if crate::text::starts_with_str(args[k].as_str(), prefix.as_str()) {
            proof {
                lemma_eq_value(a, prefix@, k as int);
            }
            let cs = chars_of(args[k].as_str());
            let v = string_from_range(&cs, prefix.unicode_len(), cs.len());
            assert(v@ =~= a[k as int].skip(prefix@.len() as int));
            return Some(v);
        }
        k = k + 1;
    }
    None
}

/// The `--dir` of a mobile command, `.` when absent.
pub fn parse_dir_arg(args: &Vec<String>) -> (r: String)
    ensures
        r@ == match spec_flag_value(sviews(args@), "--dir"@) {
            Some(d) => d,
            None => "."@,
        },
{
    match flag_value(args, "--dir") {
        Some(d) => d,
        None => to_owned_string("."),
    }
}

/// The `--platform` of a mobile command, when given and known.
pub fn parse_platform_arg(args: &Vec<String>) -> (r: Option<MobilePlatform>)
    ensures
        r == match spec_flag_value(sviews(args@), "--platform"@) {
            Some(v) => spec_platform_value(v),
            None => None,
        },
{
    match flag_value(args, "--platform") {
        Some(v) => match parse_platform_value(v.as_str()) {
            Ok(p) => Some(p),
            Err(_) => None,
        },
        None => None,
    }
}

/// The arguments without the mobile-only `--platform` flag (and its value,
/// when given apart).
pub open spec fn spec_strip_mobile(args: Seq<Seq<char>>) -> Seq<Seq<char>>
    decreases args.len(),
{
    if args.len() == 0 {
        Seq::empty()
    } else if args[0] == "--platform"@ {
        if args.len() >= 2 {
            spec_strip_mobile(args.skip(2))
        } else {
            Seq::empty()
        }
    } else if crate::text::starts_with(args[0], "--platform="@) {
        spec_strip_mobile(args.skip(1))
    } else {
        seq![args[0]] + spec_strip_mobile(args.skip(1))
    }
}

pub fn strip_mobile_only_args(args: &Vec<String>) -> (r: Vec<String>)
    ensures
        sviews(r@) == spec_strip_mobile(sviews(args@)),
{
    let ghost a = sviews(args@);
    let mut out: Vec<String> = Vec::new();
    let mut i: usize = 0;
    assert(a.skip(0) =~= a);
    while i < args.len()
        invariant
            a == sviews(args@),
            i <= args@.len(),
            sviews(out@) + spec_strip_mobile(a.skip(i as int)) == spec_strip_mobile(a),
        decreases args@.len() - i,
    {
        let ghost rest = a.skip(i as int);
        assert(rest[0] == args@[i as int]@);
        if str_eq(args[i].as_str(), "--platform") {
            if i + 1 < args.len() {
                assert(rest.skip(2) =~= a.skip(i + 2));
                i = i + 2;
            } else {
                assert(a.skip(args@.len() as int) =~= Seq::<Seq<char>>::empty());
                assert(spec_strip_mobile(rest) == Seq::<Seq<char>>::empty());
                i = args.len();
            }
        } else if crate::text::starts_with_str(args[i].as_str(), "--platform=") {
            assert(rest.skip(1) =~= a.skip(i + 1));
            i = i + 1;
        } else {
            let ghost before = sviews(out@);
            out.push(to_owned_string(args[i].as_str()));
            assert(rest.skip(1) =~= a.skip(i + 1));
            assert(sviews(out@) =~= before.push(a[i as int]));
            assert(sviews(out@) + spec_strip_mobile(a.skip(i + 1)) =~= before + spec_strip_mobile(rest));
            i = i + 1;
        }
    }
    assert(a.skip(i as int) =~= Seq::<Seq<char>>::empty());
    assert(sviews(out@) =~= sviews(out@) + spec_strip_mobile(a.skip(i as int)));
    out
}

/// `crepus mobile build` and `run` refuse `--release`; this is the message.
pub fn reject_mobile_release_flag(args: &Vec<String>) -> (r: Result<(), String>)
    ensures
        r is Ok <==> !sviews(args@).contains("--release"@),
        r matches Err(m) ==> m@ == "crepus mobile build does not use --release; use --configuration Release for iOS or --flavor Release for Android"@,
{
    let ghost a = sviews(args@);
    let mut i: usize = 0;
    while i < args.len()
        invariant
            a == sviews(args@),
            i <= args@.len(),
            forall|j: int| 0 <= j < i ==> a[j] != "--release"@,
        decreases args@.len() - i,
    {
        if str_eq(args[i].as_str(), "--release") {
            assert(a[i as int] == "--release"@);
            return Err(to_owned_string(
                "crepus mobile build does not use --release; use --configuration Release for iOS or --flavor Release for Android",
            ));
        }
        i = i + 1;
    }
    Ok(())
}

/// The `--platform` arguments that name a platform.
pub fn platform_to_cli_args(platform: MobilePlatform) -> (r: Vec<String>)
    ensures
        sviews(r@) == seq!["--platform"@, match platform {
            MobilePlatform::Ios => "ios"@,
            MobilePlatform::Android => "android"@,
            MobilePlatform::All => "all"@,
        }],
{
    let mut r: Vec<String> = Vec::new();
    r.push(to_owned_string("--platform"));
    r.push(to_owned_string(match platform {
        MobilePlatform::Ios => "ios",
        MobilePlatform::Android => "android",
        MobilePlatform::All => "all",
    }));
    assert(sviews(r@) =~= seq!["--platform"@, match platform {
        MobilePlatform::Ios => "ios"@,
        MobilePlatform::Android => "android"@,
        MobilePlatform::All => "all"@,
    }]);
    r
}

// ── Code generation for both shells ────────────────────────────────────────

/// One `crepus native codegen` run, and the generated Kotlin file that then
/// needs a package line, for Compose.
#[derive(Debug, Clone, PartialEq, Eq)]
pub struct CodegenJob {
    pub args: CodegenArgs,
    pub kotlin_file: Option<String>,
}

pub open spec fn ios_generated_dir(dir: Seq<char>) -> Seq<char> {
    path_join(dir, "ios/Sources/NativeShell/Generated"@)
}

pub open spec fn android_generated_dir(dir: Seq<char>) -> Seq<char> {
    path_join(dir, "android/app/src/main/java/dev/crepuscularity/nativeshell/generated"@)
}

/// The view name used when none is given.
pub open spec fn default_view_name() -> Seq<char> {
    "CrepusGeneratedView"@
}

/// A codegen job for `platform` from `template` into `out_dir`.
pub open spec fn job_is(
    job: CodegenJob,
    template: Seq<char>,
    platform: CodegenPlatform,
    out_dir: Seq<char>,
    view: Seq<char>,
    vars: Seq<Seq<char>>,
) -> bool {
    &&& opt_view(job.args.template) == Some(template)
    &&& job.args.platform == Some(platform)
    &&& opt_view(job.args.out) == Some(out_dir)
    &&& opt_view(job.args.view_name) == Some(view)
    &&& job.args.component is None
    &&& job.args.ctx is None
    &&& sviews(job.args.vars@) == vars
    &&& platform == CodegenPlatform::Compose ==> opt_view(job.kotlin_file) == Some(
        path_join(out_dir, view + ".kt"@),
    )
    &&& platform == CodegenPlatform::SwiftUi ==> job.kotlin_file is None
}

/// A copy of a list of strings.
pub fn copy_strings(v: &Vec<String>) -> (r: Vec<String>)
    ensures
        sviews(r@) == sviews(v@),
{
    let mut r: Vec<String> = Vec::new();
    let mut i: usize = 0;
    while i < v.len()
        invariant
            i <= v@.len(),
            sviews(r@) == sviews(v@).take(i as int),
        decreases v@.len() - i,
    {
        let ghost before = sviews(r@);
        let x = to_owned_string(v[i].as_str());
        r.push(x);
        assert(sviews(r@) =~= before.push(v@[i as int]@));
        assert(sviews(v@).take(i + 1) =~= sviews(v@).take(i as int).push(v@[i as int]@));
        i = i + 1;
    }
    assert(sviews(v@).take(v@.len() as int) =~= sviews(v@));
    r
}

fn codegen_job(template: &str, platform: CodegenPlatform, out_dir: &str, view: &str, vars: &Vec<String>) -> (r: CodegenJob)
    ensures
        job_is(r, template@, platform, out_dir@, view@, sviews(vars@)),
{
    proof {
        reveal_strlit(".kt");
    }
    let kotlin_file = match platform {
        CodegenPlatform::Compose => {
            let mut f = to_owned_string(view);
            push_str(&mut f, ".kt");
            Some(join_path(out_dir, f.as_str()))
        },
        CodegenPlatform::SwiftUi => None,
    };
    CodegenJob {
        args: CodegenArgs {
            template: Some(to_owned_string(template)),
            platform: Some(platform),
            out: Some(to_owned_string(out_dir)),
            view_name: Some(to_owned_string(view)),
            component: None,
            ctx: None,
            vars: copy_strings(vars),
        },
        kotlin_file,
    }
}

/// Where a template resolves to under `dir` (depending on whether
/// `dir/template` exists).
pub open spec fn resolves_to(dir: Seq<char>, template: Seq<char>, path: Seq<char>) -> bool {
    path == spec_template_path(dir, template, true) || path == spec_template_path(dir, template, false)
}

/// The codegen jobs of a template `t` under `dir` (see `run_codegen_full`):
/// SwiftUI then Compose into the generated directories of the shells, or
/// the one platform asked for, into `out` when given; each job reads the
/// template as it resolves under `dir`.
pub open spec fn codegen_jobs_ok(
    dir: Seq<char>,
    t: Seq<char>,
    platform: Option<MobileCodegenPlatformArg>,
    out: Option<Seq<char>>,
    view: Seq<char>,
    vars: Seq<Seq<char>>,
    jobs: Seq<CodegenJob>,
) -> bool {
    let tp = opt_view(jobs[0].args.template)->Some_0;
    &&& resolves_to(dir, t, tp)
    &&& platform is None ==> jobs.len() == 2 && job_is(jobs[0], tp, CodegenPlatform::SwiftUi, ios_generated_dir(dir), view, vars)
        && job_is(jobs[1], tp, CodegenPlatform::Compose, android_generated_dir(dir), view, vars)
    &&& platform == Some(MobileCodegenPlatformArg::Ios) ==> jobs.len() == 1 && job_is(jobs[0], tp, CodegenPlatform::SwiftUi, match out {
        Some(o) => o,
        None => ios_generated_dir(dir),
    }, view, vars)
    &&& platform == Some(MobileCodegenPlatformArg::Android) ==> jobs.len() == 1 && job_is(jobs[0], tp, CodegenPlatform::Compose, match out {
        Some(o) => o,
        None => android_generated_dir(dir),
    }, view, vars)
}

/// The codegen runs of `crepus mobile codegen`: SwiftUI then Compose, or the
/// one platform asked for; `--out` applies only when one platform runs.
pub fn run_codegen_full(
    template: Option<String>,
    dir: &str,
    platform: Option<MobileCodegenPlatformArg>,
    out: Option<String>,
    view_name: Option<String>,
    vars: &Vec<String>,
) -> (r: Result<Vec<CodegenJob>, String>)
    ensures
        template is None ==> (r matches Err(m) && m@ == "expected template path"@),
        template matches Some(t) ==> (r matches Ok(jobs) && codegen_jobs_ok(
            dir@,
            t@,
            platform,
            opt_view(out),
            match opt_view(view_name) {
                Some(v) => v,
                None => default_view_name(),
            },
            sviews(vars@),
            jobs@,
        )),
{
    let t = match template {
        Some(t) => t,
        None => {
            return Err(to_owned_string("expected template path"));
        },
    };
    let view = match view_name {
        Some(v) => v,
        None => to_owned_string("CrepusGeneratedView"),
    };
    let tp = resolve_template_path(dir, t.as_str());
    let ios_dir = join_path(dir, "ios/Sources/NativeShell/Generated");
    let android_dir = join_path(dir, "android/app/src/main/java/dev/crepuscularity/nativeshell/generated");
    let mut jobs: Vec<CodegenJob> = Vec::new();
    match platform {
        None => {
            jobs.push(codegen_job(tp.as_str(), CodegenPlatform::SwiftUi, ios_dir.as_str(), view.as_str(), vars));
            jobs.push(codegen_job(tp.as_str(), CodegenPlatform::Compose, android_dir.as_str(), view.as_str(), vars));
        },
        Some(MobileCodegenPlatformArg::Ios) => {
            let o = match out {
                Some(o) => o,
                None => ios_dir,
            };
            jobs.push(codegen_job(tp.as_str(), CodegenPlatform::SwiftUi, o.as_str(), view.as_str(), vars));
        },
        Some(MobileCodegenPlatformArg::Android) => {
            let o = match out {
                Some(o) => o,
                None => android_dir,
            };
            jobs.push(codegen_job(tp.as_str(), CodegenPlatform::Compose, o.as_str(), view.as_str(), vars));
        },
    }
    Ok(jobs)
}

/// `Path::strip_prefix`: the path relative to `base` when `base` is a
/// leading run of its components.
pub uninterp spec fn path_relative_to(path: Seq<char>, base: Seq<char>) -> Option<Seq<char>>;

/// `Path::strip_prefix` on two paths; the result is named
/// `path_relative_to` and depends on the two paths alone.
#[verifier::external_body]
fn strip_path_prefix(path: &str, base: &str) -> (r: Option<String>)
    ensures
        opt_view(r) == path_relative_to(path@, base@),
{
    std::path::Path::new(path).strip_prefix(base).ok().map(|p| p.to_string_lossy().into_owned())
}

/// What keeps the native shells in step with a changed template: a sync of
/// the View IR fixture (with the template relative to the root when it lies
/// under it), then codegen for the platform's shells.
#[derive(Debug, Clone, PartialEq, Eq)]
pub struct SyncPlan {
    pub sync: SyncArgs,
    pub codegen: Vec<CodegenJob>,
}

pub fn sync_outputs(root: &str, template_path: &str, platform: MobilePlatform) -> (r: SyncPlan)
    ensures
        r.sync.template@ == match path_relative_to(template_path@, root@) {
            Some(rel) => rel,
            None => template_path@,
        },
        r.sync.dir@ == root@,
        r.sync.out@.len() == 0,
        !r.sync.no_defaults && r.sync.component is None && r.sync.ctx is None,
        r.sync.vars@.len() == 0 && r.sync.pretty,
        platform == MobilePlatform::Ios ==> r.codegen@.len() == 1
            && job_is(r.codegen@[0], template_path@, CodegenPlatform::SwiftUi, ios_generated_dir(root@), default_view_name(), seq![]),
        platform == MobilePlatform::Android ==> r.codegen@.len() == 1
            && job_is(r.codegen@[0], template_path@, CodegenPlatform::Compose, android_generated_dir(root@), default_view_name(), seq![]),
        platform == MobilePlatform::All ==> r.codegen@.len() == 2
            && job_is(r.codegen@[0], template_path@, CodegenPlatform::SwiftUi, ios_generated_dir(root@), default_view_name(), seq![])
            && job_is(r.codegen@[1], template_path@, CodegenPlatform::Compose, android_generated_dir(root@), default_view_name(), seq![]),
{
    let rel = match strip_path_prefix(template_path, root) {
        Some(rel) => rel,
        None => to_owned_string(template_path),
    };
    let sync = SyncArgs {
        template: rel,
        dir: to_owned_string(root),
        out: Vec::new(),
        no_defaults: false,
        component: None,
        ctx: None,
        vars: Vec::new(),
        pretty: true,
    };
    let no_vars: Vec<String> = Vec::new();
    assert(sviews(no_vars@) =~= Seq::<Seq<char>>::empty());
    let mut codegen: Vec<CodegenJob> = Vec::new();
    if platform == MobilePlatform::Ios || platform == MobilePlatform::All {
        let out = join_path(root, "ios/Sources/NativeShell/Generated");
        codegen.push(codegen_job(template_path, CodegenPlatform::SwiftUi, out.as_str(), "CrepusGeneratedView", &no_vars));
    }
    if platform == MobilePlatform::Android || platform == MobilePlatform::All {
        let out = join_path(root, "android/app/src/main/java/dev/crepuscularity/nativeshell/generated");
        codegen.push(codegen_job(template_path, CodegenPlatform::Compose, out.as_str(), "CrepusGeneratedView", &no_vars));
    }
    SyncPlan { sync, codegen }
}

// ── A new mobile app ───────────────────────────────────────────────────────

/// A word with its first character uppercased and the rest lowercased.
pub open spec fn title_word(w: Seq<char>) -> Seq<char> {
    if w.len() == 0 {
        Seq::empty()
    } else {
        spec_char_upper(w[0]) + spec_str_lower(w.drop_first())
    }
}

/// The title-cased words of `s` (split at `-`, `_` and space) run
/// together, continuing a word that so far holds `word`.
pub open spec fn pascal_words_from(s: Seq<char>, word: Seq<char>) -> Seq<char>
    decreases s.len(),
{
    if s.len() == 0 {
        title_word(word)
    } else if is_name_sep(s[0]) {
        title_word(word) + pascal_words_from(s.drop_first(), Seq::empty())
    } else {
        pascal_words_from(s.drop_first(), word.push(s[0]))
    }
}

/// The PascalCase name of a mobile app: each word title-cased.
pub open spec fn spec_app_pascal(name: Seq<char>) -> Seq<char> {
    pascal_words_from(name, Seq::empty())
}

/// The snake-case name of a mobile app: `-` and spaces become `_`.
pub open spec fn snake_char(c: char) -> char {
    if c == '-' || c == ' ' {
        '_'
    } else {
        c
    }
}

pub open spec fn spec_app_snake(name: Seq<char>) -> Seq<char> {
    name.map_values(|c: char| snake_char(c))
}

fn push_title_word(out: &mut String, word: &Vec<char>)
    ensures
        final(out)@ == old(out)@ + title_word(word@),
{
    if word.len() == 0 {
        assert(final(out)@ =~= old(out)@ + title_word(word@));
        return;
    }
    let up = char_to_uppercase(word[0]);
    push_seq(out, &up);
    let mut rest: Vec<char> = Vec::new();
    let mut i: usize = 1;
    while i < word.len()
        invariant
            1 <= i <= word@.len(),
            rest@ == word@.subrange(1, i as int),
        decreases word@.len() - i,
    {
        rest.push(word[i]);
        i = i + 1;
        assert(rest@ =~= word@.subrange(1, i as int));
    }
    assert(rest@ =~= word@.drop_first());
    let rs = string_from_chars(&rest);
    let low = str_to_lowercase(rs.as_str());
    push_str(out, low.as_str());
    assert(final(out)@ =~= old(out)@ + title_word(word@));
}

/// The PascalCase name of a mobile app.
pub fn app_pascal_name(name: &str) -> (r: String)
    ensures
        r@ == spec_app_pascal(name@),
{
    let cs = chars_of(name);
    let mut out = String::new();
    let mut word: Vec<char> = Vec::new();
    let mut i: usize = 0;
    assert(cs@.skip(0) =~= cs@);
    while i < cs.len()
        invariant
            i <= cs@.len(),
            cs@ == name@,
            out@ + pascal_words_from(cs@.skip(i as int), word@) == spec_app_pascal(name@),
        decreases cs@.len() - i,
    {
        let c = cs[i];
        let ghost rest = cs@.skip(i as int);
        assert(rest.drop_first() =~= cs@.skip(i + 1));
        assert(rest[0] == c);
        if c == '-' || c == '_' || c == ' ' {
            let ghost o = out@;
            let ghost w = word@;
            push_title_word(&mut out, &word);
            word = Vec::new();
            assert(word@ =~= Seq::<char>::empty());
            assert(out@ + pascal_words_from(cs@.skip(i + 1), word@) =~= o + pascal_words_from(rest, w));
        } else {
            let ghost w = word@;
            word.push(c);
            assert(word@ == w.push(c));
        }
        i = i + 1;
    }
    assert(cs@.skip(i as int) =~= Seq::<char>::empty());
    let ghost o = out@;
    push_title_word(&mut out, &word);
    out
}

/// The snake-case name of a mobile app.
pub fn app_snake_name(name: &str) -> (r: String)
    ensures
        r@ == spec_app_snake(name@),
{
    let cs = chars_of(name);
    let mut out = String::new();
    let mut i: usize = 0;
    while i < cs.len()
        invariant
            i <= cs@.len(),
            cs@ == name@,
            out@ == spec_app_snake(cs@.take(i as int)),
        decreases cs@.len() - i,
    {
        let c = cs[i];
        let d = if c == '-' || c == ' ' { '_' } else { c };
        push_char(&mut out, d);
        assert(cs@.take(i + 1) =~= cs@.take(i as int).push(c));
        assert(out@ =~= spec_app_snake(cs@.take(i + 1)));
        i = i + 1;
    }
    assert(cs@.take(cs@.len() as int) =~= cs@);
    out
}

/// How a fresh native scaffold becomes an app of its own name: the generic
/// names replaced in its files, and its iOS app file and Android package
/// directory renamed.
#[derive(Debug, Clone, PartialEq, Eq)]
pub struct AppRenames {
    pub snake: String,
    pub pascal: String,
    /// Pairs of (generic name, app name), applied in order.
    pub replacements: Vec<(String, String)>,
}

/// The replacements of a mobile app's scaffold.
pub open spec fn spec_replacements(snake: Seq<char>, pascal: Seq<char>) -> Seq<(Seq<char>, Seq<char>)> {
    seq![
        ("crepus_mobile_actions"@, snake + "_actions"@),
        ("dev.crepuscularity.nativeshell"@, "dev.crepuscularity."@ + snake),
        ("dev.crepuscularity.mobile"@, "dev.crepuscularity."@ + snake),
        ("dev_crepuscularity_nativeshell"@, "dev_crepuscularity_"@ + snake),
        ("CrepusMobileApp"@, pascal + "App"@),
    ]
}

fn name_pair(from: &str, to: String) -> (r: (String, String))
    ensures
        r.0@ == from@,
        r.1@ == to@,
{
    (to_owned_string(from), to)
}

pub fn app_renames(name: &str) -> (r: AppRenames)
    ensures
        r.snake@ == spec_app_snake(name@),
        r.pascal@ == spec_app_pascal(name@),
        pair_views(r.replacements@) == spec_replacements(r.snake@, r.pascal@),
{
    let snake = app_snake_name(name);
    let pascal = app_pascal_name(name);
    let mut actions = to_owned_string(snake.as_str());
    push_str(&mut actions, "_actions");
    let mut pkg = to_owned_string("dev.crepuscularity.");
    push_str(&mut pkg, snake.as_str());
    let mut pkg2 = to_owned_string("dev.crepuscularity.");
    push_str(&mut pkg2, snake.as_str());
    let mut jni = to_owned_string("dev_crepuscularity_");
    push_str(&mut jni, snake.as_str());
    let mut app = to_owned_string(pascal.as_str());
    push_str(&mut app, "App");
    let mut replacements: Vec<(String, String)> = Vec::new();
    replacements.push(name_pair("crepus_mobile_actions", actions));
    replacements.push(name_pair("dev.crepuscularity.nativeshell", pkg));
    replacements.push(name_pair("dev.crepuscularity.mobile", pkg2));
    replacements.push(name_pair("dev_crepuscularity_nativeshell", jni));
    replacements.push(name_pair("CrepusMobileApp", app));
    assert(pair_views(replacements@) =~= spec_replacements(snake@, pascal@));
    AppRenames { snake, pascal, replacements }
}

/// Every replacement applied to a text, in order.
pub open spec fn spec_apply_replacements(text: Seq<char>, pairs: Seq<(Seq<char>, Seq<char>)>) -> Seq<char>
    decreases pairs.len(),
{
    if pairs.len() == 0 {
        text
    } else {
        let t = spec_apply_replacements(text, pairs.drop_last());
        replace_all(t, pairs.last().0, pairs.last().1)
    }
}

/// The new text of a scaffold file after renaming; `None` when it does not
/// change (the file is then left alone).
pub fn rewrite_content(content: &str, replacements: &Vec<(String, String)>) -> (r: Option<String>)
    ensures
        ({
            let t = spec_apply_replacements(content@, pair_views(replacements@));
            match r {
                Some(x) => x@ == t && t != content@,
                None => t == content@,
            }
        }),
{
    let ghost pv = pair_views(replacements@);
    let mut t = to_owned_string(content);
    let mut i: usize = 0;
    while i < replacements.len()
        invariant
            i <= replacements@.len(),
            pv == pair_views(replacements@),
            t@ == spec_apply_replacements(content@, pv.take(i as int)),
        decreases replacements@.len() - i,
    {
        assert(pv.take(i + 1).drop_last() =~= pv.take(i as int));
        assert(pv.take(i + 1).last() == (replacements@[i as int].0@, replacements@[i as int].1@));
        t = replace_str(t.as_str(), replacements[i].0.as_str(), replacements[i].1.as_str());
        i = i + 1;
    }
    assert(pv.take(replacements@.len() as int) =~= pv);
    if str_eq(t.as_str(), content) {
        None
    } else {
        Some(t)
    }
}

/// Where the iOS app file goes: `ios/App/<Pascal>App.swift`.
pub fn renamed_ios_app_file(root: &str, pascal: &str) -> (r: String)
    ensures
        r@ == path_join(root@, "ios/App/"@ + pascal@ + "App.swift"@),
{
    let mut rel = to_owned_string("ios/App/");
    push_str(&mut rel, pascal);
    push_str(&mut rel, "App.swift");
    join_path(root, rel.as_str())
}

/// Where the Android package directory goes:
/// `android/app/src/main/java/dev/crepuscularity/<snake>`.
pub fn renamed_android_package_dir(root: &str, snake: &str) -> (r: String)
    ensures
        r@ == path_join(root@, "android/app/src/main/java/dev/crepuscularity/"@ + snake@),
{
    let mut rel = to_owned_string("android/app/src/main/java/dev/crepuscularity/");
    push_str(&mut rel, snake);
    join_path(root, rel.as_str())
}

/// The scaffold files whose generic names are replaced, relative to the app.
pub open spec fn spec_rewrite_paths() -> Seq<Seq<char>> {
    seq![
        "crepus.toml"@,
        "rust/Cargo.toml"@,
        "rust/src/lib.rs"@,
        "ios/crepus.toml"@,
        "ios/project.yml"@,
        "ios/App/CrepusMobileApp.swift"@,
        "android/app/build.gradle.kts"@,
        "android/app/src/main/AndroidManifest.xml"@,
        "android/app/src/main/java/dev/crepuscularity/nativeshell/MainActivity.kt"@,
        "android/app/src/main/java/dev/crepuscularity/nativeshell/CrepusRustActions.kt"@,
        "android/app/src/main/java/dev/crepuscularity/nativeshell/generated/CrepusGeneratedView.kt"@,
    ]
}

pub fn scaffold_rewrite_paths() -> (r: Vec<&'static str>)
    ensures
        r@.map_values(|p: &str| p@) == spec_rewrite_paths(),
{
    let mut r: Vec<&'static str> = Vec::new();
    r.push("crepus.toml");
    r.push("rust/Cargo.toml");
    r.push("rust/src/lib.rs");
    r.push("ios/crepus.toml");
    r.push("ios/project.yml");
    r.push("ios/App/CrepusMobileApp.swift");
    r.push("android/app/build.gradle.kts");
    r.push("android/app/src/main/AndroidManifest.xml");
    r.push("android/app/src/main/java/dev/crepuscularity/nativeshell/MainActivity.kt");
    r.push("android/app/src/main/java/dev/crepuscularity/nativeshell/CrepusRustActions.kt");
    r.push("android/app/src/main/java/dev/crepuscularity/nativeshell/generated/CrepusGeneratedView.kt");
    assert(r@.map_values(|p: &str| p@) =~= spec_rewrite_paths());
    r
}

// ── `crepus mobile <command>` ──────────────────────────────────────────────

/// Arguments of the mobile dev server.
#[derive(Debug, Clone, PartialEq, Eq)]
pub struct MobileDevArgs {
    pub dir: String,
    pub port: u16,
    pub platform: MobilePlatform,
    pub template: String,
    pub ctx_file: Option<String>,
    pub vars: Vec<(String, String)>,
}

/// What a mobile command comes down to.
#[derive(Debug, Clone, PartialEq, Eq)]
pub enum MobileAction {
    /// Scaffold a native shell, then rename it for the app.
    Scaffold { name: String },
    /// Run one native command.
    Native { command: NativeCommands },
    /// Run these codegen jobs.
    Codegen { jobs: Vec<CodegenJob> },
    /// Regenerate the views (failures ignored), then build.
    Build { codegen: Vec<CodegenJob>, builds: Vec<NativeCommands> },
    /// Check the host toolchains of a platform.
    Doctor { platform: MobilePlatform },
    /// Serve the app's views with hot reload.
    Dev { args: MobileDevArgs },
}

/// The codegen platform that `crepus mobile build` regenerates views for:
/// the one platform, or both (no platform) for `all`.
pub open spec fn codegen_arg_of(p: MobilePlatformArg) -> Option<MobileCodegenPlatformArg> {
    match p {
        MobilePlatformArg::Ios => Some(MobileCodegenPlatformArg::Ios),
        MobilePlatformArg::Android => Some(MobileCodegenPlatformArg::Android),
        MobilePlatformArg::All => None,
    }
}

/// The action of a mobile command, or the error it stops with.
pub fn execute_mobile(cmd: MobileCommands) -> (r: Result<MobileAction, String>)
    ensures
        cmd matches MobileCommands::New { name } ==> r == Ok::<MobileAction, String>(MobileAction::Scaffold { name }),
        cmd matches MobileCommands::Sync { template, dir, vars, pretty } ==> (r matches Ok(
            MobileAction::Native { command: NativeCommands::Sync { args } },
        ) && args.template == template && args.dir == dir && args.out@.len() == 0 && !args.no_defaults
            && args.component is None && args.ctx is None && args.vars == vars && args.pretty == pretty),
        cmd matches MobileCommands::Codegen { template, .. } ==> (template is None <==> r is Err),
        cmd matches MobileCommands::Codegen { template: None, .. } ==> (r matches Err(m) && m@ == "expected template path"@),
        cmd matches MobileCommands::Codegen { template: Some(t), dir, platform, out, view_name, vars } ==> (r matches Ok(
            MobileAction::Codegen { jobs },
        ) && codegen_jobs_ok(
            dir@,
            t@,
            platform,
            opt_view(out),
            match opt_view(view_name) {
                Some(v) => v,
                None => default_view_name(),
            },
            sviews(vars@),
            jobs@,
        )),
        cmd matches MobileCommands::Build { platform, dir, target, configuration, flavor } ==> (r matches Ok(
            MobileAction::Build { codegen, builds },
        ) && mobile_builds_ok(mobile_platform_of(platform), dir, target, configuration, flavor, builds@)
            && codegen_jobs_ok(
            match opt_view(dir) {
                Some(d) => d,
                None => "."@,
            },
            "views/main.crepus"@,
            codegen_arg_of(platform),
            None,
            "CrepusGeneratedView"@,
            seq![],
            codegen@,
        )),
        cmd matches MobileCommands::Run { platform, dir, flavor } ==> (platform == MobilePlatformArg::Ios ==> r
            == Ok::<MobileAction, String>(
            MobileAction::Native { command: NativeCommands::Run { platform: NativeRunCommands::Ios { dir } } },
        )) && (platform == MobilePlatformArg::Android ==> r == Ok::<MobileAction, String>(
            MobileAction::Native { command: NativeCommands::Run { platform: NativeRunCommands::Android { dir, flavor } } },
        )) && (platform == MobilePlatformArg::All ==> (r matches Err(m)
            && m@ == "crepus mobile run expects --platform ios or android"@)),
        cmd matches MobileCommands::Doctor { platform } ==> r == Ok::<MobileAction, String>(
            MobileAction::Doctor { platform: mobile_platform_of(platform) },
        ),
        cmd matches MobileCommands::Dev { dir, port, platform, template, ctx, vars } ==> match r {
            Ok(MobileAction::Dev { args }) => args.dir == dir && args.port == port && args.platform
                == mobile_platform_of(platform) && args.template == template && args.ctx_file == ctx
                && args.vars@.len() == vars@.len() && forall|i: int| 0 <= i < vars@.len()
                ==> crate::native_ir::spec_split_kv(#[trigger] vars@[i]@) == Some(
                (args.vars@[i].0@, args.vars@[i].1@),
            ),
            Err(m) => exists|i: int| 0 <= i < vars@.len() && crate::native_ir::spec_split_kv(#[trigger] vars@[i]@) is None
                && m@ == crate::native_ir::spec_kv_error(vars@[i]@),
            _ => false,
        },
{
    match cmd {
        MobileCommands::New { name } => Ok(MobileAction::Scaffold { name }),
        MobileCommands::Sync { template, dir, vars, pretty } => Ok(MobileAction::Native {
            command: NativeCommands::Sync {
                args: SyncArgs {
                    template,
                    dir,
                    out: Vec::new(),
                    no_defaults: false,
                    component: None,
                    ctx: None,
                    vars,
                    pretty,
                },
            },
        }),
        MobileCommands::Codegen { template, dir, platform, out, view_name, vars } => {
            match run_codegen_full(template, dir.as_str(), platform, out, view_name, &vars) {
                Ok(jobs) => Ok(MobileAction::Codegen { jobs }),
                Err(e) => Err(e),
            }
        },
        MobileCommands::Build { platform, dir, target, configuration, flavor } => {
            let root = match &dir {
                Some(d) => to_owned_string(d.as_str()),
                None => to_owned_string("."),
            };
            let p = mobile_platform(platform);
            let arg = match p {
                MobilePlatform::Ios => Some(MobileCodegenPlatformArg::Ios),
                MobilePlatform::Android => Some(MobileCodegenPlatformArg::Android),
                MobilePlatform::All => None,
            };
            let no_vars: Vec<String> = Vec::new();
            assert(sviews(no_vars@) =~= Seq::<Seq<char>>::empty());
            assert(arg == codegen_arg_of(platform));
            let codegen = match run_codegen_full(
                Some(to_owned_string("views/main.crepus")),
                root.as_str(),
                arg,
                None,
                Some(to_owned_string("CrepusGeneratedView")),
                &no_vars,
            ) {
                Ok(jobs) => jobs,
                Err(_) => Vec::new(),
            };
            let builds = run_mobile_build(p, dir, target, configuration, flavor);
            Ok(MobileAction::Build { codegen, builds })
        },
        MobileCommands::Run { platform, dir, flavor } => match run_mobile_run(mobile_platform(platform), dir, flavor) {
            Ok(command) => Ok(MobileAction::Native { command }),
            Err(e) => Err(e),
        },
        MobileCommands::Doctor { platform } => Ok(MobileAction::Doctor { platform: mobile_platform(platform) }),
        MobileCommands::Dev { dir, port, platform, template, ctx, vars } => {
            match crate::native_ir::parse_kv_vars(&vars) {
                Ok(pairs) => Ok(MobileAction::Dev {
                    args: MobileDevArgs {
                        dir,
                        port,
                        platform: mobile_platform(platform),
                        template,
                        ctx_file: ctx,
                        vars: pairs,
                    },
                }),
                Err(e) => Err(e),
            }
        },
    }
}

/// The platform a command-line platform names.
pub open spec fn mobile_platform_of(p: MobilePlatformArg) -> MobilePlatform {
    match p {
        MobilePlatformArg::Ios => MobilePlatform::Ios,
        MobilePlatformArg::Android => MobilePlatform::Android,
        MobilePlatformArg::All => MobilePlatform::All,
    }
}

// ── Requests ───────────────────────────────────────────────────────────────

/// The whitespace-separated words of `s` (`str::split_whitespace`),
/// continuing a word that so far holds `cur`.
pub open spec fn words_from(s: Seq<char>, cur: Seq<char>) -> Seq<Seq<char>>
    decreases s.len(),
{
    if s.len() == 0 {
        if cur.len() > 0 {
            seq![cur]
        } else {
            Seq::empty()
        }
    } else if crate::text::is_ws(s[0]) {
        (if cur.len() > 0 {
            seq![cur]
        } else {
            Seq::empty()
        }) + words_from(s.drop_first(), Seq::empty())
    } else {
        words_from(s.drop_first(), cur.push(s[0]))
    }
}

pub open spec fn words(s: Seq<char>) -> Seq<Seq<char>> {
    words_from(s, Seq::empty())
}

/// The path of an HTTP request: the second word of its first line, `/`
/// when there is none.
pub open spec fn spec_request_path(req: Seq<char>) -> Seq<char> {
    if lines(req).len() > 0 && words(lines(req)[0]).len() > 1 {
        words(lines(req)[0])[1]
    } else {
        "/"@
    }
}

pub fn words_of(s: &str) -> (r: Vec<String>)
    ensures
        sviews(r@) == words(s@),
{
    let cs = chars_of(s);
    let mut out: Vec<String> = Vec::new();
    let mut cur: Vec<char> = Vec::new();
    let mut i: usize = 0;
    assert(cs@.skip(0) =~= cs@);
    while i < cs.len()
        invariant
            i <= cs@.len(),
            cs@ == s@,
            sviews(out@) + words_from(cs@.skip(i as int), cur@) == words(s@),
        decreases cs@.len() - i,
    {
        let c = cs[i];
        let ghost rest = cs@.skip(i as int);
        assert(rest.drop_first() =~= cs@.skip(i + 1));
        assert(rest[0] == c);
        if crate::text::is_whitespace(c) {
            let ghost before = sviews(out@);
            let ghost cv = cur@;
            if cur.len() > 0 {
                out.push(string_from_chars(&cur));
                assert(sviews(out@) =~= before.push(cv));
                assert(before + seq![cv] =~= before.push(cv));
            } else {
                assert(before + Seq::<Seq<char>>::empty() =~= before);
            }
            cur = Vec::new();
            assert(cur@ =~= Seq::<char>::empty());
            assert(sviews(out@) + words_from(cs@.skip(i + 1), cur@) =~= before + words_from(rest, cv));
        } else {
            let ghost cv = cur@;
            cur.push(c);
            assert(cur@ == cv.push(c));
        }
        i = i + 1;
    }
    assert(cs@.skip(i as int) =~= Seq::<char>::empty());
    let ghost before = sviews(out@);
    if cur.len() > 0 {
        let ghost cv = cur@;
        out.push(string_from_chars(&cur));
        assert(sviews(out@) =~= before + seq![cv]);
    } else {
        assert(sviews(out@) =~= before + Seq::<Seq<char>>::empty());
    }
    out
}

/// The path an HTTP request asks for.
pub fn request_path(req: &str) -> (r: String)
    ensures
        r@ == spec_request_path(req@),
{
    let ls = lines_of(req);
    if ls.len() > 0 {
        let ws = words_of(ls[0].as_str());
        if ws.len() > 1 {
            return to_owned_string(ws[1].as_str());
        }
    }
    to_owned_string("/")
}

// ── Watching templates ─────────────────────────────────────────────────────

/// The kind of a file-system event, as far as the dev server tells them
/// apart.
#[derive(Debug, Clone, Copy, PartialEq, Eq, Structural)]
pub enum WatchEventKind {
    Create,
    Modify,
    Remove,
    Other,
}

/// The extension of a file name, as `Path::extension` documents it: the
/// part after the last `.`, unless the name has no `.` or its only `.` is
/// its first character.
pub open spec fn name_extension(name: Seq<char>) -> Option<Seq<char>> {
    if exists|i: int| 1 <= i < name.len() && name[i] == '.' {
        let k = choose|i: int| 1 <= i < name.len() && name[i] == '.' && forall|j: int| i < j < name.len() ==> name[j] != '.';
        Some(name.skip(k + 1))
    } else {
        None
    }
}

/// The extension of a path's file name.
pub open spec fn path_extension(path: Seq<char>) -> Option<Seq<char>> {
    match path_file_name(path) {
        Some(n) => name_extension(n),
        None => None,
    }
}

fn extension_of(path: &str) -> (r: Option<String>)
    ensures
        opt_view(r) == path_extension(path@),
{
    let name = match file_name_of(path) {
        Some(n) => n,
        None => {
            return None;
        },
    };
    let cs = chars_of(name.as_str());
    let mut k: usize = cs.len();
    while k > 1 && cs[k - 1] != '.'
        invariant
            k <= cs@.len(),
            cs@ == name@,
            forall|j: int| k <= j < cs@.len() ==> cs@[j] != '.',
        decreases k,
    {
        k = k - 1;
    }
    if k > 1 {
        let dot = k - 1;
        assert(1 <= dot < cs@.len() && cs@[dot as int] == '.');
        let r = string_from_range(&cs, k, cs.len());
        proof {
            let n = name@;
            let c = choose|i: int| 1 <= i < n.len() && n[i] == '.' && forall|j: int| i < j < n.len() ==> n[j] != '.';
            assert(1 <= dot < n.len() && n[dot as int] == '.' && forall|j: int| dot < j < n.len() ==> n[j] != '.');
            if c < dot {
                assert(n[dot as int] != '.');
            } else if c > dot {
                assert(n[c] != '.');
            }
            assert(c == dot);
            assert(cs@.subrange(k as int, cs@.len() as int) =~= n.skip(dot + 1));
        }
        Some(r)
    } else {
        proof {
            let n = name@;
            assert forall|i: int| 1 <= i < n.len() implies n[i] != '.' by {
                if i >= k {
                } else {
                    assert(i < 1);
                }
            }
        }
        None
    }
}

/// Whether a file-system event concerns templates: a creation, change or
/// removal of a path of which one ends in `.crepus`.
pub open spec fn spec_is_template_event(kind: WatchEventKind, paths: Seq<Seq<char>>) -> bool {
    kind != WatchEventKind::Other && exists|i: int| 0 <= i < paths.len() && path_extension(#[trigger] paths[i]) == Some(
        "crepus"@,
    )
}

pub fn is_template_event(kind: WatchEventKind, paths: &Vec<String>) -> (r: bool)
    ensures
        r == spec_is_template_event(kind, sviews(paths@)),
{
    if kind == WatchEventKind::Other {
        return false;
    }
    let ghost pv = sviews(paths@);
    let mut i: usize = 0;
    while i < paths.len()
        invariant
            i <= paths@.len(),
            pv == sviews(paths@),
            kind != WatchEventKind::Other,
            forall|j: int| 0 <= j < i ==> path_extension(#[trigger] pv[j]) != Some("crepus"@),
        decreases paths@.len() - i,
    {
        let e = extension_of(paths[i].as_str());
        let hit = match &e {
            Some(x) => str_eq(x.as_str(), "crepus"),
            None => false,
        };
        assert(pv[i as int] == paths@[i as int]@);
        if hit {
            assert(path_extension(pv[i as int]) == Some("crepus"@));
            return true;
        }
        i = i + 1;
    }
    false
}

} // verus!
