//! Routing of parsed commands: the options that `crepus benchmark` runs
//! with, the platform and target values of the native commands, which
//! scaffold `crepus init <kind>` makes, and when `crepus build` builds the
//! targets of a manifest.
use vstd::prelude::*;
use crate::benchmark::{only_list, spec_id_list, CheckOptions, RunOptions, ids_view};
use crate::cli::{BenchmarkCheckArgs, BenchmarkRunArgs, MobilePlatformArg, NativeIosTargetArg};
use crate::native_build::IosBuildTarget;
use crate::native_mobile::MobilePlatform;
use crate::text::{push_str, str_eq, to_owned_string};

verus! {

/// The only list of a run: its ids, when `--only` was given.
pub open spec fn only_matches(o: Option<Vec<String>>, only: Option<String>) -> bool {
    match only {
        Some(s) => ids_view(o) == Some(spec_id_list(s@)),
        None => o is None,
    }
}

fn only_of(only: Option<String>) -> (r: Option<Vec<String>>)
    ensures
        only_matches(r, only),
{
    let r = only_list(only);
    proof {
        if r is Some {
            assert(r->Some_0@.map_values(|x: String| x@) =~= spec_id_list(only->Some_0@));
        }
    }
    r
}

/// The options of `crepus benchmark run|all`: verbose by default (the
/// steps' output streams through), quiet with `--json` or `--quiet`
/// (`--verbose` asks for the default); memory sampling unless `--no-memory`.
pub fn benchmark_run_options(args: BenchmarkRunArgs) -> (r: RunOptions)
    ensures
        r.config_path == args.common.config,
        r.suite_filter == args.common.suite,
        only_matches(r.only, args.common.only),
        r.json_out == args.json,
        r.dry_run == args.dry_run,
        r.clean == args.clean,
        r.repo_override == args.common.repo,
        r.work_override == args.work_root,
        r.verbose == (!args.json && !args.quiet),
        r.measure_memory == !args.no_memory,
        r.no_tui == args.no_tui,
{
    let verbose = !args.json && !args.quiet;
    RunOptions {
        config_path: args.common.config,
        suite_filter: args.common.suite,
        only: only_of(args.common.only),
        json_out: args.json,
        dry_run: args.dry_run,
        clean: args.clean,
        repo_override: args.common.repo,
        work_override: args.work_root,
        verbose,
        measure_memory: !args.no_memory,
        no_tui: args.no_tui,
    }
}

/// The options of `crepus benchmark check`.
pub fn benchmark_check_options(args: BenchmarkCheckArgs) -> (r: CheckOptions)
    ensures
        r.config_path == args.common.config,
        r.suite_filter == args.common.suite,
        only_matches(r.only, args.common.only),
        r.json_out == args.json,
        r.repo_override == args.common.repo,
{
    CheckOptions {
        config_path: args.common.config,
        suite_filter: args.common.suite,
        only: only_of(args.common.only),
        json_out: args.json,
        repo_override: args.common.repo,
    }
}

/// The mobile platform named on the command line.
pub fn mobile_platform(p: MobilePlatformArg) -> (r: MobilePlatform)
    ensures
        r == crate::native_mobile::mobile_platform_of(p),
{
    crate::native_mobile::mobile_platform(p)
}

/// The iOS build target named on the command line.
pub fn native_ios_target(t: NativeIosTargetArg) -> (r: IosBuildTarget)
    ensures
        t == NativeIosTargetArg::Simulator ==> r == IosBuildTarget::Simulator,
        t == NativeIosTargetArg::Device ==> r == IosBuildTarget::Device,
{
    match t {
        NativeIosTargetArg::Simulator => IosBuildTarget::Simulator,
        NativeIosTargetArg::Device => IosBuildTarget::Device,
    }
}

/// The scaffolds of `crepus init <kind>`.
#[derive(Debug, Clone, Copy, PartialEq, Eq, Structural)]
pub enum InitKind {
    Web,
    Webext,
    Tui,
    Native,
    Mobile,
    Ios,
}

/// `format!("{:?}", s)`: the quoted, escaped form of a text. The result is
/// named `debug_quoted` and depends on the text alone.
pub uninterp spec fn debug_quoted(s: Seq<char>) -> Seq<char>;

#[verifier::external_body]
pub(crate) fn quote_debug(s: &str) -> (r: String)
    ensures
        r@ == debug_quoted(s@),
{
    format!("{:?}", s)
}

/// The kind names of `crepus init`.
pub open spec fn spec_init_kind(kind: Seq<char>) -> Option<InitKind> {
    if kind == "web"@ {
        Some(InitKind::Web)
    } else if kind == "webext"@ || kind == "extension"@ || kind == "browser-extension"@ {
        Some(InitKind::Webext)
    } else if kind == "tui"@ {
        Some(InitKind::Tui)
    } else if kind == "native"@ {
        Some(InitKind::Native)
    } else if kind == "mobile"@ {
        Some(InitKind::Mobile)
    } else if kind == "ios"@ {
        Some(InitKind::Ios)
    } else {
        None
    }
}

pub open spec fn gpui_missing() -> Seq<char> {
    "GPUI scaffold not compiled in. Rebuild crepus with --features desktop."@
}

/// Which scaffold `crepus init <kind>` makes. The desktop kinds (`gpui`,
/// `app`, `desktop`) need the desktop build of crepus; any other kind is
/// unknown, and the message lists the known ones.
pub fn init_kind(kind: &str) -> (r: Result<InitKind, String>)
    ensures
        match spec_init_kind(kind@) {
            Some(k) => r == Ok::<InitKind, String>(k),
            None => r matches Err(m) && if kind@ == "gpui"@ || kind@ == "app"@ || kind@ == "desktop"@ {
                m@ == gpui_missing()
            } else {
                m@ == "unknown init kind "@ + debug_quoted(kind@) + "; expected web, webext, tui, native, ios, mobile, app"@
            },
        },
{
    proof {
        reveal_strlit("web");
        reveal_strlit("webext");
        reveal_strlit("extension");
        reveal_strlit("browser-extension");
        reveal_strlit("tui");
        reveal_strlit("native");
        reveal_strlit("mobile");
        reveal_strlit("ios");
        reveal_strlit("gpui");
        reveal_strlit("app");
        reveal_strlit("desktop");
    }
    if str_eq(kind, "web") {
        Ok(InitKind::Web)
    } else if str_eq(kind, "webext") || str_eq(kind, "extension") || str_eq(kind, "browser-extension") {
        Ok(InitKind::Webext)
    } else if str_eq(kind, "tui") {
        Ok(InitKind::Tui)
    } else if str_eq(kind, "native") {
        Ok(InitKind::Native)
    } else if str_eq(kind, "mobile") {
        Ok(InitKind::Mobile)
    } else if str_eq(kind, "ios") {
        Ok(InitKind::Ios)
    } else if str_eq(kind, "gpui") || str_eq(kind, "app") || str_eq(kind, "desktop") {
        Err(to_owned_string("GPUI scaffold not compiled in. Rebuild crepus with --features desktop."))
    } else {
        let mut m = to_owned_string("unknown init kind ");
        let q = quote_debug(kind);
        push_str(&mut m, q.as_str());
        push_str(&mut m, "; expected web, webext, tui, native, ios, mobile, app");
        proof {
            reveal_strlit("unknown init kind ");
            reveal_strlit("; expected web, webext, tui, native, ios, mobile, app");
        }
        Err(m)
    }
}

/// Whether `crepus build` goes by the manifest's targets on its flags
/// alone; when this is false, it still does when the manifest declares
/// targets.
pub fn build_flags_select_manifest(
    target_id: &Option<String>,
    manifest: &Option<String>,
    all: bool,
    selector: &Option<String>,
) -> (r: bool)
    ensures
        r == (target_id is Some || manifest is Some || all || selector is Some),
{
    target_id.is_some() || manifest.is_some() || all || selector.is_some()
}

} // verus!
