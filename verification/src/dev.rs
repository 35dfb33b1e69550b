//! The decisions of the desktop dev loop (`crepus dev`): which directory a
//! target names, which binary runs, where cargo put it, and where the loop
//! stands after a build, a failed launch or the app's exit, and the loop
//! itself as a step from one event to the next actions. Watching files,
//! waiting, reading the clock, running cargo and starting the app are left
//! to the caller.
use vstd::prelude::*;
use crate::builder::{find_bin_name, spec_find_bin_name, BuildOutcome};
use crate::crepus_toml::{parent_of, path_parent, ResolvedTarget};
use crate::events::{
    changed_json, error_json, exited_json, launched_json, server_json, started_json, success_json, BuildError,
    CompilerDiagnostic, CompilerEvent,
};
use crate::num::{decimal, push_decimal, push_signed_decimal, signed_decimal};
use crate::hud::DevStatus;
use crate::native_ir::{join_path, path_join};
use crate::text::{opt_view, push_str, str_eq, sviews, to_owned_string, trim, trim_string};

verus! {

/// The first manifest target whose type or id is `target`, by its directory.
pub open spec fn spec_manifest_target_dir(target: Seq<char>, ts: Seq<ResolvedTarget>) -> Option<Seq<char>>
    decreases ts.len(),
{
    if ts.len() == 0 {
        None
    } else if ts[0].target_type@ == target || ts[0].id@ == target {
        Some(ts[0].dir@)
    } else {
        spec_manifest_target_dir(target, ts.drop_first())
    }
}

/// The directory of the manifest target that `crepus dev <target>` means.
pub fn manifest_target_dir(target: &str, targets: &Vec<ResolvedTarget>) -> (r: Option<String>)
    ensures
        opt_view(r) == spec_manifest_target_dir(target@, targets@),
{
    let mut i: usize = 0;
    assert(targets@.skip(0) =~= targets@);
    while i < targets.len()
        invariant
            i <= targets@.len(),
            spec_manifest_target_dir(target@, targets@.skip(i as int)) == spec_manifest_target_dir(
                target@,
                targets@,
            ),
        decreases targets@.len() - i,
    {
        let t = &targets[i];
        assert(targets@.skip(i as int)[0] == targets@[i as int]);
        assert(targets@.skip(i as int).drop_first() =~= targets@.skip(i + 1));
        if str_eq(t.target_type.as_str(), target) || str_eq(t.id.as_str(), target) {
            return Some(t.dir.clone());
        }
        i = i + 1;
    }
    None
}

/// A target resolves to the directory of the first manifest target whose
/// type or id it names: that target matches, and none before it does.
pub proof fn law_dev_target_is_first_match(target: Seq<char>, ts: Seq<ResolvedTarget>)
    requires
        spec_manifest_target_dir(target, ts) is Some,
    ensures
        exists|i: int|
            0 <= i < ts.len() && (#[trigger] ts[i]).dir@ == spec_manifest_target_dir(target, ts)->Some_0 && (
            ts[i].target_type@ == target || ts[i].id@ == target) && forall|j: int|
                0 <= j < i ==> !((#[trigger] ts[j]).target_type@ == target || ts[j].id@ == target),
    decreases ts.len(),
{
    if ts[0].target_type@ == target || ts[0].id@ == target {
        assert(ts[0].dir@ == spec_manifest_target_dir(target, ts)->Some_0);
    } else {
        let rest = ts.drop_first();
        law_dev_target_is_first_match(target, rest);
        let k = choose|i: int|
            0 <= i < rest.len() && (#[trigger] rest[i]).dir@ == spec_manifest_target_dir(target, rest)->Some_0 && (
            rest[i].target_type@ == target || rest[i].id@ == target) && forall|j: int|
                0 <= j < i ==> !((#[trigger] rest[j]).target_type@ == target || rest[j].id@ == target);
        assert(ts[k + 1] == rest[k]);
        assert forall|j: int| 0 <= j < k + 1 implies !((#[trigger] ts[j]).target_type@ == target || ts[j].id@ == target) by {
            if j > 0 {
                assert(ts[j] == rest[j - 1]);
            }
        }
    }
}

/// The conventional directories (relative to the working directory) that
/// stand for a target kind when no manifest target matches, in the order
/// they are tried; a directory counts only when it holds Cargo.toml.
pub open spec fn spec_conventional_dirs(target: Seq<char>) -> Seq<Seq<char>> {
    if target == "gpui"@ {
        seq!["ui/gui"@, "gui"@]
    } else if target == "tui"@ {
        seq!["ui/tui"@, "tui"@]
    } else if target == "web"@ {
        seq!["ui/web"@, "web"@]
    } else if target == "ios"@ {
        seq!["ui/ios"@, "ios"@]
    } else {
        seq![]
    }
}

pub fn conventional_dirs(target: &str) -> (r: Vec<String>)
    ensures
        r@.len() == spec_conventional_dirs(target@).len(),
        forall|i: int| 0 <= i < r@.len() ==> #[trigger] r@[i]@ == spec_conventional_dirs(target@)[i],
{
    if str_eq(target, "gpui") {
        vec![to_owned_string("ui/gui"), to_owned_string("gui")]
    } else if str_eq(target, "tui") {
        vec![to_owned_string("ui/tui"), to_owned_string("tui")]
    } else if str_eq(target, "web") {
        vec![to_owned_string("ui/web"), to_owned_string("web")]
    } else if str_eq(target, "ios") {
        vec![to_owned_string("ui/ios"), to_owned_string("ios")]
    } else {
        Vec::new()
    }
}

/// The error when a target names no directory.
pub fn unresolved_target(target: &str) -> (r: String)
    ensures
        r@ == "could not resolve target '"@ + target@ + "' — no matching [[targets]] in crepus.toml and no ui/"@
            + target@ + "/ directory"@,
{
    let mut m = to_owned_string("could not resolve target '");
    push_str(&mut m, target);
    push_str(&mut m, "' — no matching [[targets]] in crepus.toml and no ui/");
    push_str(&mut m, target);
    push_str(&mut m, "/ directory");
    m
}

/// The binary the loop runs (see `spec_find_bin_name`), or the error when
/// there is none.
pub fn dev_bin_name(cargo_toml: Option<&str>, override_name: Option<&str>) -> (r: Result<String, String>)
    ensures
        ({
            let want = spec_find_bin_name(
                match cargo_toml {
                    Some(c) => Some(c@),
                    None => None,
                },
                match override_name {
                    Some(n) => Some(n@),
                    None => None,
                },
            );
            match r {
                Ok(n) => want == Some(n@),
                Err(m) => want is None && m@
                    == "could not determine binary name — add [[bin]] to Cargo.toml or use --bin"@,
            }
        }),
{
    match find_bin_name(cargo_toml, override_name) {
        Some(n) => Ok(n),
        None => Err(to_owned_string("could not determine binary name — add [[bin]] to Cargo.toml or use --bin")),
    }
}

/// Whether the loop runs in the terminal alone, without the status window:
/// for the targets `tui` and `terminal`.
pub fn terminal_only(target: &Option<String>) -> (r: bool)
    ensures
        r == (match target {
            Some(t) => t@ == "tui"@ || t@ == "terminal"@,
            None => false,
        }),
{
    match target {
        Some(t) => str_eq(t.as_str(), "tui") || str_eq(t.as_str(), "terminal"),
        None => false,
    }
}

/// Where the loop stands after a build of `elapsed_ms`: running when it
/// succeeded, else failed with its errors and their number.
pub fn status_after_build(outcome: BuildOutcome, elapsed_ms: u64) -> (r: DevStatus)
    ensures
        outcome.success ==> r == (DevStatus::Running { elapsed_ms }),
        !outcome.success ==> r == (DevStatus::Failed { count: outcome.errors@.len() as usize, errors: outcome.errors }),
{
    if outcome.success {
        DevStatus::Running { elapsed_ms }
    } else {
        let count = outcome.errors.len();
        DevStatus::Failed { errors: outcome.errors, count }
    }
}

/// Where the loop stands when the built binary could not be started: one
/// error, `Failed to launch binary: <error>`, with no file.
pub fn launch_failure_status(error: &str) -> (r: DevStatus)
    ensures
        r is Failed && r->count == 1 && r->errors@.len() == 1,
        r->errors@[0].level@ == "error"@ && r->errors@[0].message@ == "Failed to launch binary: "@ + error@,
        r->errors@[0].file@ == Seq::<char>::empty() && r->errors@[0].line == 0 && r->errors@[0].rendered is None,
{
    let mut message = to_owned_string("Failed to launch binary: ");
    push_str(&mut message, error);
    let e = BuildError { level: to_owned_string("error"), message, file: String::new(), line: 0, rendered: None };
    DevStatus::Failed { errors: vec![e], count: 1 }
}

/// Where the loop stands when the app exited on its own, and whether the
/// loop ends: it ends when the app exited with a code.
pub fn after_exit(code: Option<i32>) -> (r: (DevStatus, bool))
    ensures
        r.0 == (DevStatus::Exited { code }),
        r.1 == (code is Some),
{
    (DevStatus::Exited { code }, code.is_some())
}

/// The workspace root in the output of
/// `cargo locate-project --workspace --message-format plain`: the directory
/// of the manifest path it prints.
pub fn workspace_root(output: &str) -> (r: Option<String>)
    ensures
        opt_view(r) == path_parent(trim(output@)),
{
    let p = trim_string(output);
    parent_of(p.as_str())
}

/// Where the built binary is: `<base>/target/<profile>/<bin>`, where the
/// base is the workspace root when cargo named one (`locate_output`, the
/// output of a successful `cargo locate-project`), else the crate's
/// directory.
pub fn binary_path(locate_output: Option<&str>, cwd: &str, profile: &str, bin: &str) -> (r: String)
    ensures
        ({
            let base = match locate_output {
                Some(o) => match path_parent(trim(o@)) {
                    Some(root) => root,
                    None => cwd@,
                },
                None => cwd@,
            };
            r@ == path_join(path_join(path_join(base, "target"@), profile@), bin@)
        }),
{
    let root = match locate_output {
        Some(o) => workspace_root(o),
        None => None,
    };
    let base = match root {
        Some(r) => r,
        None => to_owned_string(cwd),
    };
    let t = join_path(base.as_str(), "target");
    let p = join_path(t.as_str(), profile);
    join_path(p.as_str(), bin)
}

// ── The loop ───────────────────────────────────────────────────────────────

/// What the loop runs: in the terminal alone or beside the status window,
/// the binary's name and path, and the watched `src` directory and
/// Cargo.toml.
#[derive(Clone, Debug, PartialEq, Eq)]
pub struct DevConfig {
    pub terminal: bool,
    pub bin_name: String,
    pub binary: String,
    pub src_dir: String,
    pub manifest_path: String,
}

/// Where the loop stands: the app's process while it runs, the status the
/// window shows, and whether the loop has ended.
#[derive(Clone, Debug, PartialEq, Eq)]
pub struct DevLoopState {
    pub child: Option<u32>,
    pub status: DevStatus,
    pub stopped: bool,
}

/// What happened, as the caller saw it.
#[derive(Clone, Debug, PartialEq, Eq)]
pub enum DevEvent {
    /// The loop starts.
    Begin,
    /// A watched file changed.
    Changed { path: String },
    /// The build ended after `elapsed_ms`.
    Finished { outcome: BuildOutcome, elapsed_ms: u64 },
    /// The built app started as process `pid`.
    Launched { pid: u32 },
    /// The built app could not be started.
    LaunchFailed { error: String },
    /// The app exited on its own (seen when polling it).
    Exited { code: Option<i32> },
    /// Polling the app failed.
    WaitFailed,
    /// The status window was closed.
    Shutdown,
    /// The file watcher went away.
    Disconnected,
}

/// How long a burst of file changes is let settle before a rebuild, in
/// milliseconds.
pub const DEBOUNCE_MS: u64 = 300;

/// How long the loop waits for a file change before it checks on the
/// running app, in milliseconds.
pub const POLL_MS: u64 = 200;

/// How a line on the terminal is marked.
#[derive(Clone, Copy, Debug, PartialEq, Eq, Structural)]
pub enum Mark {
    Arrow,
    Done,
    Failure,
    Warn,
}

/// What the caller is to do, in order.
#[derive(Clone, Debug, PartialEq, Eq)]
pub enum DevAction {
    /// Write this JSON line to stdout.
    Emit(String),
    /// Write this line to stderr, with its mark.
    Say(Mark, String),
    /// Let a burst of changes settle (`DEBOUNCE_MS`, dropping the changes seen).
    Debounce,
    /// Kill the process and wait for it.
    Kill(u32),
    /// Run the build.
    Build,
    /// Start the built binary.
    Launch,
    /// Report this error and end crepus.
    Fail(String),
    /// End the loop.
    Stop,
}

/// An action as plain values.
pub enum ActionView {
    Emit(Seq<char>),
    Say(Mark, Seq<char>),
    Debounce,
    Kill(u32),
    Build,
    Launch,
    Fail(Seq<char>),
    Stop,
}

pub open spec fn action_view(a: DevAction) -> ActionView {
    match a {
        DevAction::Emit(j) => ActionView::Emit(j@),
        DevAction::Say(m, t) => ActionView::Say(m, t@),
        DevAction::Debounce => ActionView::Debounce,
        DevAction::Kill(p) => ActionView::Kill(p),
        DevAction::Build => ActionView::Build,
        DevAction::Launch => ActionView::Launch,
        DevAction::Fail(t) => ActionView::Fail(t@),
        DevAction::Stop => ActionView::Stop,
    }
}

pub open spec fn actions_view(v: Seq<DevAction>) -> Seq<ActionView> {
    v.map_values(|a: DevAction| action_view(a))
}

/// A JSON line when events are emitted.
pub open spec fn emit_if(emit: bool, json: Seq<char>) -> Seq<ActionView> {
    if emit {
        seq![ActionView::Emit(json)]
    } else {
        Seq::empty()
    }
}

/// A rebuild: the running app is killed (and its exit reported), the start
/// of the compilation is reported, and the build runs.
pub open spec fn rebuild_actions(cfg: DevConfig, child: Option<u32>, emit: bool, now: u64) -> Seq<ActionView> {
    (match child {
        Some(pid) => seq![ActionView::Kill(pid)] + emit_if(emit, exited_json(now, pid, None)),
        None => Seq::empty(),
    }) + emit_if(emit, started_json(now, seq![cfg.src_dir@], Some("file_change"@))) + seq![ActionView::Build]
}

/// `Option<i32>` as `{:?}` writes it.
pub open spec fn debug_code(code: Option<i32>) -> Seq<char> {
    match code {
        Some(c) => "Some("@ + signed_decimal(c as int) + ")"@,
        None => "None"@,
    }
}

/// The actions of the loop on an event at time `now` (ms), emitting JSON
/// events when `emit`.
pub open spec fn spec_dev_actions(cfg: DevConfig, st: DevLoopState, ev: DevEvent, emit: bool, now: u64) -> Seq<ActionView> {
    match ev {
        DevEvent::Begin => rebuild_actions(cfg, None, emit, now),
        DevEvent::Changed { path } => (if cfg.terminal {
            Seq::empty()
        } else {
            emit_if(emit, changed_json(now, path@))
        }) + seq![ActionView::Debounce, ActionView::Say(Mark::Arrow, "change detected — rebuilding…"@)]
            + rebuild_actions(cfg, st.child, emit, now),
        DevEvent::Finished { outcome, elapsed_ms } => if outcome.success {
            emit_if(emit, success_json(now, elapsed_ms, cfg.binary@)) + seq![
                ActionView::Say(Mark::Done, "built in "@ + decimal(elapsed_ms as nat) + " ms — launching "@ + cfg.bin_name@),
                ActionView::Launch,
            ]
        } else {
            let said = seq![
                ActionView::Say(Mark::Failure, "build failed — "@ + decimal(outcome.errors@.len()) + " error(s)"@),
            ];
            let json = emit_if(
                emit,
                error_json(now, elapsed_ms, outcome.errors@.map_values(|e: BuildError| CompilerDiagnostic::spec_from_build_error(e))),
            );
            if cfg.terminal {
                said + json
            } else {
                json + said
            }
        },
        DevEvent::Launched { pid } => emit_if(emit, launched_json(now, pid, cfg.binary@)),
        DevEvent::LaunchFailed { error } => if cfg.terminal {
            seq![ActionView::Fail("failed to launch "@ + cfg.bin_name@ + ": "@ + error@)]
        } else {
            seq![ActionView::Say(Mark::Failure, "failed to launch "@ + cfg.bin_name@ + ": "@ + error@)]
        },
        DevEvent::Exited { code } => match st.child {
            Some(pid) => seq![ActionView::Say(Mark::Warn, "app exited ("@ + debug_code(code) + ")"@)] + emit_if(
                emit,
                exited_json(now, pid, code),
            ) + (if code is Some {
                seq![ActionView::Stop]
            } else {
                Seq::empty()
            }),
            None => Seq::empty(),
        },
        DevEvent::WaitFailed => Seq::empty(),
        DevEvent::Shutdown => (match st.child {
            Some(pid) => seq![ActionView::Kill(pid)] + emit_if(emit, exited_json(now, pid, None)),
            None => Seq::empty(),
        }) + seq![ActionView::Stop],
        DevEvent::Disconnected => seq![ActionView::Stop],
    }
}

/// The app's process after an event.
pub open spec fn spec_dev_child(st: DevLoopState, ev: DevEvent) -> Option<u32> {
    match ev {
        DevEvent::Begin => st.child,
        DevEvent::Launched { pid } => Some(pid),
        DevEvent::Finished { .. } => st.child,
        _ => None,
    }
}

/// Whether the loop has ended after an event.
pub open spec fn spec_dev_stopped(cfg: DevConfig, st: DevLoopState, ev: DevEvent) -> bool {
    match ev {
        DevEvent::Exited { code } => st.stopped || (st.child is Some && code is Some),
        DevEvent::LaunchFailed { .. } => st.stopped || cfg.terminal,
        DevEvent::Shutdown => true,
        DevEvent::Disconnected => true,
        _ => st.stopped,
    }
}

/// The status after an event: building on a (re)build, running or failed
/// after a build, failed when the app could not start, exited when it
/// exited; otherwise as it was.
pub open spec fn dev_status_after(st: DevLoopState, ev: DevEvent, status: DevStatus) -> bool {
    match ev {
        DevEvent::Begin => status == DevStatus::Building,
        DevEvent::Changed { .. } => status == DevStatus::Building,
        DevEvent::Finished { outcome, elapsed_ms } => if outcome.success {
            status == (DevStatus::Running { elapsed_ms })
        } else {
            status == (DevStatus::Failed { count: outcome.errors@.len() as usize, errors: outcome.errors })
        },
        DevEvent::LaunchFailed { error } => status is Failed && status->count == 1 && status->errors@.len() == 1
            && status->errors@[0].level@ == "error"@ && status->errors@[0].message@ == "Failed to launch binary: "@
            + error@ && status->errors@[0].file@ == Seq::<char>::empty() && status->errors@[0].line == 0
            && status->errors@[0].rendered is None,
        DevEvent::Exited { code } => if st.child is Some {
            status == (DevStatus::Exited { code })
        } else {
            status == st.status
        },
        _ => status == st.status,
    }
}

impl DevLoopState {
    /// The loop before it starts: no app running, starting, not ended.
    pub fn new() -> (r: Self)
        ensures
            r.child is None && r.status == DevStatus::Starting && !r.stopped,
    {
        DevLoopState { child: None, status: DevStatus::Starting, stopped: false }
    }
}

fn push_emit(actions: &mut Vec<DevAction>, emit: bool, json: String)
    ensures
        actions_view(final(actions)@) == actions_view(old(actions)@) + emit_if(emit, json@),
{
    let ghost before = actions_view(actions@);
    if emit {
        actions.push(DevAction::Emit(json));
    }
    assert(actions_view(actions@) =~= before + emit_if(emit, json@));
}

fn push_action(actions: &mut Vec<DevAction>, a: DevAction)
    ensures
        actions_view(final(actions)@) == actions_view(old(actions)@) + seq![action_view(a)],
{
    let ghost before = actions_view(actions@);
    let ghost av = action_view(a);
    actions.push(a);
    assert(actions_view(actions@) =~= before + seq![av]);
}

fn started_line(cfg: &DevConfig, now: u64) -> (r: String)
    ensures
        r@ == started_json(now, seq![cfg.src_dir@], Some("file_change"@)),
{
    let files = vec![cfg.src_dir.clone()];
    assert(sviews(files@) =~= seq![cfg.src_dir@]);
    let e = CompilerEvent::CompilationStarted { timestamp_ms: now, files, trigger: Some(to_owned_string("file_change")) };
    e.to_json()
}

fn exited_line(now: u64, pid: u32, code: Option<i32>) -> (r: String)
    ensures
        r@ == exited_json(now, pid, code),
{
    CompilerEvent::ProcessExited { timestamp_ms: now, pid, code }.to_json()
}

fn push_rebuild(actions: &mut Vec<DevAction>, cfg: &DevConfig, child: Option<u32>, emit: bool, now: u64)
    ensures
        actions_view(final(actions)@) == actions_view(old(actions)@) + rebuild_actions(*cfg, child, emit, now),
{
    let ghost before = actions_view(actions@);
    match child {
        Some(pid) => {
            push_action(actions, DevAction::Kill(pid));
            push_emit(actions, emit, exited_line(now, pid, None));
        },
        None => {},
    }
    let ghost mid = actions_view(actions@);
    push_emit(actions, emit, started_line(cfg, now));
    push_action(actions, DevAction::Build);
    assert(actions_view(actions@) =~= before + rebuild_actions(*cfg, child, emit, now));
}

fn diagnostics_of(errors: &Vec<BuildError>) -> (r: Vec<CompilerDiagnostic>)
    ensures
        r@ == errors@.map_values(|e: BuildError| CompilerDiagnostic::spec_from_build_error(e)),
{
    let mut r: Vec<CompilerDiagnostic> = Vec::new();
    let mut i: usize = 0;
    while i < errors.len()
        invariant
            i <= errors@.len(),
            r@ == errors@.take(i as int).map_values(|e: BuildError| CompilerDiagnostic::spec_from_build_error(e)),
        decreases errors@.len() - i,
    {
        let e = &errors[i];
        let rendered = match &e.rendered {
            Some(x) => Some(x.clone()),
            None => None,
        };
        let d = CompilerDiagnostic {
            level: e.level.clone(),
            message: e.message.clone(),
            file: e.file.clone(),
            line: e.line,
            column: None,
            rendered,
        };
        r.push(d);
        assert(errors@.take(i + 1) =~= errors@.take(i as int).push(errors@[i as int]));
        assert(r@ =~= errors@.take(i + 1).map_values(|e: BuildError| CompilerDiagnostic::spec_from_build_error(e)));
        i = i + 1;
    }
    assert(errors@.take(errors@.len() as int) =~= errors@);
    r
}

/// The first actions of the loop, before it starts: beside the status
/// window, the start of the dev server is reported (watching `src` and
/// Cargo.toml).
pub fn dev_start(cfg: &DevConfig, emit: bool, now: u64) -> (r: Vec<DevAction>)
    ensures
        actions_view(r@) == (if cfg.terminal {
            Seq::<ActionView>::empty()
        } else {
            emit_if(emit, server_json(now, cfg.bin_name@, seq![cfg.src_dir@, cfg.manifest_path@]))
        }),
{
    let mut r: Vec<DevAction> = Vec::new();
    if !cfg.terminal {
        let paths = vec![cfg.src_dir.clone(), cfg.manifest_path.clone()];
        assert(sviews(paths@) =~= seq![cfg.src_dir@, cfg.manifest_path@]);
        let e = CompilerEvent::DevServerStarted { timestamp_ms: now, project: cfg.bin_name.clone(), watch_paths: paths };
        push_emit(&mut r, emit, e.to_json());
    } else {
        assert(actions_view(r@) =~= Seq::<ActionView>::empty());
    }
    r
}

/// One step of the loop: from where it stands and what happened (at time
/// `now`, in ms), where it stands next and what the caller is to do.
pub fn dev_step(cfg: &DevConfig, state: DevLoopState, event: DevEvent, emit: bool, now: u64) -> (r: (DevLoopState, Vec<DevAction>))
    ensures
        actions_view(r.1@) == spec_dev_actions(*cfg, state, event, emit, now),
        r.0.child == spec_dev_child(state, event),
        r.0.stopped == spec_dev_stopped(*cfg, state, event),
        dev_status_after(state, event, r.0.status),
{
    let ghost st0 = state;
    let ghost ev0 = event;
    let mut actions: Vec<DevAction> = Vec::new();
    assert(actions_view(actions@) =~= Seq::<ActionView>::empty());
    let DevLoopState { child, status, stopped } = state;
    match event {
        DevEvent::Begin => {
            push_rebuild(&mut actions, cfg, None, emit, now);
            (DevLoopState { child, status: DevStatus::Building, stopped }, actions)
        },
        DevEvent::Changed { path } => {
            if !cfg.terminal {
                push_emit(&mut actions, emit, CompilerEvent::FileChanged { timestamp_ms: now, path }.to_json());
            }
            push_action(&mut actions, DevAction::Debounce);
            push_action(&mut actions, DevAction::Say(Mark::Arrow, to_owned_string("change detected — rebuilding…")));
            push_rebuild(&mut actions, cfg, child, emit, now);
            assert(actions_view(actions@) =~= spec_dev_actions(*cfg, st0, ev0, emit, now));
            (DevLoopState { child: None, status: DevStatus::Building, stopped }, actions)
        },
        DevEvent::Finished { outcome, elapsed_ms } => {
            if outcome.success {
                let e = CompilerEvent::CompilationSuccess {
                    timestamp_ms: now,
                    duration_ms: elapsed_ms,
                    output: cfg.binary.clone(),
                };
                push_emit(&mut actions, emit, e.to_json());
                let mut m = to_owned_string("built in ");
                push_decimal(&mut m, elapsed_ms);
                push_str(&mut m, " ms — launching ");
                push_str(&mut m, cfg.bin_name.as_str());
                push_action(&mut actions, DevAction::Say(Mark::Done, m));
                push_action(&mut actions, DevAction::Launch);
                assert(actions_view(actions@) =~= spec_dev_actions(*cfg, st0, ev0, emit, now));
                (DevLoopState { child, status: DevStatus::Running { elapsed_ms }, stopped }, actions)
            } else {
                let count = outcome.errors.len();
                let mut m = to_owned_string("build failed — ");
                push_decimal(&mut m, count as u64);
                push_str(&mut m, " error(s)");
                let diags = diagnostics_of(&outcome.errors);
                let json = CompilerEvent::CompilationError { timestamp_ms: now, duration_ms: elapsed_ms, errors: diags }.to_json();
                if cfg.terminal {
                    push_action(&mut actions, DevAction::Say(Mark::Failure, m));
                    push_emit(&mut actions, emit, json);
                } else {
                    push_emit(&mut actions, emit, json);
                    push_action(&mut actions, DevAction::Say(Mark::Failure, m));
                }
                assert(actions_view(actions@) =~= spec_dev_actions(*cfg, st0, ev0, emit, now));
                (DevLoopState { child, status: DevStatus::Failed { errors: outcome.errors, count }, stopped }, actions)
            }
        },
        DevEvent::Launched { pid } => {
            let e = CompilerEvent::ProcessLaunched { timestamp_ms: now, pid, binary: cfg.binary.clone() };
            push_emit(&mut actions, emit, e.to_json());
            (DevLoopState { child: Some(pid), status, stopped }, actions)
        },
        DevEvent::LaunchFailed { error } => {
            let mut m = to_owned_string("failed to launch ");
            push_str(&mut m, cfg.bin_name.as_str());
            push_str(&mut m, ": ");
            push_str(&mut m, error.as_str());
            let status = launch_failure_status(error.as_str());
            if cfg.terminal {
                push_action(&mut actions, DevAction::Fail(m));
            } else {
                push_action(&mut actions, DevAction::Say(Mark::Failure, m));
            }
            (DevLoopState { child: None, status, stopped: stopped || cfg.terminal }, actions)
        },
        DevEvent::Exited { code } => match child {
            Some(pid) => {
                let mut m = to_owned_string("app exited (");
                match code {
                    Some(c) => {
                        push_str(&mut m, "Some(");
                        push_signed_decimal(&mut m, c as i64);
                        push_str(&mut m, ")");
                    },
                    None => push_str(&mut m, "None"),
                }
                push_str(&mut m, ")");
                assert(m@ =~= "app exited ("@ + debug_code(code) + ")"@);
                push_action(&mut actions, DevAction::Say(Mark::Warn, m));
                push_emit(&mut actions, emit, exited_line(now, pid, code));
                if code.is_some() {
                    push_action(&mut actions, DevAction::Stop);
                }
                assert(actions_view(actions@) =~= spec_dev_actions(*cfg, st0, ev0, emit, now));
                (DevLoopState { child: None, status: DevStatus::Exited { code }, stopped: stopped || code.is_some() }, actions)
            },
            None => (DevLoopState { child: None, status, stopped }, actions),
        },
        DevEvent::WaitFailed => (DevLoopState { child: None, status, stopped }, actions),
        DevEvent::Shutdown => {
            match child {
                Some(pid) => {
                    push_action(&mut actions, DevAction::Kill(pid));
                    push_emit(&mut actions, emit, exited_line(now, pid, None));
                },
                None => {},
            }
            push_action(&mut actions, DevAction::Stop);
            assert(actions_view(actions@) =~= spec_dev_actions(*cfg, st0, ev0, emit, now));
            (DevLoopState { child: None, status, stopped: true }, actions)
        },
        DevEvent::Disconnected => {
            push_action(&mut actions, DevAction::Stop);
            (DevLoopState { child: None, status, stopped: true }, actions)
        },
    }
}


// ── laws of the loop ───────────────────────────────────────────────────────

/// Closing the window while the app runs kills the app, then ends the loop:
/// the first action kills the recorded process, the last one stops, and
/// no process is recorded afterwards.
pub proof fn law_shutdown_kills_the_running_app(cfg: DevConfig, st: DevLoopState, emit: bool, now: u64, pid: u32)
    requires
        st.child == Some(pid),
    ensures
        ({
            let a = spec_dev_actions(cfg, st, DevEvent::Shutdown, emit, now);
            &&& a.len() >= 2
            &&& a[0] == ActionView::Kill(pid)
            &&& a.last() == ActionView::Stop
            &&& forall|i: int| 0 <= i < a.len() - 1 ==> a[i] != ActionView::Stop
        }),
        spec_dev_child(st, DevEvent::Shutdown) is None,
        spec_dev_stopped(cfg, st, DevEvent::Shutdown),
{
    let a = spec_dev_actions(cfg, st, DevEvent::Shutdown, emit, now);
    if emit {
        assert(a =~= seq![ActionView::Kill(pid), ActionView::Emit(exited_json(now, pid, None)), ActionView::Stop]);
    } else {
        assert(a =~= seq![ActionView::Kill(pid), ActionView::Stop]);
    }
}

/// A change while the app runs rebuilds from scratch: the old app is killed
/// before the build starts, and the build is the last thing done.
pub proof fn law_rebuild_kills_the_old_app_first(cfg: DevConfig, st: DevLoopState, path: String, emit: bool, now: u64, pid: u32)
    requires
        st.child == Some(pid),
    ensures
        ({
            let a = spec_dev_actions(cfg, st, DevEvent::Changed { path }, emit, now);
            &&& a.last() == ActionView::Build
            &&& exists|k: int| 0 <= k < a.len() - 1 && a[k] == ActionView::Kill(pid)
        }),
{
    let a = spec_dev_actions(cfg, st, DevEvent::Changed { path }, emit, now);
    let pre = (if cfg.terminal {
        Seq::empty()
    } else {
        emit_if(emit, changed_json(now, path@))
    }) + seq![ActionView::Debounce, ActionView::Say(Mark::Arrow, "change detected — rebuilding…"@)];
    let rb = rebuild_actions(cfg, st.child, emit, now);
    assert(a == pre + rb);
    assert(rb[0] == ActionView::Kill(pid));
    assert(a[pre.len() as int] == ActionView::Kill(pid));
}

/// Whatever happens, the loop only ever kills the process it recorded, and
/// an action that ends the loop comes last.
pub proof fn law_steps_kill_only_their_app_and_stop_last(cfg: DevConfig, st: DevLoopState, ev: DevEvent, emit: bool, now: u64)
    ensures
        ({
            let a = spec_dev_actions(cfg, st, ev, emit, now);
            &&& forall|i: int| 0 <= i < a.len() && (#[trigger] a[i]) is Kill ==> st.child == Some(a[i]->Kill_0)
            &&& forall|i: int| 0 <= i < a.len() - 1 ==> (#[trigger] a[i]) != ActionView::Stop
        }),
{
    let a = spec_dev_actions(cfg, st, ev, emit, now);
    match ev {
        DevEvent::Begin => {
            let e = emit_if(emit, started_json(now, seq![cfg.src_dir@], Some("file_change"@)));
            assert(a =~= e + seq![ActionView::Build]);
        },
        DevEvent::Changed { path } => {
            let pre = (if cfg.terminal {
                Seq::empty()
            } else {
                emit_if(emit, changed_json(now, path@))
            }) + seq![ActionView::Debounce, ActionView::Say(Mark::Arrow, "change detected — rebuilding…"@)];
            let k = match st.child {
                Some(pid) => seq![ActionView::Kill(pid)] + emit_if(emit, exited_json(now, pid, None)),
                None => Seq::empty(),
            };
            let e = emit_if(emit, started_json(now, seq![cfg.src_dir@], Some("file_change"@)));
            assert(a =~= pre + k + e + seq![ActionView::Build]);
            assert forall|i: int| 0 <= i < a.len() && (#[trigger] a[i]) is Kill implies st.child == Some(a[i]->Kill_0) by {
                if i < pre.len() {
                    assert(a[i] == pre[i]);
                } else if i < pre.len() + k.len() {
                    assert(a[i] == k[i - pre.len()]);
                } else if i < pre.len() + k.len() + e.len() {
                    assert(a[i] == e[i - pre.len() - k.len()]);
                }
            }
            assert forall|i: int| 0 <= i < a.len() - 1 implies (#[trigger] a[i]) != ActionView::Stop by {
                if i < pre.len() {
                    assert(a[i] == pre[i]);
                } else if i < pre.len() + k.len() {
                    assert(a[i] == k[i - pre.len()]);
                } else {
                    assert(a[i] == e[i - pre.len() - k.len()]);
                }
            }
        },
        DevEvent::Finished { outcome, elapsed_ms } => {},
        DevEvent::Launched { pid } => {},
        DevEvent::LaunchFailed { error } => {},
        DevEvent::Exited { code } => {
            match st.child {
                Some(pid) => {
                    let w = seq![ActionView::Say(Mark::Warn, "app exited ("@ + debug_code(code) + ")"@)];
                    let e = emit_if(emit, exited_json(now, pid, code));
                    let s = if code is Some { seq![ActionView::Stop] } else { Seq::<ActionView>::empty() };
                    assert(a =~= w + e + s);
                },
                None => {},
            }
        },
        DevEvent::WaitFailed => {},
        DevEvent::Shutdown => {
            match st.child {
                Some(pid) => {
                    let e = emit_if(emit, exited_json(now, pid, None));
                    assert(a =~= seq![ActionView::Kill(pid)] + e + seq![ActionView::Stop]);
                },
                None => {
                    assert(a =~= seq![ActionView::Stop]);
                },
            }
        },
        DevEvent::Disconnected => {},
    }
}

} // verus!
