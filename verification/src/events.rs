//! Structured compiler events of `crepus dev --emit-events`, for editors and
//! IDEs. Each constructor stamps the event with the current time; `to_json`
//! gives the JSON line written for an event.
use vstd::prelude::*;
use crate::json::{json_string, json_string_array, push_json_string, push_json_string_array};
use crate::num::{decimal, push_decimal, push_signed_decimal, signed_decimal};
use crate::text::{push_str, sviews};

verus! {

/// A build diagnostic as the build step reports it.
#[derive(Clone, Debug, PartialEq, Eq)]
pub struct BuildError {
    pub level: String,
    pub message: String,
    pub file: String,
    pub line: u32,
    pub rendered: Option<String>,
}

/// A compiler diagnostic (error or warning).
#[derive(Clone, Debug, PartialEq, Eq)]
pub struct CompilerDiagnostic {
    pub level: String,
    pub message: String,
    pub file: String,
    pub line: u32,
    pub column: Option<u32>,
    pub rendered: Option<String>,
}

impl CompilerDiagnostic {
    /// The diagnostic of a build error: the same fields, with no column.
    pub open spec fn spec_from_build_error(err: BuildError) -> CompilerDiagnostic {
        CompilerDiagnostic {
            level: err.level,
            message: err.message,
            file: err.file,
            line: err.line,
            column: None,
            rendered: err.rendered,
        }
    }
}

impl From<BuildError> for CompilerDiagnostic {
    fn from(err: BuildError) -> (r: Self) {
        CompilerDiagnostic {
            level: err.level,
            message: err.message,
            file: err.file,
            line: err.line,
            column: None,
            rendered: err.rendered,
        }
    }
}

impl vstd::std_specs::convert::FromSpecImpl<BuildError> for CompilerDiagnostic {
    open spec fn obeys_from_spec() -> bool {
        true
    }

    open spec fn from_spec(err: BuildError) -> Self {
        CompilerDiagnostic::spec_from_build_error(err)
    }
}

/// What happened during a dev session, with the time it happened at (ms
/// since the Unix epoch).
#[derive(Clone, Debug, PartialEq, Eq)]
pub enum CompilerEvent {
    CompilationStarted { timestamp_ms: u64, files: Vec<String>, trigger: Option<String> },
    CompilationSuccess { timestamp_ms: u64, duration_ms: u64, output: String },
    CompilationError { timestamp_ms: u64, duration_ms: u64, errors: Vec<CompilerDiagnostic> },
    FileChanged { timestamp_ms: u64, path: String },
    DevServerStarted { timestamp_ms: u64, project: String, watch_paths: Vec<String> },
    ProcessLaunched { timestamp_ms: u64, pid: u32, binary: String },
    ProcessExited { timestamp_ms: u64, pid: u32, code: Option<i32> },
}

/// Milliseconds from the epoch to the system clock's present, as
/// `SystemTime::now().duration_since(UNIX_EPOCH)` gives them (0 for a clock
/// set before the epoch). Nothing is stated of the value: it is the time.
#[verifier::external_body]
fn system_time_ms() -> (r: u64) {
    std::time::SystemTime::now()
        .duration_since(std::time::UNIX_EPOCH)
        .map(|d| d.as_millis() as u64)
        .unwrap_or(0)
}

impl CompilerEvent {
    /// The current time in milliseconds since the Unix epoch.
    pub fn now_ms() -> (r: u64) {
        system_time_ms()
    }

    /// Compilation started on `files`, for the reason `trigger`.
    pub fn compilation_started(files: Vec<String>, trigger: Option<String>) -> (r: Self)
        ensures
            r is CompilationStarted,
            r->CompilationStarted_files == files,
            r->CompilationStarted_trigger == trigger,
    {
        CompilerEvent::CompilationStarted { timestamp_ms: Self::now_ms(), files, trigger }
    }

    /// Compilation succeeded after `duration_ms`, producing `output`.
    pub fn compilation_success(duration_ms: u64, output: String) -> (r: Self)
        ensures
            r is CompilationSuccess,
            r->CompilationSuccess_duration_ms == duration_ms,
            r->CompilationSuccess_output == output,
    {
        CompilerEvent::CompilationSuccess { timestamp_ms: Self::now_ms(), duration_ms, output }
    }

    /// Compilation failed after `duration_ms` with `errors`, each turned
    /// into a diagnostic, in order.
    pub fn compilation_error(duration_ms: u64, errors: Vec<BuildError>) -> (r: Self)
        ensures
            r is CompilationError,
            r->CompilationError_duration_ms == duration_ms,
            r->CompilationError_errors@.len() == errors@.len(),
            forall|i: int| 0 <= i < errors@.len() ==> #[trigger] r->CompilationError_errors@[i]
                == CompilerDiagnostic::spec_from_build_error(errors@[i]),
    {
        let mut diags: Vec<CompilerDiagnostic> = Vec::new();
        let mut rest = errors;
        let ghost all = rest@;
        let mut i: usize = 0;
        let n = rest.len();
        // Take the errors from the back and restore their order afterwards.
        let mut taken: Vec<BuildError> = Vec::new();
        while rest.len() > 0
            invariant
                n == all.len(),
                rest@ == all.subrange(0, rest@.len() as int),
                taken@.len() + rest@.len() == n,
                forall|j: int| 0 <= j < taken@.len() ==> #[trigger] taken@[j] == all[n - 1 - j],
            decreases rest@.len(),
        {
            let e = rest.pop().unwrap();
            taken.push(e);
        }
        while taken.len() > 0
            invariant
                n == all.len(),
                i == diags@.len(),
                taken@.len() + i == n,
                forall|j: int| 0 <= j < taken@.len() ==> #[trigger] taken@[j] == all[n - 1 - j],
                forall|j: int| 0 <= j < i ==> #[trigger] diags@[j]
                    == CompilerDiagnostic::spec_from_build_error(all[j]),
            decreases taken@.len(),
        {
            let e = taken.pop().unwrap();
            assert(e == all[i as int]);
            diags.push(CompilerDiagnostic::from(e));
            i = i + 1;
        }
        CompilerEvent::CompilationError { timestamp_ms: Self::now_ms(), duration_ms, errors: diags }
    }

    /// A change to the file at `path` was seen.
    pub fn file_changed(path: String) -> (r: Self)
        ensures
            r is FileChanged,
            r->FileChanged_path == path,
    {
        CompilerEvent::FileChanged { timestamp_ms: Self::now_ms(), path }
    }

    /// The dev server of `project` started, watching `watch_paths`.
    pub fn dev_server_started(project: String, watch_paths: Vec<String>) -> (r: Self)
        ensures
            r is DevServerStarted,
            r->DevServerStarted_project == project,
            r->DevServerStarted_watch_paths == watch_paths,
    {
        CompilerEvent::DevServerStarted { timestamp_ms: Self::now_ms(), project, watch_paths }
    }

    /// The child process `pid` was started from `binary`.
    pub fn process_launched(pid: u32, binary: String) -> (r: Self)
        ensures
            r is ProcessLaunched,
            r->ProcessLaunched_pid == pid,
            r->ProcessLaunched_binary == binary,
    {
        CompilerEvent::ProcessLaunched { timestamp_ms: Self::now_ms(), pid, binary }
    }

    /// The child process `pid` exited, with `code` when it had one.
    pub fn process_exited(pid: u32, code: Option<i32>) -> (r: Self)
        ensures
            r is ProcessExited,
            r->ProcessExited_pid == pid,
            r->ProcessExited_code == code,
    {
        CompilerEvent::ProcessExited { timestamp_ms: Self::now_ms(), pid, code }
    }
}

// ── JSON ───────────────────────────────────────────────────────────────────

/// A diagnostic as a JSON object: level, message, file and line, then the
/// column and the rendering when there are.
pub open spec fn diagnostic_json(d: CompilerDiagnostic) -> Seq<char> {
    "{\"level\":"@ + json_string(d.level@) + ",\"message\":"@ + json_string(d.message@) + ",\"file\":"@
        + json_string(d.file@) + ",\"line\":"@ + decimal(d.line as nat) + match d.column {
        Some(c) => ",\"column\":"@ + decimal(c as nat),
        None => Seq::empty(),
    } + match d.rendered {
        Some(r) => ",\"rendered\":"@ + json_string(r@),
        None => Seq::empty(),
    } + "}"@
}

/// The diagnostics as JSON objects, separated by commas.
pub open spec fn diagnostic_items(ds: Seq<CompilerDiagnostic>) -> Seq<char>
    decreases ds.len(),
{
    if ds.len() == 0 {
        Seq::empty()
    } else if ds.len() == 1 {
        diagnostic_json(ds[0])
    } else {
        diagnostic_items(ds.drop_last()) + ","@ + diagnostic_json(ds.last())
    }
}

/// The JSON line of a `compilation_started` event.
pub open spec fn started_json(t: u64, files: Seq<Seq<char>>, trigger: Option<Seq<char>>) -> Seq<char> {
    "{\"event\":\"compilation_started\",\"timestamp_ms\":"@ + decimal(t as nat) + ",\"files\":"@ + json_string_array(files)
        + match trigger {
        Some(x) => ",\"trigger\":"@ + json_string(x),
        None => Seq::empty(),
    } + "}"@
}

/// The JSON line of a `compilation_success` event.
pub open spec fn success_json(t: u64, duration_ms: u64, output: Seq<char>) -> Seq<char> {
    "{\"event\":\"compilation_success\",\"timestamp_ms\":"@ + decimal(t as nat) + ",\"duration_ms\":"@ + decimal(
        duration_ms as nat,
    ) + ",\"output\":"@ + json_string(output) + "}"@
}

/// The JSON line of a `compilation_error` event.
pub open spec fn error_json(t: u64, duration_ms: u64, errors: Seq<CompilerDiagnostic>) -> Seq<char> {
    "{\"event\":\"compilation_error\",\"timestamp_ms\":"@ + decimal(t as nat) + ",\"duration_ms\":"@ + decimal(
        duration_ms as nat,
    ) + ",\"errors\":["@ + diagnostic_items(errors) + "]}"@
}

/// The JSON line of a `file_changed` event.
pub open spec fn changed_json(t: u64, path: Seq<char>) -> Seq<char> {
    "{\"event\":\"file_changed\",\"timestamp_ms\":"@ + decimal(t as nat) + ",\"path\":"@ + json_string(path) + "}"@
}

/// The JSON line of a `dev_server_started` event.
pub open spec fn server_json(t: u64, project: Seq<char>, watch_paths: Seq<Seq<char>>) -> Seq<char> {
    "{\"event\":\"dev_server_started\",\"timestamp_ms\":"@ + decimal(t as nat) + ",\"project\":"@ + json_string(project)
        + ",\"watch_paths\":"@ + json_string_array(watch_paths) + "}"@
}

/// The JSON line of a `process_launched` event.
pub open spec fn launched_json(t: u64, pid: u32, binary: Seq<char>) -> Seq<char> {
    "{\"event\":\"process_launched\",\"timestamp_ms\":"@ + decimal(t as nat) + ",\"pid\":"@ + decimal(pid as nat)
        + ",\"binary\":"@ + json_string(binary) + "}"@
}

/// The JSON line of a `process_exited` event; a missing code is `null`.
pub open spec fn exited_json(t: u64, pid: u32, code: Option<i32>) -> Seq<char> {
    "{\"event\":\"process_exited\",\"timestamp_ms\":"@ + decimal(t as nat) + ",\"pid\":"@ + decimal(pid as nat)
        + ",\"code\":"@ + match code {
        Some(c) => signed_decimal(c as int),
        None => "null"@,
    } + "}"@
}

/// The JSON line of an event: an object whose `event` names the kind in
/// snake case, then the event's fields in order (a missing trigger left
/// out, a missing exit code `null`).
pub open spec fn spec_event_json(e: CompilerEvent) -> Seq<char> {
    match e {
        CompilerEvent::CompilationStarted { timestamp_ms, files, trigger } => started_json(
            timestamp_ms,
            sviews(files@),
            match trigger {
                Some(x) => Some(x@),
                None => None,
            },
        ),
        CompilerEvent::CompilationSuccess { timestamp_ms, duration_ms, output } => success_json(
            timestamp_ms,
            duration_ms,
            output@,
        ),
        CompilerEvent::CompilationError { timestamp_ms, duration_ms, errors } => error_json(
            timestamp_ms,
            duration_ms,
            errors@,
        ),
        CompilerEvent::FileChanged { timestamp_ms, path } => changed_json(timestamp_ms, path@),
        CompilerEvent::DevServerStarted { timestamp_ms, project, watch_paths } => server_json(
            timestamp_ms,
            project@,
            sviews(watch_paths@),
        ),
        CompilerEvent::ProcessLaunched { timestamp_ms, pid, binary } => launched_json(timestamp_ms, pid, binary@),
        CompilerEvent::ProcessExited { timestamp_ms, pid, code } => exited_json(timestamp_ms, pid, code),
    }
}

fn push_diagnostic(out: &mut String, d: &CompilerDiagnostic)
    ensures
        final(out)@ == old(out)@ + diagnostic_json(*d),
{
    let ghost o = out@;
    push_str(out, "{\"level\":");
    push_json_string(out, d.level.as_str());
    push_str(out, ",\"message\":");
    push_json_string(out, d.message.as_str());
    push_str(out, ",\"file\":");
    push_json_string(out, d.file.as_str());
    push_str(out, ",\"line\":");
    push_decimal(out, d.line as u64);
    let ghost o2 = out@;
    match d.column {
        Some(c) => {
            push_str(out, ",\"column\":");
            push_decimal(out, c as u64);
        },
        None => {},
    }
    let ghost o3 = out@;
    match &d.rendered {
        Some(r) => {
            push_str(out, ",\"rendered\":");
            push_json_string(out, r.as_str());
        },
        None => {},
    }
    push_str(out, "}");
    assert(out@ =~= o + diagnostic_json(*d));
}

impl CompilerEvent {
    /// The JSON line of this event (see `spec_event_json`).
    pub fn to_json(&self) -> (r: String)
        ensures
            r@ == spec_event_json(*self),
    {
        let mut out = String::new();
        match self {
            CompilerEvent::CompilationStarted { timestamp_ms, files, trigger } => {
                push_str(&mut out, "{\"event\":\"compilation_started\",\"timestamp_ms\":");
                push_decimal(&mut out, *timestamp_ms);
                push_str(&mut out, ",\"files\":");
                push_json_string_array(&mut out, files);
                match trigger {
                    Some(t) => {
                        push_str(&mut out, ",\"trigger\":");
                        push_json_string(&mut out, t.as_str());
                    },
                    None => {},
                }
                push_str(&mut out, "}");
            },
            CompilerEvent::CompilationSuccess { timestamp_ms, duration_ms, output } => {
                push_str(&mut out, "{\"event\":\"compilation_success\",\"timestamp_ms\":");
                push_decimal(&mut out, *timestamp_ms);
                push_str(&mut out, ",\"duration_ms\":");
                push_decimal(&mut out, *duration_ms);
                push_str(&mut out, ",\"output\":");
                push_json_string(&mut out, output.as_str());
                push_str(&mut out, "}");
            },
            CompilerEvent::CompilationError { timestamp_ms, duration_ms, errors } => {
                push_str(&mut out, "{\"event\":\"compilation_error\",\"timestamp_ms\":");
                push_decimal(&mut out, *timestamp_ms);
                push_str(&mut out, ",\"duration_ms\":");
                push_decimal(&mut out, *duration_ms);
                push_str(&mut out, ",\"errors\":[");
                let ghost pre = out@;
                let mut i: usize = 0;
                while i < errors.len()
                    invariant
                        i <= errors@.len(),
                        out@ == pre + diagnostic_items(errors@.take(i as int)),
                    decreases errors@.len() - i,
                {
                    assert(errors@.take(i + 1).drop_last() =~= errors@.take(i as int));
                    if i > 0 {
                        push_str(&mut out, ",");
                    } else {
                        assert(errors@.take(1) =~= seq![errors@[0]]);
                    }
                    push_diagnostic(&mut out, &errors[i]);
                    i = i + 1;
                }
                assert(errors@.take(errors@.len() as int) =~= errors@);
                push_str(&mut out, "]}");
            },
            CompilerEvent::FileChanged { timestamp_ms, path } => {
                push_str(&mut out, "{\"event\":\"file_changed\",\"timestamp_ms\":");
                push_decimal(&mut out, *timestamp_ms);
                push_str(&mut out, ",\"path\":");
                push_json_string(&mut out, path.as_str());
                push_str(&mut out, "}");
            },
            CompilerEvent::DevServerStarted { timestamp_ms, project, watch_paths } => {
                push_str(&mut out, "{\"event\":\"dev_server_started\",\"timestamp_ms\":");
                push_decimal(&mut out, *timestamp_ms);
                push_str(&mut out, ",\"project\":");
                push_json_string(&mut out, project.as_str());
                push_str(&mut out, ",\"watch_paths\":");
                push_json_string_array(&mut out, watch_paths);
                push_str(&mut out, "}");
            },
            CompilerEvent::ProcessLaunched { timestamp_ms, pid, binary } => {
                push_str(&mut out, "{\"event\":\"process_launched\",\"timestamp_ms\":");
                push_decimal(&mut out, *timestamp_ms);
                push_str(&mut out, ",\"pid\":");
                push_decimal(&mut out, *pid as u64);
                push_str(&mut out, ",\"binary\":");
                push_json_string(&mut out, binary.as_str());
                push_str(&mut out, "}");
            },
            CompilerEvent::ProcessExited { timestamp_ms, pid, code } => {
                push_str(&mut out, "{\"event\":\"process_exited\",\"timestamp_ms\":");
                push_decimal(&mut out, *timestamp_ms);
                push_str(&mut out, ",\"pid\":");
                push_decimal(&mut out, *pid as u64);
                push_str(&mut out, ",\"code\":");
                match code {
                    Some(c) => push_signed_decimal(&mut out, *c as i64),
                    None => push_str(&mut out, "null"),
                }
                push_str(&mut out, "}");
            },
        }
        out
    }
}

} // verus!
