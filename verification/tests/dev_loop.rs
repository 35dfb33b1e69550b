use crepuscularity_cli::builder::BuildOutcome;
use crepuscularity_cli::dev::{dev_start, dev_step, DevAction, DevConfig, DevEvent, DevLoopState, Mark};
use crepuscularity_cli::events::{BuildError, CompilerEvent};
use crepuscularity_cli::hud::DevStatus;
use crepuscularity_cli::json::push_json_string;

fn cfg(terminal: bool) -> DevConfig {
    DevConfig {
        terminal,
        bin_name: "app".to_string(),
        binary: "/p/target/debug/app".to_string(),
        src_dir: "/p/src".to_string(),
        manifest_path: "/p/Cargo.toml".to_string(),
    }
}

#[test]
fn test_event_serialization() {
    let event = CompilerEvent::compilation_started(vec!["src/main.rs".to_string()], Some("file_change".to_string()));
    let json = event.to_json();
    assert!(json.contains("\"event\":\"compilation_started\""));
    assert!(json.contains("src/main.rs"));
}

#[test]
fn test_error_event() {
    let errors = vec![BuildError {
        level: "error".to_string(),
        message: "cannot find value `x`".to_string(),
        file: "src/lib.rs".to_string(),
        line: 42,
        rendered: None,
    }];
    let event = CompilerEvent::compilation_error(150, errors);
    let json = event.to_json();
    assert!(json.contains("\"event\":\"compilation_error\""));
    assert!(json.contains("cannot find value"));
}

#[test]
fn events_serialize_exactly() {
    let e = CompilerEvent::CompilationStarted { timestamp_ms: 5, files: vec!["a\"b".to_string(), "c".to_string()], trigger: None };
    assert_eq!(e.to_json(), r#"{"event":"compilation_started","timestamp_ms":5,"files":["a\"b","c"]}"#);
    let e = CompilerEvent::ProcessExited { timestamp_ms: 1, pid: 7, code: None };
    assert_eq!(e.to_json(), r#"{"event":"process_exited","timestamp_ms":1,"pid":7,"code":null}"#);
    let e = CompilerEvent::ProcessExited { timestamp_ms: 1, pid: 7, code: Some(-2) };
    assert_eq!(e.to_json(), r#"{"event":"process_exited","timestamp_ms":1,"pid":7,"code":-2}"#);
    let e = CompilerEvent::compilation_error(3, vec![BuildError {
        level: "error".to_string(),
        message: "m\n".to_string(),
        file: "f".to_string(),
        line: 2,
        rendered: Some("r".to_string()),
    }]);
    let json = e.to_json();
    assert!(json.ends_with(r#","duration_ms":3,"errors":[{"level":"error","message":"m\n","file":"f","line":2,"rendered":"r"}]}"#));
    let e = CompilerEvent::DevServerStarted { timestamp_ms: 9, project: "app".to_string(), watch_paths: vec!["s".to_string()] };
    assert_eq!(e.to_json(), r#"{"event":"dev_server_started","timestamp_ms":9,"project":"app","watch_paths":["s"]}"#);
}

#[test]
fn json_strings_escape_as_serde_json_does() {
    let mut s = String::new();
    push_json_string(&mut s, "q\"b\\\u{1}\t\u{7f}é");
    assert_eq!(s, serde_json::to_string("q\"b\\\u{1}\t\u{7f}é").unwrap());
}

#[test]
fn the_dev_loop_builds_launches_and_rebuilds() {
    let c = cfg(false);
    assert_eq!(dev_start(&cfg(true), true, 1), Vec::new());
    assert_eq!(dev_start(&c, true, 1).len(), 1);
    let (s, a) = dev_step(&c, DevLoopState::new(), DevEvent::Begin, false, 1);
    assert_eq!(a, vec![DevAction::Build]);
    assert_eq!(s.status, DevStatus::Building);
    let ok = BuildOutcome { success: true, errors: Vec::new() };
    let (s, a) = dev_step(&c, s, DevEvent::Finished { outcome: ok, elapsed_ms: 42 }, false, 2);
    assert_eq!(a, vec![DevAction::Say(Mark::Done, "built in 42 ms — launching app".to_string()), DevAction::Launch]);
    assert_eq!(s.status, DevStatus::Running { elapsed_ms: 42 });
    let (s, a) = dev_step(&c, s, DevEvent::Launched { pid: 9 }, true, 3);
    assert_eq!(s.child, Some(9));
    assert_eq!(a, vec![DevAction::Emit(r#"{"event":"process_launched","timestamp_ms":3,"pid":9,"binary":"/p/target/debug/app"}"#.to_string())]);
    let (s, a) = dev_step(&c, s, DevEvent::Changed { path: "/p/src/main.rs".to_string() }, false, 4);
    assert_eq!(
        a,
        vec![
            DevAction::Debounce,
            DevAction::Say(Mark::Arrow, "change detected — rebuilding…".to_string()),
            DevAction::Kill(9),
            DevAction::Build,
        ]
    );
    assert_eq!(s.child, None);
    let e = BuildError { level: "error".to_string(), message: "x".to_string(), file: String::new(), line: 0, rendered: None };
    let failed = BuildOutcome { success: false, errors: vec![e.clone()] };
    let (s, a) = dev_step(&cfg(true), s, DevEvent::Finished { outcome: failed, elapsed_ms: 5 }, false, 5);
    assert_eq!(a, vec![DevAction::Say(Mark::Failure, "build failed — 1 error(s)".to_string())]);
    assert_eq!(s.status, DevStatus::Failed { errors: vec![e], count: 1 });
    assert!(!s.stopped);
}

#[test]
fn the_dev_loop_ends_when_the_app_exits_with_a_code() {
    let c = cfg(true);
    let running = DevLoopState { child: Some(4), status: DevStatus::Running { elapsed_ms: 1 }, stopped: false };
    let (s, a) = dev_step(&c, running.clone(), DevEvent::Exited { code: Some(0) }, false, 1);
    assert_eq!(a, vec![DevAction::Say(Mark::Warn, "app exited (Some(0))".to_string()), DevAction::Stop]);
    assert!(s.stopped);
    assert_eq!(s.status, DevStatus::Exited { code: Some(0) });
    let (s, a) = dev_step(&c, running.clone(), DevEvent::Exited { code: None }, false, 1);
    assert_eq!(a, vec![DevAction::Say(Mark::Warn, "app exited (None)".to_string())]);
    assert!(!s.stopped);
    let (s, a) = dev_step(&c, running, DevEvent::LaunchFailed { error: "denied".to_string() }, false, 1);
    assert_eq!(a, vec![DevAction::Fail("failed to launch app: denied".to_string())]);
    assert!(s.stopped);
    let (s, a) = dev_step(&cfg(false), DevLoopState::new(), DevEvent::Disconnected, false, 1);
    assert_eq!(a, vec![DevAction::Stop]);
    assert!(s.stopped);
}
