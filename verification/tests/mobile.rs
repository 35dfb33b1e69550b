use crepuscularity_cli::preferences::{preferences_call, Preferences, PreferencesReply};
use crepuscularity_cli::mobile_actions::{
    action_kind, dispatch_action, payload_message, plugin_route, request_action_name, request_field,
    sanitize_relative_path, scoped_data_path, ActionKind, MobileActionState, PluginBackend,
};
use crepuscularity_cli::native_mobile::{http_response, is_template_event, mobile_dev_response, WatchEventKind};

#[test]
fn dispatch_known_action_checks_registry_without_mutation() {
    let state = MobileActionState::new();
    assert!(dispatch_action("sync"));
    assert!(dispatch_action("preview"));
    assert_eq!(state.sync_count, 0);
    assert_eq!(state.preview_count, 0);
}

#[test]
fn unknown_action_returns_false() {
    assert!(!dispatch_action("missing"));
}

#[test]
fn typed_and_plugin_requests_are_known() {
    assert!(dispatch_action(r#"{"action":"sync","payload":{"message":"hydrate"}}"#));
    assert_eq!(action_kind(r#"{"action":"preview"}"#), Some(ActionKind::Preview));
    assert_eq!(
        action_kind(r#"{"kind":"plugin","capability":"device","method":"info"}"#),
        Some(ActionKind::Plugin)
    );
    assert_eq!(action_kind(r#"{"action":"missing"}"#), None);
}

#[test]
fn request_fields_read_json_or_bare_text() {
    assert_eq!(request_field("sync", "action"), Some("sync".to_string()));
    assert_eq!(request_field("sync", "kind"), None);
    assert_eq!(request_field(r#"{"action":"preview"}"#, "action"), Some("preview".to_string()));
    assert_eq!(request_field(r#"{"action":3}"#, "action"), None);
    assert_eq!(
        payload_message(r#"{"action":"sync","payload":{"message":"hydrate"}}"#),
        Some("hydrate".to_string())
    );
    assert_eq!(payload_message("sync"), None);
}

#[test]
fn request_names_of_plugin_requests() {
    assert_eq!(request_action_name("sync"), "sync");
    assert_eq!(
        request_action_name(r#"{"kind":"plugin","capability":"preferences","method":"get"}"#),
        "preferences.get"
    );
    assert_eq!(request_action_name(r#"{"kind":"plugin"}"#), "plugin.action");
    assert_eq!(request_action_name(r#"{"kind":"other"}"#), "other");
    assert_eq!(request_action_name(r#"{}"#), "");
}

#[test]
fn running_named_actions_counts_them() {
    let mut state = MobileActionState::new();
    let (msg, n) = state.run_named(ActionKind::Sync, None);
    assert_eq!((msg.as_str(), n), ("synced", 1));
    let (msg, n) = state.run_named(ActionKind::Preview, Some("hydrate".to_string()));
    assert_eq!((msg.as_str(), n), ("hydrate", 1));
    let (_, n) = state.run_named(ActionKind::Sync, None);
    assert_eq!(n, 2);
    assert_eq!(state.sync_count, 2);
    assert_eq!(state.preview_count, 1);
}

#[test]
fn plugin_routes_and_their_errors() {
    let (b, c, m) = plugin_route(r#"{"kind":"plugin","capability":"filesystem","method":"readFile"}"#).unwrap();
    assert_eq!(b, PluginBackend::Filesystem);
    assert_eq!(c, "filesystem");
    assert_eq!(m, "readFile");
    assert_eq!(
        plugin_route(r#"{"kind":"plugin","method":"x"}"#),
        Err("plugin request missing capability".to_string())
    );
    assert_eq!(
        plugin_route(r#"{"kind":"plugin","capability":"app"}"#),
        Err("plugin request missing method".to_string())
    );
    assert_eq!(
        plugin_route(r#"{"kind":"plugin","capability":"camera","method":"snap"}"#),
        Err("unsupported capability: camera".to_string())
    );
}

#[test]
fn filesystem_paths_stay_inside_the_data_root() {
    assert_eq!(sanitize_relative_path("notes/./a.txt"), Ok("notes/a.txt".to_string()));
    assert_eq!(sanitize_relative_path("a//b/"), Ok("a/b".to_string()));
    assert_eq!(
        sanitize_relative_path("../secret"),
        Err("parent segments are not allowed".to_string())
    );
    assert_eq!(
        sanitize_relative_path("/etc/passwd"),
        Err("absolute paths are not allowed".to_string())
    );
    assert_eq!(sanitize_relative_path("./"), Err("path must not be empty".to_string()));
    assert_eq!(scoped_data_path("/data", "notes/a.txt"), Ok("/data/notes/a.txt".to_string()));
    assert_eq!(scoped_data_path("/data/", "a"), Ok("/data/a".to_string()));
}

#[test]
fn filesystem_paths_are_judged_by_their_components() {
    assert_eq!(sanitize_relative_path("./notes//a.txt/."), Ok("notes/a.txt".to_string()));
    assert_eq!(sanitize_relative_path(".hidden/x"), Ok(".hidden/x".to_string()));
    assert_eq!(
        sanitize_relative_path("notes/../../etc"),
        Err("parent segments are not allowed".to_string())
    );
    assert_eq!(sanitize_relative_path("//x"), Err("absolute paths are not allowed".to_string()));
    assert_eq!(sanitize_relative_path("."), Err("path must not be empty".to_string()));
    assert_eq!(sanitize_relative_path(""), Err("path must not be empty".to_string()));
}

const IR: &str = r#"{"kind":"div","children":[{"kind":"text","text":"Hi"}]}"#;
const ENVELOPE: &str = r#"{"sequence":7,"message":{"kind":"fullReload","reason":"test"}}"#;

#[test]
fn mobile_health_response_reports_sequence() {
    let response = mobile_dev_response("/health", 7, IR, ENVELOPE);
    assert!(response.starts_with("HTTP/1.1 200 OK"));
    assert!(response.contains("\"ok\":true"));
    assert!(response.contains("\"sequence\":7"));
}

#[test]
fn mobile_ir_response_returns_latest_ir() {
    let response = mobile_dev_response("/ir", 7, IR, ENVELOPE);
    assert!(response.contains(IR));
}

#[test]
fn mobile_events_response_streams_hot_reload_envelope() {
    let response = mobile_dev_response("/events", 7, IR, ENVELOPE);
    assert!(response.contains("Content-Type: text/event-stream"));
    assert!(response.contains("event: crepus-mobile"));
    assert!(response.contains("\"sequence\":7"));
    assert!(response.contains("\"kind\":\"fullReload\""));
}

#[test]
fn native_health_response_reports_sequence() {
    let response = mobile_dev_response("/health", 7, IR, ENVELOPE);
    assert!(response.starts_with("HTTP/1.1 200 OK"));
    assert!(response.contains("\"ok\":true"));
    assert!(response.contains("\"sequence\":7"));
}

#[test]
fn native_ir_response_returns_latest_ir() {
    let response = mobile_dev_response("/ir", 7, IR, ENVELOPE);
    assert!(response.contains(IR));
}

#[test]
fn native_events_response_streams_hot_reload_envelope() {
    let response = mobile_dev_response("/events", 7, IR, ENVELOPE);
    assert!(response.contains("Content-Type: text/event-stream"));
    assert!(response.contains("event: crepus-mobile"));
    assert!(response.contains("\"sequence\":7"));
    assert!(response.contains("\"kind\":\"fullReload\""));
}

#[test]
fn http_response_counts_body_bytes() {
    assert_eq!(
        http_response("200 OK", "text/plain", "héllo"),
        "HTTP/1.1 200 OK\r\nContent-Type: text/plain\r\nCache-Control: no-store\r\nContent-Length: 6\r\nConnection: close\r\n\r\nhéllo"
    );
    assert_eq!(
        mobile_dev_response("/nope", 0, "", ""),
        "HTTP/1.1 404 Not Found\r\nContent-Type: text/plain\r\nCache-Control: no-store\r\nContent-Length: 9\r\nConnection: close\r\n\r\nnot found"
    );
    assert_eq!(
        mobile_dev_response("/health", 12, "", ""),
        "HTTP/1.1 200 OK\r\nContent-Type: application/json\r\nCache-Control: no-store\r\nContent-Length: 25\r\nConnection: close\r\n\r\n{\"ok\":true,\"sequence\":12}"
    );
}

#[test]
fn preferences_round_trip_persists_values() {
    let mut prefs = Preferences::new();
    let set = preferences_call(&mut prefs, "set", Some("theme".to_string()), Some("\"light\"".to_string()));
    assert_eq!(set, Ok(PreferencesReply::Stored { key: "theme".to_string(), value: "\"light\"".to_string() }));
    let get = preferences_call(&mut prefs, "get", Some("theme".to_string()), None);
    assert_eq!(get, Ok(PreferencesReply::Value(Some("\"light\"".to_string()))));
}

#[test]
fn preferences_methods_and_errors() {
    let mut prefs = Preferences::new();
    prefs.set("b".to_string(), "1".to_string());
    prefs.set("a".to_string(), "2".to_string());
    prefs.set("b".to_string(), "3".to_string());
    assert_eq!(prefs.get("b"), Some("3".to_string()));
    assert_eq!(preferences_call(&mut prefs, "keys", None, None), Ok(PreferencesReply::Keys(vec!["a".to_string(), "b".to_string()])));
    assert_eq!(
        preferences_call(&mut prefs, "remove", Some("a".to_string()), None),
        Ok(PreferencesReply::Removed { key: "a".to_string(), removed: true })
    );
    assert_eq!(
        preferences_call(&mut prefs, "remove", Some("a".to_string()), None),
        Ok(PreferencesReply::Removed { key: "a".to_string(), removed: false })
    );
    assert_eq!(preferences_call(&mut prefs, "get", Some("a".to_string()), None), Ok(PreferencesReply::Value(None)));
    assert_eq!(
        preferences_call(&mut prefs, "get", None, None),
        Err("payload missing string field key".to_string())
    );
    assert_eq!(
        preferences_call(&mut prefs, "set", Some("k".to_string()), None),
        Err("preferences.set requires payload.value".to_string())
    );
    assert_eq!(
        preferences_call(&mut prefs, "rename", None, None),
        Err("unsupported preferences method: rename".to_string())
    );
    assert_eq!(preferences_call(&mut prefs, "clear", None, None), Ok(PreferencesReply::Cleared));
    assert_eq!(prefs.keys(), Vec::<String>::new());
}

#[test]
fn filesystem_rejects_parent_escape() {
    assert_eq!(
        sanitize_relative_path("../secret.txt"),
        Err("parent segments are not allowed".to_string())
    );
}

#[test]
fn template_events_are_changes_to_crepus_files() {
    let paths = |xs: &[&str]| xs.iter().map(|s| s.to_string()).collect::<Vec<String>>();
    assert!(is_template_event(WatchEventKind::Modify, &paths(&["src/a.rs", "ui/app.crepus"])));
    assert!(is_template_event(WatchEventKind::Create, &paths(&["x.y.crepus"])));
    assert!(is_template_event(WatchEventKind::Remove, &paths(&["gone.crepus"])));
    assert!(!is_template_event(WatchEventKind::Other, &paths(&["ui/app.crepus"])));
    assert!(!is_template_event(WatchEventKind::Modify, &paths(&["ui/.crepus", "ui/app.crepus.bak", "crepus"])));
    assert!(!is_template_event(WatchEventKind::Modify, &paths(&[])));
}
