use rebar::ids::WorkspaceIds;
use rebar::ipc::{apply_event, events_from_line, workspaces_from_document, workspaces_from_query, IPCEvent};
use rebar::json::JsonValue;

fn focus(id: u8) -> IPCEvent {
    IPCEvent::WorkspaceUpdate { id, active: Some(true), focused: Some(true) }
}

#[test]
fn blank_and_malformed_lines_yield_nothing() {
    let mut ids = WorkspaceIds::new();
    ids.insert("w1".to_string(), 1);
    assert!(events_from_line("", &mut ids).is_empty());
    assert!(events_from_line("   \t", &mut ids).is_empty());
    assert!(events_from_line("{not json", &mut ids).is_empty());
    assert!(events_from_line("[1, 2, 3]", &mut ids).is_empty());
    assert!(events_from_line(r#"{"data":{"eventType":"something_else"}}"#, &mut ids).is_empty());
    assert!(events_from_line(r#"{"data":{"eventType":7}}"#, &mut ids).is_empty());
    assert_eq!(ids.get("w1"), Some(1));
}

#[test]
fn focus_on_a_workspace_records_its_identifier() {
    let mut ids = WorkspaceIds::new();
    let line = r#"  {"data":{"eventType":"focus_changed","focusedContainer":{"type":"workspace","name":"3","id":"ws-3"}}}  "#;
    assert_eq!(events_from_line(line, &mut ids), vec![focus(3)]);
    assert_eq!(ids.get("ws-3"), Some(3));
}

#[test]
fn focus_on_a_workspace_without_a_number_yields_nothing() {
    let mut ids = WorkspaceIds::new();
    let line = r#"{"data":{"eventType":"focus_changed","focusedContainer":{"type":"workspace","name":"web","id":"ws-x"}}}"#;
    assert!(events_from_line(line, &mut ids).is_empty());
    assert_eq!(ids.get("ws-x"), None);
}

#[test]
fn focus_on_a_window_gives_its_title_and_workspace() {
    let mut ids = WorkspaceIds::new();
    ids.insert("ws-2".to_string(), 2);
    let line = r#"{"data":{"eventType":"focus_changed","focusedContainer":{"type":"window","title":"Editor","parentId":"ws-2"}}}"#;
    assert_eq!(
        events_from_line(line, &mut ids),
        vec![IPCEvent::FocusedTitle("Editor".to_string()), focus(2)]
    );
    let unknown_parent = r#"{"data":{"eventType":"focus_changed","focusedContainer":{"type":"window","parentId":"ws-9"}}}"#;
    assert_eq!(events_from_line(unknown_parent, &mut ids), vec![IPCEvent::FocusedTitle(String::new())]);
}

#[test]
fn focus_on_something_else_yields_nothing() {
    let mut ids = WorkspaceIds::new();
    let line = r#"{"data":{"eventType":"focus_changed","focusedContainer":{"type":"monitor"}}}"#;
    assert!(events_from_line(line, &mut ids).is_empty());
    let no_container = r#"{"data":{"eventType":"focus_changed"}}"#;
    assert!(events_from_line(no_container, &mut ids).is_empty());
}

#[test]
fn a_moved_window_focuses_its_workspace() {
    let mut ids = WorkspaceIds::new();
    ids.insert("ws-4".to_string(), 4);
    let line = r#"{"data":{"eventType":"focused_container_moved","focusedContainer":{"type":"window","parentId":"ws-4"}}}"#;
    assert_eq!(events_from_line(line, &mut ids), vec![focus(4)]);
    let not_window = r#"{"data":{"eventType":"focused_container_moved","focusedContainer":{"type":"workspace","parentId":"ws-4"}}}"#;
    assert!(events_from_line(not_window, &mut ids).is_empty());
}

#[test]
fn tiling_direction_defaults_to_horizontal() {
    let mut ids = WorkspaceIds::new();
    let v = r#"{"data":{"eventType":"tiling_direction_changed","newTilingDirection":"vertical"}}"#;
    assert_eq!(events_from_line(v, &mut ids), vec![IPCEvent::TilingDirection(false)]);
    let h = r#"{"data":{"eventType":"tiling_direction_changed","newTilingDirection":"horizontal"}}"#;
    assert_eq!(events_from_line(h, &mut ids), vec![IPCEvent::TilingDirection(true)]);
    let missing = r#"{"data":{"eventType":"tiling_direction_changed"}}"#;
    assert_eq!(events_from_line(missing, &mut ids), vec![IPCEvent::TilingDirection(true)]);
}

#[test]
fn activation_and_deactivation() {
    let mut ids = WorkspaceIds::new();
    let on = r#"{"data":{"eventType":"workspace_activated","activatedWorkspace":{"name":"5","id":"ws-5","hasFocus":false}}}"#;
    assert_eq!(
        events_from_line(on, &mut ids),
        vec![IPCEvent::WorkspaceUpdate { id: 5, active: Some(true), focused: None }]
    );
    assert_eq!(ids.get("ws-5"), Some(5));
    let focused = r#"{"data":{"eventType":"workspace_activated","activatedWorkspace":{"name":"6","id":"ws-6","hasFocus":true}}}"#;
    assert_eq!(events_from_line(focused, &mut ids), vec![focus(6)]);
    let off = r#"{"data":{"eventType":"workspace_deactivated","deactivatedId":"ws-5","deactivatedName":"5"}}"#;
    assert_eq!(
        events_from_line(off, &mut ids),
        vec![IPCEvent::WorkspaceUpdate { id: 5, active: Some(false), focused: Some(false) }]
    );
    assert_eq!(ids.get("ws-5"), None);
    assert_eq!(ids.get("ws-6"), Some(6));
    let nameless = r#"{"data":{"eventType":"workspace_deactivated","deactivatedId":"ws-6"}}"#;
    assert!(events_from_line(nameless, &mut ids).is_empty());
    assert_eq!(ids.get("ws-6"), None);
}

#[test]
fn pause_defaults_to_not_paused() {
    let mut ids = WorkspaceIds::new();
    let p = r#"{"data":{"eventType":"pause_changed","isPaused":true}}"#;
    assert_eq!(events_from_line(p, &mut ids), vec![IPCEvent::Pause(true)]);
    let q = r#"{"data":{"eventType":"pause_changed","isPaused":"yes"}}"#;
    assert_eq!(events_from_line(q, &mut ids), vec![IPCEvent::Pause(false)]);
}

#[test]
fn apply_event_on_a_built_document() {
    let mut ids = WorkspaceIds::new();
    let doc = JsonValue::Object(vec![(
        "data".to_string(),
        JsonValue::Object(vec![
            ("eventType".to_string(), JsonValue::String("pause_changed".to_string())),
            ("isPaused".to_string(), JsonValue::Bool(true)),
        ]),
    )]);
    assert_eq!(apply_event(&doc, &mut ids), vec![IPCEvent::Pause(true)]);
    let numbers = JsonValue::Array(vec![JsonValue::Number, JsonValue::Null]);
    assert!(apply_event(&numbers, &mut ids).is_empty());
}

#[test]
fn the_workspace_query_lists_every_numbered_workspace() {
    let mut ids = WorkspaceIds::new();
    ids.insert("stale".to_string(), 9);
    let output = r#"{"data":{"workspaces":[
        {"name":"1","id":"a","isDisplayed":true,"hasFocus":true},
        {"name":"two","id":"b","isDisplayed":true},
        {"name":"3","id":"c","isDisplayed":false,"hasFocus":false},
        {"name":"4","isDisplayed":true}
    ]}}"#;
    assert_eq!(
        workspaces_from_query(output, &mut ids),
        vec![
            IPCEvent::WorkspaceUpdate { id: 1, active: Some(true), focused: Some(true) },
            IPCEvent::WorkspaceUpdate { id: 3, active: Some(false), focused: None },
            IPCEvent::WorkspaceUpdate { id: 4, active: Some(true), focused: None },
        ]
    );
    assert_eq!(ids.get("a"), Some(1));
    assert_eq!(ids.get("b"), None);
    assert_eq!(ids.get("c"), Some(3));
    assert_eq!(ids.get("stale"), None);
}

#[test]
fn a_failed_workspace_query_keeps_the_identifiers() {
    let mut ids = WorkspaceIds::new();
    ids.insert("kept".to_string(), 2);
    assert!(workspaces_from_query("", &mut ids).is_empty());
    assert!(workspaces_from_query(r#"{"data":{}}"#, &mut ids).is_empty());
    assert!(workspaces_from_query(r#"{"data":{"workspaces":{}}}"#, &mut ids).is_empty());
    assert_eq!(ids.get("kept"), Some(2));
    assert!(workspaces_from_query(r#"{"data":{"workspaces":[]}}"#, &mut ids).is_empty());
    assert_eq!(ids.get("kept"), None);
}

#[test]
fn a_built_workspace_list() {
    let mut ids = WorkspaceIds::new();
    let ws = JsonValue::Object(vec![
        ("name".to_string(), JsonValue::String("+2".to_string())),
        ("id".to_string(), JsonValue::String("w".to_string())),
        ("hasFocus".to_string(), JsonValue::Bool(true)),
    ]);
    let doc = JsonValue::Object(vec![(
        "data".to_string(),
        JsonValue::Object(vec![("workspaces".to_string(), JsonValue::Array(vec![ws, JsonValue::Null]))]),
    )]);
    assert_eq!(
        workspaces_from_document(&doc, &mut ids),
        vec![IPCEvent::WorkspaceUpdate { id: 2, active: Some(false), focused: Some(true) }]
    );
    assert_eq!(ids.get("w"), Some(2));
}
