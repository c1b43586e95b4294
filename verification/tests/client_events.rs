use muxterm_frontend::client::abi::{
    BACKEND_STATUS_CONNECTED, STATE_ACTIVE_TAB_CHANGED, STATE_BACKEND_STATUS, STATE_PANE_AGENT_CHANGED,
    STATE_PANE_OUTPUT, STATE_PANE_RESIZED, STATE_TAB_RENAMED,
};
use muxterm_frontend::client::event::{
    backend_status_wire_name, decode_resize_data, ClientEventKind,
};
use muxterm_frontend::client::types::{ClientEvent, ClientWorkspaceEvent};
use serde_json::Value;

fn wire(event: &ClientEvent, workspace: &str) -> Value {
    serde_json::from_str(&event.to_wire_json(workspace)).expect("valid JSON")
}

#[test]
fn event_kind_hides_raw_state_constants_from_frontends() {
    let event = ClientEvent {
        type_: STATE_PANE_OUTPUT,
        pane_id: 7,
        tab_id: 0,
        window_id: 0,
        data: Vec::new(),
        name: String::new(),
    };
    assert_eq!(event.kind(), ClientEventKind::PaneOutput);
    assert_eq!(
        ClientEvent { type_: u32::MAX, ..event }.kind(),
        ClientEventKind::Other(u32::MAX)
    );
}

#[test]
fn event_wire_uses_semantic_kind_and_keeps_common_fields() {
    let event = ClientEvent {
        type_: STATE_PANE_OUTPUT,
        pane_id: 7,
        tab_id: 3,
        window_id: 0,
        data: vec![0, 255, 27],
        name: String::new(),
    };
    let wire = wire(&event, "local//demo/shell/");
    assert_eq!(wire["workspace_id"], "local//demo/shell/");
    assert_eq!(wire["kind"], "pane_output");
    assert_eq!(wire["pane_id"], 7);
    assert_eq!(wire["tab_id"], 3);
    assert_eq!(wire["data"], Value::from(vec![0, 255, 27]));
}

#[test]
fn event_wire_adds_resize_and_payload_semantics() {
    let resized = ClientEvent {
        type_: STATE_PANE_RESIZED,
        pane_id: 7,
        tab_id: 3,
        window_id: 0,
        data: vec![120, 0, 40, 0],
        name: String::new(),
    };
    let resized = wire(&resized, "ws");
    assert_eq!(resized["kind"], "pane_resized");
    assert_eq!(resized["cols"], 120);
    assert_eq!(resized["rows"], 40);

    let agent = ClientEvent {
        type_: STATE_PANE_AGENT_CHANGED,
        pane_id: 7,
        tab_id: 3,
        window_id: 0,
        data: br#"{"initial":true,"agent":null}"#.to_vec(),
        name: String::new(),
    };
    let agent = wire(&agent, "ws");
    assert_eq!(agent["kind"], "pane_agent_changed");
    assert_eq!(agent["payload"]["initial"], true);
    assert!(agent["payload"]["agent"].is_null());
}

#[test]
fn topology_classification_includes_active_and_resize_changes() {
    let event = ClientEvent {
        type_: STATE_ACTIVE_TAB_CHANGED,
        pane_id: 0,
        tab_id: 1,
        window_id: 0,
        data: Vec::new(),
        name: String::new(),
    };
    assert!(event.is_topology());
    assert!(ClientEvent { type_: STATE_PANE_RESIZED, ..event.clone() }.is_topology());
    assert!(!ClientEvent { type_: STATE_PANE_OUTPUT, ..event }.is_topology());
}

#[test]
fn wire_text_is_what_a_serializer_writes() {
    for type_ in 0..25 {
        let event = ClientEvent {
            type_,
            pane_id: 2,
            tab_id: 3,
            window_id: 4,
            data: b"{\"a\": [1, \"x\"]}".to_vec(),
            name: "tab \"one\"".into(),
        };
        let text = event.to_wire_json("ws\\1");
        let value: Value = serde_json::from_str(&text).expect("valid JSON");
        assert_eq!(value.to_string(), text);
        assert_eq!(value["workspace_id"], "ws\\1");
    }
}

#[test]
fn broken_payload_is_left_out() {
    let event = ClientEvent {
        type_: STATE_PANE_AGENT_CHANGED,
        pane_id: 1,
        tab_id: 1,
        window_id: 0,
        data: b"{no json".to_vec(),
        name: String::new(),
    };
    assert!(wire(&event, "ws").get("payload").map_or(true, Value::is_null));
}

#[test]
fn resize_data_holds_two_little_endian_numbers() {
    assert_eq!(decode_resize_data(&vec![0x34, 0x12, 0x01, 0x00]), Some((0x1234, 1)));
    assert_eq!(decode_resize_data(&vec![1, 2, 3]), None);
}

#[test]
fn status_and_names_have_words() {
    assert_eq!(backend_status_wire_name(BACKEND_STATUS_CONNECTED), "connected");
    let status = ClientEvent {
        type_: STATE_BACKEND_STATUS,
        pane_id: BACKEND_STATUS_CONNECTED,
        tab_id: 0,
        window_id: 0,
        data: Vec::new(),
        name: String::new(),
    };
    assert_eq!(wire(&status, "ws")["kind"], status.wire_kind());
    let renamed = ClientWorkspaceEvent {
        workspace_id: "ws".into(),
        event: ClientEvent {
            type_: STATE_TAB_RENAMED,
            pane_id: 0,
            tab_id: 9,
            window_id: 0,
            data: Vec::new(),
            name: "logs".into(),
        },
    };
    let value: Value = serde_json::from_str(&renamed.to_wire_json()).expect("valid JSON");
    assert_eq!(value["workspace_id"], "ws");
    assert_eq!(value["tab_id"], 9);
}
