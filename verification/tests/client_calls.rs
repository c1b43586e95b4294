use muxterm_frontend::client::abi::{
    BACKEND_STATUS_CONNECTED, BACKEND_STATUS_DISCONNECTED, DIR_HORIZONTAL, DIR_VERTICAL,
    LAYOUT_LEAF, LAYOUT_SPLIT_H, LAYOUT_SPLIT_V, STATE_BACKEND_STATUS, STATE_PANE_OUTPUT,
    TASK_DETACH, TASK_NEW_TAB, TASK_REFRESH_TABS, TASK_RENAME_TAB, TASK_RENAME_WORKSPACE,
    TASK_REQUEST_PANE_SNAPSHOT, TASK_SHUTDOWN, TASK_SPLIT_PANE, TASK_SWITCH_PANE, TASK_SWITCH_TAB,
    TASK_TOGGLE_PANE_FULLSCREEN,
};
use muxterm_frontend::client::call::{
    clone_layout, copied_count, copy_bytes, cstring, cstring_opt, line_seq_reply, offset_reply,
    panes_reply, tabs_reply, task_to_ffi, CLayoutNode, CPane, CTab, CoreCall, FfiClient,
    EVENT_CAPACITY, PANE_CAPACITY, TAB_CAPACITY,
};
use muxterm_frontend::client::config::ConfigTransaction;
use muxterm_frontend::client::error::{check_reply, ClientError, ReplyError};
use muxterm_frontend::client::query::{
    activated, activity_events, answer, attention_configured, begun, committed, created,
    created_name, layout_reply, named, output_reply, probed, records, reloaded, transaction_call,
    workspace_closed, CArg, CCall, CFunction,
};
use muxterm_frontend::client::runtime::{
    check_code, ClientRuntimeCapability, ClientRuntimeInfo, ConnectCall, WORKSPACE_EVENT_CAPACITY,
};
use muxterm_frontend::client::types::{
    client_layout_first_pane, ClientEvent, ClientLayout, ClientResizeAxis, ClientRgb, ClientTask,
    ClientWorkspaceEvent,
};

fn event(type_: u32, pane_id: u32) -> ClientEvent {
    ClientEvent { type_, pane_id, tab_id: 0, window_id: 0, data: Vec::new(), name: String::new() }
}

#[test]
fn frontend_tasks_translate_to_abi_without_exposing_ctask() {
    let split = task_to_ffi(ClientTask::SplitPane { pane_id: 9, horizontal: false });
    assert_eq!(split.type_, TASK_SPLIT_PANE);
    assert_eq!(split.target_pane, 9);
    assert_eq!(split.dir, DIR_VERTICAL);
    assert!(split.name.is_none());

    let tab = task_to_ffi(ClientTask::SwitchTab { tab_id: 4 });
    assert_eq!(tab.type_, TASK_SWITCH_TAB);
    assert_eq!(tab.target_tab, 4);
    assert_eq!(tab.target_pane, 0);

    let fullscreen = task_to_ffi(ClientTask::TogglePaneFullscreen { pane_id: 12 });
    assert_eq!(fullscreen.type_, TASK_TOGGLE_PANE_FULLSCREEN);
    assert_eq!(fullscreen.target_pane, 12);
}

#[test]
fn frontend_lifecycle_tasks_translate_to_abi() {
    let switch = task_to_ffi(ClientTask::SwitchPane { pane_id: 13 });
    assert_eq!(switch.type_, TASK_SWITCH_PANE);
    assert_eq!(switch.target_pane, 13);

    let snapshot = task_to_ffi(ClientTask::RequestPaneSnapshot { pane_id: 14 });
    assert_eq!(snapshot.type_, TASK_REQUEST_PANE_SNAPSHOT);
    assert_eq!(snapshot.target_pane, 14);

    assert_eq!(task_to_ffi(ClientTask::RefreshTabs).type_, TASK_REFRESH_TABS);
    assert_eq!(task_to_ffi(ClientTask::Detach).type_, TASK_DETACH);
    assert_eq!(task_to_ffi(ClientTask::Shutdown).type_, TASK_SHUTDOWN);
}

#[test]
fn split_directions_have_different_numbers() {
    let wide = task_to_ffi(ClientTask::SplitPane { pane_id: 1, horizontal: true });
    assert_eq!(wide.dir, DIR_HORIZONTAL);
    assert_ne!(DIR_HORIZONTAL, DIR_VERTICAL);
}

#[test]
fn null_c_buffers_become_empty_owned_values() {
    assert_eq!(copy_bytes(&Vec::new()), Vec::<u8>::new());
    assert_eq!(cstring(""), "");
    assert_eq!(cstring_opt(None), None);
}

#[test]
fn layout_clone_preserves_split_shape() {
    let leaf = |pane_id| CLayoutNode { type_: LAYOUT_LEAF, pane_id, ratio: 0, first: None, second: None };
    let root = CLayoutNode {
        type_: LAYOUT_SPLIT_H,
        pane_id: 0,
        ratio: 500,
        first: Some(Box::new(leaf(7))),
        second: Some(Box::new(leaf(8))),
    };
    let actual = clone_layout(&root);
    assert_eq!(
        actual,
        ClientLayout::Split {
            horizontal: true,
            ratio: 500,
            first: Box::new(ClientLayout::Leaf { pane_id: 7 }),
            second: Box::new(ClientLayout::Leaf { pane_id: 8 }),
        }
    );
    assert_eq!(client_layout_first_pane(&actual), 7);
}

#[test]
fn missing_layout_children_are_pane_zero() {
    let root = CLayoutNode { type_: LAYOUT_SPLIT_V, pane_id: 3, ratio: 250, first: None, second: None };
    assert_eq!(
        clone_layout(&root),
        ClientLayout::Split {
            horizontal: false,
            ratio: 250,
            first: Box::new(ClientLayout::Leaf { pane_id: 0 }),
            second: Box::new(ClientLayout::Leaf { pane_id: 0 }),
        }
    );
}

#[test]
fn strings_for_the_core_hold_no_nul() {
    assert_eq!(cstring("plain"), "plain");
    assert_eq!(cstring("a\0b"), "");
    assert_eq!(cstring_opt(Some("x\0")), Some(String::new()));
}

#[test]
fn buffers_are_read_as_far_as_they_were_filled() {
    assert_eq!(copied_count(-1, 8), 0);
    assert_eq!(copied_count(0, 8), 0);
    assert_eq!(copied_count(3, 8), 3);
    assert_eq!(copied_count(9, 8), 8);

    let mut tabs = vec![CTab { id: 0, name: String::new(), is_active: 0 }; TAB_CAPACITY];
    tabs[0] = CTab { id: 4, name: "shell".into(), is_active: 1 };
    let read = tabs_reply(&tabs, 1);
    assert_eq!(read.len(), 1);
    assert_eq!((read[0].id, read[0].name.as_str(), read[0].is_active), (4, "shell", true));
    assert!(tabs_reply(&tabs, -3).is_empty());
    assert_eq!(tabs_reply(&tabs, 1000).len(), TAB_CAPACITY);

    let mut panes = vec![CPane { id: 0, cols: 0, rows: 0, is_active: 0 }; PANE_CAPACITY];
    panes[0] = CPane { id: 9, cols: 80, rows: 24, is_active: 1 };
    let read = panes_reply(&panes, 1);
    assert_eq!((read[0].id, read[0].cols, read[0].rows, read[0].is_active), (9, 80, 24, true));
    assert_eq!(read[0].title, "");
}

#[test]
fn negative_answers_stand_for_nothing() {
    assert_eq!(offset_reply(-1), None);
    assert_eq!(offset_reply(12), Some(12));
    assert_eq!(offset_reply(0x1_0000_0005), Some(5));
    assert_eq!(line_seq_reply(-1), None);
    assert_eq!(line_seq_reply(7), Some(7));
}

#[test]
fn status_event_is_remembered() {
    let mut client = FfiClient::from_raw(false).expect("a handle");
    assert_eq!(client.status_code(), BACKEND_STATUS_DISCONNECTED);
    client.copy_event(event(STATE_BACKEND_STATUS, BACKEND_STATUS_CONNECTED));
    assert_eq!(client.status_code(), BACKEND_STATUS_CONNECTED);
    client.copy_event(event(STATE_PANE_OUTPUT, 77));
    assert_eq!(client.status_code(), BACKEND_STATUS_CONNECTED);
    assert!(FfiClient::from_raw(true).is_none());
}

#[test]
fn poll_takes_the_filled_events_and_the_last_status() {
    let mut client = FfiClient::connected(false).expect("a handle");
    let mut buffer = vec![event(0, 0); EVENT_CAPACITY];
    buffer[0] = event(STATE_BACKEND_STATUS, 1);
    buffer[1] = event(STATE_BACKEND_STATUS, 2);
    buffer[2] = event(STATE_PANE_OUTPUT, 5);
    buffer[3] = event(STATE_BACKEND_STATUS, 4);
    let events = client.poll_events(3, buffer.clone());
    assert_eq!(events, buffer[..3].to_vec());
    assert_eq!(client.status_code(), 2);
    assert!(client.poll_events(-1, buffer.clone()).is_empty());
    assert_eq!(client.status_code(), 2);

    let wrapped: Vec<ClientWorkspaceEvent> = (0..WORKSPACE_EVENT_CAPACITY)
        .map(|i| ClientWorkspaceEvent {
            workspace_id: format!("w{i}"),
            event: event(STATE_BACKEND_STATUS, i as u32),
        })
        .collect();
    let events = client.poll_workspace_events(2, wrapped);
    assert_eq!(events.len(), 2);
    assert_eq!(events[1].workspace_id, "w1");
    assert_eq!(client.status_code(), 1);
}

#[test]
fn tab_and_workspace_names_travel_with_the_task() {
    match FfiClient::new_workspace_tab("w", Some("build")) {
        CoreCall::ExecuteWorkspace { workspace_id, task } => {
            assert_eq!(workspace_id, "w");
            assert_eq!(task.type_, TASK_NEW_TAB);
            assert_eq!(task.name.as_deref(), Some("build"));
        }
        other => panic!("{other:?}"),
    }
    match FfiClient::rename_workspace_tab("w", 6, "logs") {
        CoreCall::ExecuteWorkspace { task, .. } => {
            assert_eq!(task.type_, TASK_RENAME_TAB);
            assert_eq!(task.target_tab, 6);
            assert_eq!(task.name.as_deref(), Some("logs"));
        }
        other => panic!("{other:?}"),
    }
    match FfiClient::rename_workspace("w", "prod") {
        CoreCall::ExecuteWorkspace { task, .. } => {
            assert_eq!(task.type_, TASK_RENAME_WORKSPACE);
            assert_eq!(task.name.as_deref(), Some("prod"));
        }
        other => panic!("{other:?}"),
    }
    assert_eq!(
        FfiClient::resize_workspace_pane_axis("w", 3, ClientResizeAxis::Vertical, 40),
        CoreCall::WorkspaceResizePaneAxis {
            workspace_id: "w".into(),
            pane_id: 3,
            axis: DIR_VERTICAL,
            size: 40,
        }
    );
    assert_eq!(FfiClient::resize_client(80, 24), CoreCall::ResizeClient { cols: 80, rows: 24 });
    assert_eq!(
        FfiClient::resize_pane(3, 80, 24),
        CoreCall::ResizePane { pane_id: 3, cols: 80, rows: 24 }
    );
    assert_eq!(
        FfiClient::execute(task_to_ffi(ClientTask::Detach)),
        FfiClient::execute_task(ClientTask::Detach)
    );
}

#[test]
fn connecting_names_what_is_asked_for() {
    assert_eq!(FfiClient::new_catalog(), ConnectCall::Catalog);
    assert_eq!(
        FfiClient::new_connect("tmux", Some("sock"), None, Some("box"), Some("/tmp")),
        ConnectCall::NewConnect {
            runtime: "tmux".into(),
            socket: Some("sock".into()),
            session: None,
            ssh_alias: Some("box".into()),
            start_directory: Some("/tmp".into()),
        }
    );
    assert_eq!(
        FfiClient::new("shell", None, Some("main")),
        ConnectCall::New { runtime: "shell".into(), socket: None, session: Some("main".into()) }
    );
    assert_eq!(
        FfiClient::connected(true).err().as_deref(),
        Some("Core FFI handle construction failed")
    );
    assert_eq!(FfiClient::reconnect(0), Ok(()));
    assert_eq!(FfiClient::reconnect(-7), Err("Core FFI connect failed with code -7".into()));
    assert_eq!(
        check_code("Core workspace close", 3),
        Err("Core workspace close failed with code 3".into())
    );
}

#[test]
fn runtime_info_is_an_owned_catalog_dto() {
    let info = ClientRuntimeInfo {
        id: "herdr".into(),
        name: "Herdr".into(),
        support: vec!["PersistDetach".into(), "Discover".into()],
        accepted_transports: vec!["local".into(), "ssh".into()],
    };
    assert_eq!(info.id, "herdr");
    assert_eq!(info.name, "Herdr");
    assert_eq!(info.support, ["PersistDetach", "Discover"]);
    assert_eq!(info.accepted_transports, ["local", "ssh"]);
    assert!(info.supports(ClientRuntimeCapability::PersistDetach));
    assert!(info.supports(ClientRuntimeCapability::Discover));
    assert!(!info.supports(ClientRuntimeCapability::SharedClientResize));
    assert_eq!(ClientRuntimeCapability::WorktreeRemove.as_str(), "WorktreeRemove");
}

fn call(function: CFunction, args: Vec<CArg>) -> CCall {
    CCall { function, args }
}

fn text(s: &str) -> CArg {
    CArg::Text(s.into())
}

#[test]
fn calls_name_their_arguments_in_order() {
    assert_eq!(FfiClient::config_describe(), call(CFunction::ConfigDescribe, Vec::new()));
    assert_eq!(
        FfiClient::config_validate(None),
        call(CFunction::ConfigValidate, vec![CArg::Absent])
    );
    assert_eq!(
        FfiClient::workspace_attention_mute("w", 3, 3600),
        call(CFunction::AttentionMute, vec![text("w"), CArg::Number(3), CArg::Number(3600)])
    );
    assert_eq!(
        FfiClient::report_pane_colours(3, "#ffffff", "#000000"),
        call(
            CFunction::ReportPaneColours,
            vec![CArg::Number(3), text("#ffffff"), text("#000000")]
        )
    );
    assert_eq!(
        FfiClient::list_dir("ssh", Some("box"), "/srv"),
        call(
            CFunction::ListDir,
            vec![text("ssh"), text("box"), CArg::Absent, text("/srv"), CArg::Number(10_000)]
        )
    );
    assert_eq!(
        FfiClient::create_workspace("tmux", None, Some("/s"), "demo", "/srv"),
        call(
            CFunction::WorkspaceCreate,
            vec![
                text("tmux"),
                CArg::Absent,
                text("/s"),
                CArg::Absent,
                text("demo"),
                text("/srv"),
                CArg::Number(10_000),
            ]
        )
    );
    assert_eq!(
        FfiClient::get_workspace_panes("w", 4),
        call(CFunction::WorkspaceGetPanes, vec![text("w"), CArg::Number(4), CArg::Number(64)])
    );
    assert_eq!(FfiClient::search_all("a\0b"), call(CFunction::SearchAll, vec![text("")]));
}

#[test]
fn runtimes_are_listed_only_from_a_good_answer() {
    assert_eq!(
        FfiClient::discover_runtimes(false),
        Ok(call(CFunction::RuntimeList, Vec::new()))
    );
    assert_eq!(
        FfiClient::discover_runtimes(true),
        Err("Core FFI handle construction failed".to_string())
    );
    assert_eq!(
        answer(CFunction::RuntimeList, Some(r#"{"ok":true,"runtimes":[{"id":"tmux"}]}"#)),
        Ok(r#"[{"id":"tmux"}]"#.to_string())
    );
    assert_eq!(
        answer(CFunction::RuntimeList, Some(r#"{"ok":true}"#)),
        Ok("null".to_string())
    );
    assert_eq!(
        answer(CFunction::RuntimeList, None),
        Err(ReplyError::Transport("Core discovery returned no response".into()))
    );
    assert_eq!(
        answer(CFunction::ConfigEvents, Some(r#"{"ok":true,"data":{"events":[1, 2]}}"#)),
        Ok("[1,2]".to_string())
    );
    assert_eq!(
        answer(CFunction::Open, Some(r#"{"ok":true,"id":"w"}"#)),
        Ok(r#"{"id":"w","ok":true}"#.to_string())
    );
}

#[test]
fn discovery_json_preserves_structured_error_envelope() {
    let raw = r#"{"ok":false,"error":{"code":"incompatible_channels","stage":"identity","message":"channel mismatch","runtime_id":"herdr"}}"#;
    let Err(ReplyError::Core(error)) = FfiClient::discovery_json(Some(raw)) else {
        panic!("structured Core errors should remain typed");
    };
    assert_eq!(error.code.as_deref(), Some("incompatible_channels"));
    assert_eq!(error.stage.as_deref(), Some("identity"));
    assert_eq!(error.message, "channel mismatch");
    assert_eq!(error.details.len(), 1);
    assert_eq!(error.details[0].name, "runtime_id");
    assert_eq!(error.details[0].value, "\"herdr\"");
}

#[test]
fn discovery_json_keeps_legacy_string_errors_compatible() {
    let raw = r#"{"ok":false,"error":"legacy failure"}"#;
    let Err(ReplyError::Core(error)) = FfiClient::discovery_json(Some(raw)) else {
        panic!("legacy errors should use the common client error type");
    };
    assert_eq!(error.code, None);
    assert_eq!(error.stage, None);
    assert_eq!(error.message, "legacy failure");
    assert!(error.details.is_empty());
}

#[test]
fn answers_without_success_say_why() {
    assert_eq!(
        FfiClient::discovery_json(Some(" { \"ok\" : true, \"a\" : 1 } ")),
        Ok(r#"{"a":1,"ok":true}"#.to_string())
    );
    assert_eq!(
        FfiClient::discovery_json(Some("{")),
        Err(ReplyError::Transport(
            "Core discovery returned invalid JSON: EOF while parsing an object at line 1 column 1"
                .into()
        ))
    );
    let unknown = Err(ReplyError::Core(ClientError::legacy("unknown Core discovery error".into())));
    assert_eq!(FfiClient::discovery_json(Some("{}")), unknown);
    assert_eq!(FfiClient::discovery_json(Some("7")), unknown);
    assert_eq!(FfiClient::discovery_json(Some(r#"{"ok":"true"}"#)), unknown);
    assert_eq!(check_reply("{}".into(), None, None), unknown);
    assert_eq!(check_reply("{}".into(), Some("true".into()), None), Ok("{}".to_string()));
}

#[test]
fn errors_that_cannot_be_read_say_so() {
    assert_eq!(ClientError::from_json("17").text(), "Core returned invalid error value: 17");
    assert_eq!(
        ClientError::from_json("{}").text(),
        "Core returned invalid error envelope: missing field `message`"
    );
    assert_eq!(
        ClientError::from_json(r#"{"message":5,"stage":6}"#).text(),
        "Core returned invalid error envelope: invalid type: integer `5`, expected a string"
    );
    assert_eq!(
        ClientError::from_json(r#"{"stage":6}"#).text(),
        "Core returned invalid error envelope: invalid type: integer `6`, expected a string"
    );
    let plain = ClientError::from_json(r#"{"code":null,"message":"m"}"#);
    assert_eq!(plain, ClientError::legacy("m".into()));
    assert_eq!(
        ClientError::from_fields(Ok(None), None, Ok(None), Vec::new()),
        Err("missing field `message`".to_string())
    );
}

#[test]
fn answers_are_read_for_what_they_name() {
    assert_eq!(
        begun(Some(r#"{"ok":true,"data":{"transaction":"tx-1"}}"#)),
        Ok("tx-1".to_string())
    );
    assert_eq!(
        begun(Some(r#"{"ok":true,"data":{"transaction":7}}"#)),
        Err(ReplyError::Transport("Core config begin returned no transaction".into()))
    );
    assert_eq!(
        committed(Some(r#"{"ok":true,"data":{"revision":"r2"}}"#)),
        Ok("r2".to_string())
    );
    assert_eq!(
        committed(Some(r#"{"ok":true}"#)),
        Err(ReplyError::Transport("Core config commit returned no revision".into()))
    );
    assert_eq!(
        reloaded(Some(r#"{"ok":true}"#)),
        Err(ReplyError::Transport("Core config reload returned no revision".into()))
    );
    assert_eq!(
        probed(Some(r#"{"ok":true,"probe":{"stream_starts":1}}"#)),
        Some(r#"{"stream_starts":1}"#.to_string())
    );
    assert_eq!(probed(Some(r#"{"ok":false,"probe":{}}"#)), None);
    assert_eq!(
        records(Some(r#"{"ok":true,"records":[{"a":1},2]}"#)),
        Ok(vec![r#"{"a":1}"#.to_string(), "2".to_string()])
    );
    assert_eq!(records(Some(r#"{"ok":true,"records":5}"#)), Ok(Vec::new()));
    assert_eq!(activity_events(Some(r#"{"ok":true}"#)), Ok(Vec::new()));
    assert_eq!(
        created(Some(r#"{"ok":true,"session":"demo-2"}"#), "demo"),
        Ok("demo-2".to_string())
    );
    assert_eq!(created(Some(r#"{"ok":true}"#), "demo"), Ok("demo".to_string()));
    assert_eq!(created_name(None, "demo"), "demo");
    assert_eq!(named(Some("tx".into()), "none"), Ok("tx".to_string()));
    assert_eq!(named(None, "none"), Err(ReplyError::Transport("none".into())));
    assert_eq!(activated(0), Ok(()));
    assert_eq!(
        activated(-2),
        Err("Core workspace activation failed with code -2".to_string())
    );
    assert_eq!(
        workspace_closed(-1),
        Err("Core workspace close failed with code -1".to_string())
    );
    assert_eq!(
        attention_configured(4),
        Err("Core attention configuration failed with code 4".to_string())
    );
    assert_eq!(output_reply(vec![1, 2, 3], 2), vec![1, 2]);
    assert_eq!(output_reply(vec![1, 2, 3], 9), vec![1, 2, 3]);
    assert!(output_reply(vec![1], -1).is_empty());
    let root =
        CLayoutNode { type_: LAYOUT_LEAF, pane_id: 4, ratio: 0, first: None, second: None };
    assert_eq!(layout_reply(0, &root), Some(ClientLayout::Leaf { pane_id: 4 }));
    assert_eq!(layout_reply(-1, &root), None);
}

#[test]
fn transaction_calls_carry_the_begun_name() {
    let patch = Vec::new();
    let step = ConfigTransaction::Begin;
    assert_eq!(transaction_call(&step, &patch), Some(call(CFunction::ConfigBegin, Vec::new())));
    let step = FfiClient::config_apply(step, Ok("tx".into()));
    assert_eq!(
        transaction_call(&step, &patch),
        Some(call(CFunction::ConfigPatch, vec![text("tx"), text("[]")]))
    );
    let step = FfiClient::config_apply(step, Ok(String::new()));
    assert_eq!(
        transaction_call(&step, &patch),
        Some(call(CFunction::ConfigCommit, vec![text("tx")]))
    );
    let step = FfiClient::config_apply(step, Err("late".into()));
    assert_eq!(
        transaction_call(&step, &patch),
        Some(call(CFunction::ConfigCancel, vec![text("tx")]))
    );
    let step = FfiClient::config_apply(step, Ok(String::new()));
    assert_eq!(transaction_call(&step, &patch), None);
}

#[test]
fn colour_number_puts_red_first() {
    assert_eq!(ClientRgb(1, 2, 3).to_u32(), 0x010203);
    assert_ne!(ClientRgb(1, 2, 3).to_u32(), ClientRgb(1, 3, 2).to_u32());
}
