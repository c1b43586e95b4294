use muxterm_frontend::client::call::FfiClient;
use muxterm_frontend::cli::command::{CliCommand, OutputFormat};
use muxterm_frontend::cli::format::{
    ffi_layout_leaves, ffi_layout_node_to_json, ffi_pane_is_active, format_ffi_capture,
    format_ffi_display, format_ffi_layout, format_ffi_output, format_ffi_panes, format_ffi_tabs,
    format_ffi_workspaces,
};
use muxterm_frontend::cli::routing::{
    command_settle_duration, daemon_settle_duration, ensure_daemon, extract_session_name,
    extract_socket_arg, has_pane_snapshot, is_tmux_cli, missing_session, route,
    select_tmux_session, CliRoute, CommandPlan, DaemonStart, FfiCliSession,
};
use muxterm_frontend::cli::state::{format_output, json_escape, StateLayout, StateSnapshot};
use muxterm_frontend::client::abi::{STATE_PANE_OUTPUT, STATE_PANE_SNAPSHOT};
use muxterm_frontend::client::call::CoreCall;
use muxterm_frontend::client::snapshot::FfiWorkspaceSnapshot;
use muxterm_frontend::client::types::{
    ClientEvent, ClientLayout, ClientPane, ClientTab, ClientWorkspace, ClientWorkspaceEvent,
    TmuxSessionEntry,
};
use serde_json::Value;

fn pane(id: u32, is_active: bool, title: &str) -> ClientPane {
    ClientPane { id, cols: 80, rows: 24, is_active, title: title.into() }
}

fn state_with_pane() -> StateSnapshot {
    StateSnapshot {
        workspace_name: "mock".into(),
        workspace_runtime: "mock".into(),
        tabs: vec![ClientTab { id: 1, name: "tab".into(), is_active: true }],
        panes: vec![(1, vec![pane(1, true, "shell")])],
        layouts: vec![(1, StateLayout { tree: ClientLayout::Leaf { pane_id: 1 }, active: 1 })],
        outputs: vec![(1, b"one\ntwo\nthree\n".to_vec())],
        active_tab: Some(1),
        active_pane: Some(1),
    }
}

#[test]
fn format_workspaces_json() {
    let b = state_with_pane();
    let out = format_output(&b, &CliCommand::ListWorkspaces, OutputFormat::Json);
    assert!(out.contains(r#""name":"mock""#));
    assert!(out.starts_with('['));
}

#[test]
fn format_workspaces_text() {
    let b = state_with_pane();
    let out = format_output(&b, &CliCommand::ListWorkspaces, OutputFormat::Text);
    assert!(out.contains("mock"));
}

#[test]
fn format_tabs_json() {
    let b = state_with_pane();
    let out = format_output(&b, &CliCommand::ListTabs, OutputFormat::Json);
    assert!(out.contains(r#""id":"t1""#));
}

#[test]
fn format_panes_json() {
    let b = state_with_pane();
    let out = format_output(&b, &CliCommand::ListPanes { tab: None }, OutputFormat::Json);
    assert!(out.contains(r#""id":"@1""#));
}

#[test]
fn format_layout_json() {
    let b = state_with_pane();
    let out = format_output(&b, &CliCommand::ListLayout, OutputFormat::Json);
    assert!(out.contains(r#""id":"t1""#));
}

fn ffi_snapshot_with_split() -> FfiWorkspaceSnapshot {
    FfiWorkspaceSnapshot {
        workspace: workspace("local/shell/cli", "cli", true),
        tabs: vec![ClientTab { id: 1, name: "shell".into(), is_active: true }],
        panes: vec![(1, vec![pane(1, false, "first"), pane(2, true, "second")])],
        layouts: vec![(
            1,
            Some(ClientLayout::Split {
                horizontal: true,
                ratio: 500,
                first: Box::new(ClientLayout::Leaf { pane_id: 1 }),
                second: Box::new(ClientLayout::Leaf { pane_id: 2 }),
            }),
        )],
        outputs: vec![(1, b"first".to_vec()), (2, b"second".to_vec())],
    }
}

fn workspace(id: &str, name: &str, active: bool) -> ClientWorkspace {
    ClientWorkspace {
        id: id.into(),
        name: name.into(),
        runtime: "shell".into(),
        active,
        resolved_target: None,
    }
}

#[test]
fn format_ffi_layout_uses_pane_activity() {
    let snapshot = ffi_snapshot_with_split();
    let out = format_ffi_layout(&snapshot, OutputFormat::Text);
    assert!(out.contains("@1 80x24\n"));
    assert!(out.contains("@2 80x24 [active]"));
    assert!(!out.contains("@1 80x24 [active]"));
}

#[test]
fn json_output_is_what_a_serializer_writes() {
    let snapshot = ffi_snapshot_with_split();
    let workspaces = vec![workspace("a", "one \"quoted\"", true), workspace("b", "two", false)];
    for text in [
        format_ffi_workspaces(&workspaces, OutputFormat::Json),
        format_ffi_tabs(&snapshot, OutputFormat::Json),
        format_ffi_panes(&snapshot, Some(1), OutputFormat::Json),
        format_ffi_layout(&snapshot, OutputFormat::Json),
    ] {
        let value: Value = serde_json::from_str(&text).expect("valid JSON");
        assert_eq!(value.to_string(), text);
    }
}

#[test]
fn workspace_text_tells_attached_from_open() {
    let workspaces = vec![workspace("a", "one", true), workspace("b", "two", false)];
    assert_eq!(
        format_ffi_workspaces(&workspaces, OutputFormat::Text),
        "one (shell): attached\ntwo (shell): open"
    );
}

#[test]
fn layout_tree_keeps_its_shape_and_leaves() {
    let snapshot = ffi_snapshot_with_split();
    let layout = snapshot.layouts[0].1.clone().expect("layout");
    assert_eq!(ffi_layout_leaves(&layout), vec![1, 2]);
    let value: Value = serde_json::from_str(&ffi_layout_node_to_json(&layout)).expect("valid JSON");
    assert_eq!(value["type"], "split");
    assert!(ffi_pane_is_active(&snapshot, 1, 2));
    assert!(!ffi_pane_is_active(&snapshot, 1, 1));
}

#[test]
fn capture_shows_the_last_lines_of_a_pane() {
    let state = state_with_pane();
    let all = CliCommand::CapturePane { target: None, lines: None };
    assert_eq!(format_output(&state, &all, OutputFormat::Text), "one\ntwo\nthree\n");
    let last = CliCommand::CapturePane { target: Some(1), lines: Some(2) };
    assert_eq!(format_output(&state, &last, OutputFormat::Text), "two\nthree");
    let missing = CliCommand::CapturePane { target: Some(9), lines: None };
    assert_eq!(format_output(&state, &missing, OutputFormat::Text), "");
    let snapshot = ffi_snapshot_with_split();
    assert_eq!(format_ffi_capture(&snapshot, None, None), "second");
    assert_eq!(format_ffi_capture(&snapshot, Some(1), None), "first");
}

#[test]
fn invalid_bytes_are_shown_as_replacement_characters() {
    let mut state = state_with_pane();
    state.outputs = vec![(1, vec![b'a', 0xff, b'b'])];
    let all = CliCommand::CapturePane { target: None, lines: None };
    assert_eq!(format_output(&state, &all, OutputFormat::Text), "a\u{fffd}b");
}

#[test]
fn message_placeholders_are_filled_in() {
    let snapshot = ffi_snapshot_with_split();
    let text = "#{pane_id} #{pane_active} #{pane_width}x#{pane_height} #{pane_title}";
    assert_eq!(format_ffi_display(&snapshot, 2, text), "@2 true 80x24 second");
    assert_eq!(format_ffi_display(&snapshot, 9, text), "");
    let state = state_with_pane();
    let command = CliCommand::DisplayMessage { target: 1, format: text.into() };
    assert_eq!(format_output(&state, &command, OutputFormat::Text), "@1 true 80x24 shell");
}

#[test]
fn queries_are_answered_by_their_own_formatter() {
    let snapshot = ffi_snapshot_with_split();
    let workspaces = vec![workspace("a", "one", true)];
    assert_eq!(
        format_ffi_output(&workspaces, &snapshot, &CliCommand::ListTabs, OutputFormat::Text),
        format_ffi_tabs(&snapshot, OutputFormat::Text)
    );
    assert_eq!(
        format_ffi_output(&workspaces, &snapshot, &CliCommand::ListWorkspaces, OutputFormat::Json),
        format_ffi_workspaces(&workspaces, OutputFormat::Json)
    );
    assert_eq!(json_escape(r#"a\b"c"#), r#"a\\b\"c"#);
}

#[test]
fn topology_names_the_active_tab_and_pane() {
    let snapshot = ffi_snapshot_with_split();
    let workspaces = vec![workspace("ws", "cli", true)];
    let text = FfiClient::workspace_topology_json(
        &workspaces,
        "ws",
        &snapshot.tabs,
        &snapshot.panes,
        &snapshot.layouts,
    )
    .expect("known workspace");
    let value: Value = serde_json::from_str(&text).expect("valid JSON");
    assert_eq!(value.to_string(), text);
    assert_eq!(value["kind"], "workspace_topology");
    assert_eq!(value["snapshot"]["active_tab"], 1);
    assert_eq!(value["snapshot"]["active_pane"], 2);
    assert_eq!(value["snapshot"]["layouts"][0]["active"], 2);
    assert_eq!(value["snapshot"]["panes"][1]["title"], "second");
    let missing = FfiClient::workspace_topology_json(
        &workspaces,
        "other",
        &snapshot.tabs,
        &snapshot.panes,
        &snapshot.layouts,
    );
    assert_eq!(missing, Err("Core workspace not found: other".into()));
}

fn args(list: &[&str]) -> Vec<String> {
    list.iter().map(|s| s.to_string()).collect()
}

#[test]
fn arguments_decide_who_handles_a_command() {
    let list = CliCommand::ListTabs;
    assert_eq!(route(&list, &args(&["list-tabs"])), CliRoute::Ephemeral);
    assert_eq!(
        route(&list, &args(&["list-tabs", "-L", "sock"])),
        CliRoute::Tmux { socket: "sock".into() }
    );
    assert_eq!(
        route(&list, &args(&["-s", "dev", "-L", "sock"])),
        CliRoute::Daemon { name: "dev".into(), tmux_socket: Some("sock".into()) }
    );
    assert_eq!(
        route(&CliCommand::Config { args: Vec::new() }, &args(&["-s", "dev"])),
        CliRoute::Config
    );
    assert_eq!(extract_socket_arg(&args(&["-L"])), None);
    let new = CliCommand::NewWorkspace { socket: Some("s".into()) };
    assert_eq!(extract_session_name(&new, &args(&["-s", "t"])).as_deref(), Some("s"));
    assert!(is_tmux_cli(&args(&["tmux", "ls"])));
    assert!(!is_tmux_cli(&args(&["ls", "tmux"])));
    assert!(!is_tmux_cli(&Vec::new()));
}

#[test]
fn tmux_session_is_made_only_where_it_is_missing() {
    let sessions =
        vec![TmuxSessionEntry { name: "main".into(), windows: 1, attached: true, created: 0 }];
    let list = CliCommand::ListTabs;
    let chosen = select_tmux_session(&list, &Some("dev".into()), &sessions);
    assert_eq!((chosen.session.as_deref(), chosen.create), (Some("dev"), true));
    let chosen = select_tmux_session(&list, &Some("main".into()), &sessions);
    assert!(!chosen.create);
    let chosen = select_tmux_session(&list, &None, &sessions);
    assert_eq!((chosen.session.as_deref(), chosen.create), (Some("main"), false));
    let attach = CliCommand::AttachWorkspace { target: "gone".into() };
    let chosen = select_tmux_session(&attach, &None, &sessions);
    assert_eq!((chosen.session.as_deref(), chosen.create), (Some("gone"), false));
    assert_eq!(select_tmux_session(&list, &None, &Vec::new()).session, None);
}

#[test]
fn a_session_takes_the_active_workspace() {
    let session = FfiCliSession::connect(&vec![workspace("a", "a", false), workspace("b", "b", true)]);
    assert_eq!(session.expect("session").workspace_id, "b");
    let session = FfiCliSession::connect(&vec![workspace("a", "a", false)]);
    assert_eq!(session.expect("session").workspace_id, "a");
    assert_eq!(
        FfiCliSession::connect(&Vec::new()).err(),
        Some("Core returned no CLI workspace")
    );
}

#[test]
fn commands_become_one_call_or_an_error() {
    let session = FfiCliSession { workspace_id: "ws".into() };
    let keys = CliCommand::SendKeys { target: None, text: "ls".into() };
    match session.execute_command(&keys, Some(1), Some(4)) {
        CommandPlan::Call { call: CoreCall::WorkspaceSendInput { workspace_id, pane_id, data }, .. } => {
            assert_eq!(workspace_id, "ws");
            assert_eq!(pane_id, 4);
            assert!(data.starts_with(b"ls"));
        }
        other => panic!("{other:?}"),
    }
    assert_eq!(
        session.execute_command(&keys, Some(1), None),
        CommandPlan::Fail("Core returned no active pane")
    );
    assert_eq!(session.execute_command(&CliCommand::ListTabs, None, None), CommandPlan::Done);
    assert_eq!(FfiCliSession::prepare_for_command(&keys, Some(4)), Some(4));
    assert_eq!(FfiCliSession::prepare_for_command(&CliCommand::ListTabs, Some(4)), None);
    assert_eq!(
        FfiCliSession::check_code("task", -2),
        Err("Core FFI task failed with code -2".into())
    );
    assert_eq!(FfiCliSession::check_code("task", 0), Ok(()));
}

#[test]
fn settling_takes_longer_after_input() {
    let keys = CliCommand::WriteRaw { target: None, data: vec![1] };
    assert_eq!(command_settle_duration(&keys), 2000);
    assert_eq!(command_settle_duration(&CliCommand::ListTabs), 500);
    assert_eq!(daemon_settle_duration(&CliCommand::CloseWorkspace), None);
    assert_eq!(daemon_settle_duration(&CliCommand::ListTabs), Some(500));
}

#[test]
fn stale_daemon_files_are_replaced() {
    assert_eq!(ensure_daemon(false, false), DaemonStart::Start);
    assert_eq!(ensure_daemon(true, true), DaemonStart::Keep);
    assert_eq!(ensure_daemon(true, false), DaemonStart::Replace);
    assert_eq!(
        missing_session("dev", "/run/dev.sock"),
        "session 'dev' 不存在（socket: /run/dev.sock）。用 `muxterm new-session -s dev` 创建。"
    );
}

#[test]
fn a_snapshot_of_the_pane_is_waited_for() {
    let event = |type_, pane_id| ClientWorkspaceEvent {
        workspace_id: "ws".into(),
        event: ClientEvent {
            type_,
            pane_id,
            tab_id: 0,
            window_id: 0,
            data: Vec::new(),
            name: String::new(),
        },
    };
    assert!(has_pane_snapshot(&vec![event(STATE_PANE_OUTPUT, 1), event(STATE_PANE_SNAPSHOT, 3)], 3));
    assert!(!has_pane_snapshot(&vec![event(STATE_PANE_SNAPSHOT, 3)], 4));
    assert!(!has_pane_snapshot(&vec![event(STATE_PANE_OUTPUT, 4)], 4));
}
