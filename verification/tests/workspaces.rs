use muxterm_frontend::client::attention::{
    activity_snapshot, complete_snapshot, ClientActivitySnapshot, ClientAttentionPane,
    ClientWorkspaceAttention,
};
use muxterm_frontend::client::call::FfiClient;
use muxterm_frontend::client::config::ClientTmuxConfig;
use muxterm_frontend::client::gather::{
    ffi_workspace_snapshot, layout_calls, output_calls, pane_calls, panes_by_tab,
};
use muxterm_frontend::client::query::{CArg, CFunction};
use muxterm_frontend::client::runtime::ConnectCall;
use muxterm_frontend::client::types::{
    ClientCandidateRef, ClientLayout, ClientOpenIntent, ClientOpenRequest, ClientOpenedWorkspace,
    ClientPane, ClientSearchHit, ClientTab, ClientWorkspace, ResolvedTarget,
};
use muxterm_frontend::linux::aggregate::{AggregateKind, AggregateSelection};
use muxterm_frontend::linux::connection::{
    connect_failed, connect_open_request, connect_target, connect_target_with_intent,
    discover_arguments, find_socket, local_shell_target, open_connect_sessions, open_created,
    open_local_shell, open_request_answered, open_tmux_attach, opened_target, poll_pending_open,
    recent_workspaces,
    AfterOpen, HostPick, OpenReply, OpenStart, PendingWorkspaceOpen, SessionStep, TmuxAction,
};
use muxterm_frontend::linux::panel_rows::PanelTab;
use muxterm_frontend::linux::target::{
    client_target_from_config, workspace_id_for_config, workspace_to_draft_config, TargetConfig,
    TargetRuntime, TargetTransport,
};
use muxterm_frontend::linux::window_actions::Action;
use muxterm_frontend::linux::window_bootstrap::{
    badge_tab, capacity_limit, find_in_pane, line_holding, poll_turn, press_key, startup,
    startup_workspace, uses_tmux, KeyOutcome, PollStep,
};
use muxterm_frontend::linux::workspace_sidebar_model::{
    ActivityIndicator, AgentSidebarItem, CommandSidebarItem, ViewStore, WorkspaceSidebarItem,
    WorkspaceView,
};
use muxterm_frontend::workspace_id::{parse_workspace_id, transport_label, WorkspaceId};

fn workspace(id: &str, name: &str, runtime: &str) -> ClientWorkspace {
    ClientWorkspace {
        id: id.into(),
        name: name.into(),
        runtime: runtime.into(),
        active: false,
        resolved_target: None,
    }
}

fn pane(id: u32, active: bool) -> ClientPane {
    ClientPane { id, cols: 80, rows: 24, is_active: active, title: String::new() }
}

fn view(id: &str, name: &str, runtime: &str, panes: Vec<u32>) -> WorkspaceView {
    WorkspaceView {
        key: id.into(),
        replica_id: id.into(),
        workspace: Some(workspace(id, name, runtime)),
        tabs: Vec::new(),
        panes: vec![(1, panes.into_iter().map(|p| pane(p, false)).collect())],
        layouts: Vec::new(),
    }
}

fn attention(pane_id: u32, status: &str) -> ClientAttentionPane {
    ClientAttentionPane {
        workspace_id: String::new(),
        pane_id,
        status: status.into(),
        acknowledged: false,
        last_line: String::new(),
        seq: 0,
        process_name: None,
        process_is_agent: false,
        agent_name: None,
        shell_name: None,
    }
}

fn attention_of(id: &str, panes: Vec<ClientAttentionPane>) -> ClientWorkspaceAttention {
    ClientWorkspaceAttention {
        workspace_id: id.into(),
        path: "/p".into(),
        blocked: 0,
        done: 0,
        working: 0,
        panes,
    }
}

#[test]
fn identities_read_back() {
    let id = WorkspaceId::new("ssh", Some("box"), "agent", "herdr", "/srv/a");
    assert_eq!(id.as_str(), "ssh/box/agent/herdr//srv/a");
    assert_eq!(parse_workspace_id(&id.as_str()), Some(id));
    let plain = WorkspaceId::new("local", None, "", "shell", "");
    assert_eq!(plain.as_str(), "local///shell/");
    assert_eq!(parse_workspace_id("local///shell/"), Some(plain));
    assert_eq!(parse_workspace_id("local/x"), None);
    assert_eq!(parse_workspace_id("/a/b/c/d"), None);
    assert_eq!(transport_label("ssh/box/s/tmux/"), "box");
    assert_eq!(transport_label("nonsense"), "local");
}

#[test]
fn sidebar_rows_are_ordered_by_id() {
    let mut views: Vec<WorkspaceView> = (0..7)
        .rev()
        .map(|n| view(&format!("local//s{n}/tmux/"), &format!("s{n}"), "tmux", Vec::new()))
        .collect();
    views.push(view("unreadable", "x", "tmux", Vec::new()));
    let store = ViewStore { views, active_workspace_id: Some("local//s3/tmux/".into()) };
    let rows = WorkspaceSidebarItem::from_views(&store);
    let names: Vec<&str> = rows.iter().map(|row| row.name.as_str()).collect();
    assert_eq!(names, ["s0", "s1", "s2", "s3", "s4", "s5", "s6"]);
    let shortcuts: Vec<Option<u8>> = rows.iter().map(|row| row.shortcut).collect();
    assert_eq!(shortcuts, [Some(1), Some(2), Some(3), Some(4), Some(5), None, None]);
    let active: Vec<bool> = rows.iter().map(|row| row.active).collect();
    assert_eq!(active, [false, false, false, true, false, false, false]);
    let other = WorkspaceSidebarItem::from_views_with_active(&store, Some("local//s0/tmux/"));
    assert!(other[0].active && !other[3].active);
}

#[test]
fn activity_rows_tell_agents_from_commands() {
    let id = "ssh/box/s/tmux//srv";
    let store = ViewStore {
        views: vec![view(id, "s", "tmux", vec![1, 2, 3, 4])],
        active_workspace_id: None,
    };
    let mut agent = attention(1, "blocked");
    agent.process_name = Some("codex".into());
    agent.process_is_agent = true;
    let mut build = attention(2, "working");
    build.process_name = Some("make".into());
    build.last_line = "ok".into();
    let mut read = attention(3, "done");
    read.process_name = Some("cargo".into());
    read.acknowledged = true;
    let activity = ClientActivitySnapshot {
        blocked_count: 1,
        workspaces: vec![attention_of(id, vec![agent, build, read])],
    };
    let agents = AgentSidebarItem::from_views(&store, &activity);
    assert_eq!(agents.len(), 1);
    assert_eq!((agents[0].pane_id, agents[0].title.as_str()), (1, "codex"));
    assert_eq!(agents[0].indicator, ActivityIndicator::Done);
    assert_eq!(agents[0].detail, "s@tmux@box · /srv");
    let commands = CommandSidebarItem::from_views(&store, &activity);
    assert_eq!(commands.len(), 1);
    assert_eq!((commands[0].pane_id, commands[0].title.as_str()), (2, "make"));
    assert_eq!(commands[0].indicator, ActivityIndicator::Running);
    assert_eq!(commands[0].detail, "s@tmux@box");
}

#[test]
fn activity_is_merged_into_what_the_core_reports() {
    let core = || ClientActivitySnapshot {
        blocked_count: 1,
        workspaces: vec![
            ClientWorkspaceAttention { blocked: 1, ..attention_of("a", vec![attention(1, "blocked")]) },
            attention_of("b", vec![attention(2, "working")]),
        ],
    };
    let nothing = activity_snapshot(core(), &Vec::new());
    assert_eq!(nothing, core());
    let seen = vec![
        attention_of("b", vec![attention(2, "blocked"), attention(9, "unknown")]),
        attention_of("c", vec![attention(5, "done")]),
    ];
    let merged = activity_snapshot(core(), &seen);
    let ids: Vec<&str> = merged.workspaces.iter().map(|w| w.workspace_id.as_str()).collect();
    assert_eq!(ids, ["a", "b", "c"]);
    assert_eq!(merged.blocked_count, 2);
    let b = &merged.workspaces[1];
    assert_eq!((b.blocked, b.done, b.working), (1, 0, 0));
    assert_eq!(b.panes.len(), 1);
    let c = &merged.workspaces[2];
    assert_eq!((c.blocked, c.done, c.working), (0, 1, 0));
    assert_eq!(c.path, "");
}

#[test]
fn panes_get_the_workspace_they_were_listed_under() {
    let mut named = attention(2, "done");
    named.workspace_id = "other".into();
    let snapshot = ClientActivitySnapshot {
        blocked_count: 0,
        workspaces: vec![attention_of("a", vec![attention(1, "done"), named])],
    };
    let complete = complete_snapshot(snapshot);
    assert_eq!(complete.workspaces[0].panes[0].workspace_id, "a");
    assert_eq!(complete.workspaces[0].panes[1].workspace_id, "other");
}

fn ssh_target() -> TargetConfig {
    TargetConfig {
        name: "box".into(),
        runtime: TargetRuntime::Tmux,
        transport: TargetTransport::Ssh { name: "buildbox".into() },
        path: "/srv".into(),
        session: Some("main".into()),
        socket: Some("/s".into()),
        workspace_id: None,
    }
}

#[test]
fn an_identity_leads_back_to_its_target() {
    let config = ssh_target();
    let id = workspace_id_for_config(&config, "main");
    assert_eq!(id.as_str(), "ssh/buildbox/main/tmux//srv");
    let open = workspace(&id.as_str(), "shown", "tmux");
    let back = workspace_to_draft_config(&open, Some("/s"), "default");
    assert_eq!(back.transport, config.transport);
    assert_eq!(back.path, config.path);
    assert_eq!(back.session, config.session);
    assert_eq!(back.socket, config.socket);
    assert_eq!(back.name, "main");
}

#[test]
fn a_resolved_target_decides() {
    let value = r#"{"canonical":{"name":"n","runtime":"herdr","transport":"ssh","target":"box","path":7,"session":"agent","workspace_id":"w7"}}"#;
    let resolved = ResolvedTarget::from_json(value).expect("canonical target");
    assert_eq!(resolved.name.as_deref(), Some("n"));
    assert_eq!(resolved.path, None);
    assert_eq!(resolved.socket, None);
    assert_eq!(ResolvedTarget::from_json("{}"), None);
    assert_eq!(ResolvedTarget::from_json("[1]"), None);
    let mut open = workspace("local//s/tmux/", "shown", "tmux");
    open.resolved_target = Some(resolved);
    let config = workspace_to_draft_config(&open, Some("/kept"), "default");
    assert_eq!(config.name, "n");
    assert_eq!(config.runtime, TargetRuntime::Herdr);
    assert_eq!(config.transport, TargetTransport::Ssh { name: "box".into() });
    assert_eq!(config.path, "");
    assert_eq!(config.socket.as_deref(), Some("/kept"));
    assert_eq!(config.workspace_id.as_deref(), Some("w7"));
    let lost = workspace_to_draft_config(&workspace("x", "name", "odd"), None, "default");
    assert_eq!(lost, TargetConfig::new("name", TargetRuntime::Tmux, TargetTransport::Local, ""));
}

#[test]
fn targets_are_opened_with_an_intent() {
    let call = connect_target(&ssh_target());
    assert_eq!(call.function, CFunction::OpenTarget);
    assert_eq!(
        call.args,
        vec![
            CArg::Text(
                r#"{"name":"box","path":"/srv","runtime":"tmux","session":"main","socket":"/s","target":"buildbox","transport":"ssh"}"#
                    .into()
            ),
            CArg::Text("create_if_missing".into()),
        ]
    );
    assert_eq!(
        call,
        FfiClient::open_target(
            &client_target_from_config(&ssh_target()),
            ClientOpenIntent::CreateIfMissing
        )
    );
    let attach = connect_target_with_intent(&ssh_target(), ClientOpenIntent::AttachOnly);
    assert_eq!(attach.args[1], CArg::Text("attach_only".into()));
    let (id, socket) = opened_target("local//s/tmux/", &ssh_target()).expect("readable id");
    assert_eq!(id.session, "s");
    assert_eq!(socket.as_deref(), Some("/s"));
    assert_eq!(opened_target("x", &ssh_target()), None);
    let shell = local_shell_target();
    assert_eq!((shell.name.as_str(), shell.path.as_str()), ("local", "~"));
    assert_eq!(shell.runtime, TargetRuntime::Shell);
}

fn session_of(request: &ClientOpenRequest) -> (String, String, Option<String>) {
    let ClientCandidateRef::Existing { identity } = &request.candidate else {
        panic!("an existing session is attached to");
    };
    (
        identity.target.clone(),
        identity.session.clone().unwrap_or_default(),
        identity.socket.clone(),
    )
}

#[test]
fn sessions_are_attached_to_or_created() {
    let attach = open_tmux_attach(TmuxAction::Attach { session: "s".into() }, Some("/k"), None);
    let SessionStep::Open(request) = attach else {
        panic!("a running session is opened");
    };
    assert_eq!(session_of(&request), ("local".into(), "s".into(), Some("/k".into())));
    assert_eq!(request.intent, ClientOpenIntent::AttachOnly);
    assert_eq!(
        open_tmux_attach(TmuxAction::NewWorkspace { name: None }, Some("/k"), None),
        SessionStep::Create(FfiClient::create_workspace("local", None, Some("/k"), "muxterm", "/tmp"))
    );
    assert_eq!(
        open_connect_sessions("box", HostPick::NewSession("n".into()), Some("/home/u".into())),
        SessionStep::Create(FfiClient::create_workspace("ssh", Some("box"), None, "n", "/home/u"))
    );
    assert_eq!(
        open_connect_sessions("local", HostPick::NewSession("n".into()), None),
        SessionStep::Create(FfiClient::create_workspace("local", None, None, "n", "/tmp"))
    );
    let picked = open_connect_sessions("box", HostPick::Session("s".into()), None);
    let SessionStep::Open(request) = picked else {
        panic!("a running session is opened");
    };
    assert_eq!(session_of(&request), ("box".into(), "s".into(), None));
    let created = open_created("local", "n-2".into(), Some("/k".into()));
    assert_eq!(session_of(&created), ("local".into(), "n-2".into(), Some("/k".into())));
    assert_eq!(discover_arguments("local"), ("local", String::new()));
    assert_eq!(discover_arguments("box"), ("ssh", "box".to_string()));
}

fn pending(activate: bool) -> PendingWorkspaceOpen {
    PendingWorkspaceOpen { label: "recent k".into(), socket: None, activate, shells: false }
}

fn opened(id: &str) -> OpenReply {
    OpenReply::Opened(ClientOpenedWorkspace {
        id: id.into(),
        name: "s".into(),
        resolved_target: ResolvedTarget::from_json(r#"{"canonical":{"socket":"/r"}}"#),
    })
}

#[test]
fn one_workspace_opens_at_a_time() {
    let request = ClientOpenRequest {
        candidate: ClientCandidateRef::Recent { key: "k".into() },
        intent: ClientOpenIntent::AttachOnly,
        template: None,
        activate: true,
    };
    assert_eq!(connect_open_request(true, &request), OpenStart::ShowLoading);
    assert_eq!(connect_open_request(false, &request), OpenStart::Start(pending(true)));
    assert_eq!(open_local_shell(true), None);
    assert!(open_local_shell(false).is_some_and(|shell| shell.shells && shell.activate));
    assert_eq!(connect_failed("recent k", "gone"), "recent k: connect failed: gone");
}

#[test]
fn a_request_that_starts_leaves_the_aggregate_list() {
    let mut aggregate = AggregateSelection::default();
    aggregate.open(AggregateKind::Shells);
    let mut waiting: Option<PendingWorkspaceOpen> = None;
    let line = open_request_answered(&mut aggregate, &mut waiting, pending(true), Err("gone".into()));
    assert_eq!(line.as_deref(), Some("recent k: connect failed: gone"));
    assert_eq!((aggregate.kind, &waiting), (Some(AggregateKind::Shells), &None));
    let shell = open_local_shell(false).expect("a shell");
    let line =
        open_request_answered(&mut aggregate, &mut waiting, shell.clone(), Err("gone".into()));
    assert_eq!(line.as_deref(), Some("local shell: gone"));
    assert_eq!(open_request_answered(&mut aggregate, &mut waiting, shell, Ok(())), None);
    assert_eq!(aggregate.kind, Some(AggregateKind::Shells));
    assert_eq!(open_request_answered(&mut aggregate, &mut waiting, pending(true), Ok(())), None);
    assert_eq!((aggregate.kind, waiting), (None, Some(pending(true))));
}

#[test]
fn commands_are_not_named_by_pane_titles() {
    let id = "local//s/tmux/";
    let mut store = ViewStore {
        views: vec![view(id, "s", "tmux", vec![1, 2])],
        active_workspace_id: None,
    };
    let make = |pane_id: u32, status: &str, process: Option<&str>| ClientAttentionPane {
        process_name: process.map(str::to_string),
        process_is_agent: false,
        agent_name: None,
        ..attention(pane_id, status)
    };
    let activity = ClientActivitySnapshot {
        blocked_count: 0,
        workspaces: vec![attention_of(
            id,
            vec![make(1, "working", Some("make")), make(2, "working", Some(" "))],
        )],
    };
    let before = CommandSidebarItem::from_views(&store, &activity);
    assert_eq!(before.len(), 1);
    assert_eq!((before[0].pane_id, before[0].title.as_str()), (1, "make"));
    store.views[0].panes[0].1[0].title = "other".into();
    assert_eq!(CommandSidebarItem::from_views(&store, &activity), before);
}

#[test]
fn a_workspace_opened_in_the_background_stays_back() {
    let id = "local//s/tmux/";
    let shown = poll_pending_open(&pending(true), true, &opened(id), None);
    assert_eq!(shown.after, AfterOpen::Activate { shells: false });
    assert!(shown.remove_loading && !shown.show_active && !shown.keep_waiting);
    let (key, socket) = shown.remember.expect("readable id");
    assert_eq!((key.as_str(), socket), (id.to_string(), Some("/r".to_string())));
    let left = poll_pending_open(&pending(true), false, &opened(id), None);
    assert_eq!(left.after, AfterOpen::Background(parse_workspace_id(id).expect("readable id")));
    let unsynced = poll_pending_open(&pending(true), true, &opened(id), Some("no core"));
    assert_eq!(unsynced.after, AfterOpen::Nothing);
    assert_eq!(unsynced.notification.as_deref(), Some("recent k: no core"));
    let failed = OpenReply::Failed { error: "refused".into() };
    let told = poll_pending_open(&pending(true), true, &failed, None);
    assert_eq!(told.error_page.as_deref(), Some("recent k\nrefused"));
    assert!(!told.remove_loading);
    let shell = open_local_shell(false).expect("a shell");
    let kept = poll_pending_open(&shell, true, &failed, None);
    assert_eq!(kept.error_page, None);
    assert_eq!(kept.notification.as_deref(), Some("local shell: refused"));
    assert!(!kept.remove_loading && !kept.show_active && !kept.keep_waiting);
    let gone = poll_pending_open(&shell, false, &failed, None);
    assert!(gone.remove_loading && gone.error_page.is_none());
    assert!(poll_pending_open(&pending(true), true, &OpenReply::Waiting, None).keep_waiting);
}

#[test]
fn recent_workspaces_know_their_sockets() {
    let store = ViewStore {
        views: vec![
            view("local//b/tmux/", "b", "tmux", Vec::new()),
            view("local//a/tmux/", "a", "tmux", Vec::new()),
        ],
        active_workspace_id: None,
    };
    let id = parse_workspace_id("local//a/tmux/").expect("readable id");
    let sockets = vec![(id.clone(), Some("/s".to_string()))];
    let recent = recent_workspaces(&store, &sockets, 1);
    assert_eq!(recent.len(), 1);
    assert_eq!(recent[0].0.name, "a");
    assert_eq!(recent[0].1.as_deref(), Some("/s"));
    assert_eq!(find_socket(&sockets, &Some(id)).as_deref(), Some("/s"));
    assert_eq!(find_socket(&sockets, &None), None);
}

#[test]
fn the_window_connects_to_tmux_and_falls_back_to_a_shell() {
    let config = |socket: &str| ClientTmuxConfig {
        auto_mouse: true,
        default_session: " main ".into(),
        socket: socket.into(),
    };
    let local = ConnectCall::NewConnect {
        runtime: "local".into(),
        socket: None,
        session: None,
        ssh_alias: None,
        start_directory: Some(String::new()),
    };
    let plain = startup(&config("  "));
    assert_eq!(plain.socket, None);
    assert_eq!(plain.attempts, vec![local]);
    let tmux = startup(&config(" /s "));
    assert_eq!(tmux.socket.as_deref(), Some("/s"));
    assert_eq!(tmux.attempts.len(), 2);
    assert_eq!(
        tmux.attempts[0],
        ConnectCall::NewConnect {
            runtime: "tmux".into(),
            socket: Some("/s".into()),
            session: Some("main".into()),
            ssh_alias: None,
            start_directory: None,
        }
    );
}

#[test]
fn the_window_starts_with_the_active_workspace() {
    let views = || vec![view("local//a/tmux/", "a", "tmux", Vec::new())];
    let active = ViewStore { views: views(), active_workspace_id: Some("local//b/shell/".into()) };
    assert_eq!(startup_workspace(&active).expect("readable id").session, "b");
    let first = ViewStore { views: views(), active_workspace_id: None };
    assert_eq!(startup_workspace(&first).expect("readable id").session, "a");
    let none = ViewStore { views: Vec::new(), active_workspace_id: None };
    assert_eq!(startup_workspace(&none), None);
    assert!(uses_tmux(&first.views, "local//a/tmux/"));
    assert!(!uses_tmux(&first.views, "local//b/tmux/"));
    assert_eq!((capacity_limit(0), capacity_limit(7)), (1, 7));
    assert_eq!(badge_tab(0), PanelTab::Workspaces);
    assert_eq!(badge_tab(2), PanelTab::Attention);
}

#[test]
fn keys_that_are_bound_are_taken() {
    assert_eq!(press_key(None, true), KeyOutcome::Proceed);
    assert_eq!(press_key(Some(Action::Quit), true), KeyOutcome::Quit);
    assert_eq!(
        press_key(Some(Action::QuickConnect), false),
        KeyOutcome::OpenPanel(PanelTab::Workspaces)
    );
    assert_eq!(press_key(Some(Action::Search), true), KeyOutcome::OpenPanel(PanelTab::Search));
    assert_eq!(press_key(Some(Action::Copy), true), KeyOutcome::OpenPaneFind);
    assert_eq!(press_key(Some(Action::Copy), false), KeyOutcome::Run(Action::Copy));
}

#[test]
fn input_is_written_after_the_core_was_heard() {
    let turn = poll_turn();
    let at = |step: PollStep| turn.iter().position(|s| *s == step).expect("step of the turn");
    assert!(at(PollStep::Events) < at(PollStep::RefreshWorkspaces));
    assert!(at(PollStep::RefreshWorkspaces) < at(PollStep::PaneOutputs));
    assert!(at(PollStep::WindowSize) < at(PollStep::SurfaceInput));
    assert!(at(PollStep::SurfaceInput) < at(PollStep::FlushCommands));
    assert_eq!(turn.len(), 17);
}

#[test]
fn lines_and_hits_are_found_in_order() {
    let lines = vec!["one".to_string(), "two of three".to_string(), "three".to_string()];
    assert_eq!(line_holding(&lines, "three"), Some(1));
    assert_eq!(line_holding(&lines, "four"), None);
    let hit = |workspace_id: &str, pane_id: u32, seq: u64| ClientSearchHit {
        workspace_id: workspace_id.into(),
        tab_id: 1,
        pane_id,
        seq,
        line: String::new(),
    };
    let hits = vec![hit("b", 1, 5), hit("a", 2, 6), hit("a", 1, 7), hit("a", 1, 8)];
    assert_eq!(find_in_pane("x", &hits, "a", 1), Some(7));
    assert_eq!(find_in_pane("", &hits, "a", 1), None);
    assert_eq!(find_in_pane("x", &hits, "c", 1), None);
}

#[test]
fn a_workspace_is_put_together_from_answers() {
    let tabs = vec![
        ClientTab { id: 4, name: "t".into(), is_active: true },
        ClientTab { id: 5, name: "u".into(), is_active: false },
    ];
    assert_eq!(
        pane_calls("w", &tabs),
        vec![FfiClient::get_workspace_panes("w", 4), FfiClient::get_workspace_panes("w", 5)]
    );
    assert_eq!(layout_calls("w", &tabs)[1], FfiClient::get_workspace_layout("w", 5));
    let panes = panes_by_tab(&tabs, vec![vec![pane(7, true)], vec![pane(8, false), pane(9, true)]]);
    assert_eq!(panes[1].0, 5);
    let asked = output_calls("w", &panes);
    assert_eq!(asked.len(), 3);
    assert_eq!(asked[2], FfiClient::get_workspace_pane_output("w", 9));
    let listed = vec![workspace("w", "name", "tmux")];
    let layouts = vec![Some(ClientLayout::Leaf { pane_id: 7 }), None];
    let outputs = vec![b"a".to_vec(), Vec::new(), b"c".to_vec()];
    let snapshot = ffi_workspace_snapshot(&listed, "w", tabs, panes, layouts, outputs)
        .expect("listed workspace");
    assert_eq!(snapshot.workspace.name, "name");
    assert_eq!(snapshot.layouts[1], (5, None));
    assert_eq!(snapshot.outputs[2], (9, b"c".to_vec()));
    let missing =
        ffi_workspace_snapshot(&listed, "x", Vec::new(), Vec::new(), Vec::new(), Vec::new());
    assert_eq!(missing.err().as_deref(), Some("Core workspace not found: x"));
}
