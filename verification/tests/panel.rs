use muxterm_frontend::client::attention::{ClientAttentionPane, ClientAttentionStatus};
use muxterm_frontend::client::types::ClientSearchHit;
use muxterm_frontend::linux::existing::{ExistingEntry, ExistingRuntime, ExistingTransport};
use muxterm_frontend::linux::panel_model::{
    existing_items, folder_nav, ExistingNav, ExistingPanelState, ExistingRow, PanelItem,
    QuickBadge, QuickConnectEntry,
};
use muxterm_frontend::linux::panel_rows::{
    filter_attention_panel_rows, filter_attention_rows, filter_panel_items, filter_workspace_rows,
    search_hits, search_rows, AttentionPanelRow, PanelModel, PanelTab, SearchRow, SearchScope,
    WorkspaceRow,
};
use muxterm_frontend::linux::quickconnect_panel::{
    attention_list, attention_panel_row, badge_class, completion_aliases, existing_connect_name,
    existing_row, mute_seconds, panel_size, press_arrow, reachability_dot, search_list,
    select_first, select_row, selected_pane, tab_parts, target_row, workspace_list,
    workspace_status, ActionEffect, PanelController, PanelShowArgs, PanelTexts, RowAction,
    SshReach, TabKey, VisibleAction,
};
use muxterm_frontend::linux::target::{TargetConfig, TargetRuntime, TargetTransport};
use muxterm_frontend::linux::workspace_sidebar_model::{ActivityIndicator, AgentSidebarItem};
use muxterm_frontend::workspace_id::WorkspaceId;

fn attention(ws: &str, pane: u32, status: ClientAttentionStatus, seq: u64) -> ClientAttentionPane {
    ClientAttentionPane {
        workspace_id: ws.into(),
        pane_id: pane,
        status: format!("{status:?}").to_lowercase(),
        acknowledged: false,
        last_line: format!("line-{pane}"),
        seq,
        process_name: Some("cat".into()),
        process_is_agent: false,
        agent_name: None,
        shell_name: Some("zsh".into()),
    }
}

#[test]
fn panel_tab_cycle_wraps() {
    let mut m = PanelModel::open(PanelTab::Workspaces);
    m.cycle_tab(false);
    assert_eq!(m.tab, PanelTab::Attention);
    m.cycle_tab(false);
    assert_eq!(m.tab, PanelTab::Search);
    m.cycle_tab(false);
    assert_eq!(m.tab, PanelTab::Workspaces);
    m.cycle_tab(true);
    assert_eq!(m.tab, PanelTab::Search);
}

#[test]
fn query_survives_tab_change() {
    let mut m = PanelModel::open(PanelTab::Workspaces);
    m.query = "legion".into();
    m.cycle_tab(false);
    assert_eq!(m.query, "legion");
}

#[test]
fn attention_keeps_running_and_unread_done_but_hides_read_items() {
    let mut read = attention("ws-e", 5, ClientAttentionStatus::Done, 5);
    read.acknowledged = true;
    let rows = filter_attention_rows(
        &vec![
            attention("ws-a", 1, ClientAttentionStatus::Done, 1),
            attention("ws-b", 2, ClientAttentionStatus::Blocked, 2),
            attention("ws-c", 3, ClientAttentionStatus::Working, 3),
            attention("ws-d", 4, ClientAttentionStatus::Idle, 4),
            read,
        ],
        "",
    );
    assert_eq!(rows.len(), 3);
    assert_eq!(rows[0].attention.workspace_id, "ws-b");
    assert_eq!(rows[1].attention.workspace_id, "ws-a");
    assert_eq!(rows[2].attention.workspace_id, "ws-c");
}

#[test]
fn attention_query_filters_by_workspace_process_line() {
    let rows = filter_attention_rows(
        &vec![
            attention("legion", 1, ClientAttentionStatus::Blocked, 1),
            attention("other", 2, ClientAttentionStatus::Blocked, 2),
        ],
        "legion",
    );
    assert_eq!(rows.len(), 1);
    assert_eq!(rows[0].attention.workspace_id, "legion");
}

#[test]
fn attention_panel_keeps_running_and_unread_agents_without_duplicates() {
    let first_id = WorkspaceId::new("local", None, "alpha", "tmux", "/work/alpha");
    let second_id = WorkspaceId::new("local", None, "beta", "tmux", "/work/beta");
    let agents = vec![
        AgentSidebarItem {
            workspace_id: first_id,
            replica_id: "alpha:/work/alpha@local".into(),
            pane_id: 7,
            title: "pi".into(),
            detail: "/work/alpha · main".into(),
            indicator: ActivityIndicator::Running,
        },
        AgentSidebarItem {
            workspace_id: second_id,
            replica_id: "beta:/work/beta@local".into(),
            pane_id: 9,
            title: "codex".into(),
            detail: "/work/beta · feature/panel".into(),
            indicator: ActivityIndicator::Quiet,
        },
    ];
    let mut seen_agent = attention("beta:/work/beta@local", 9, ClientAttentionStatus::Done, 2);
    seen_agent.acknowledged = true;
    let panes = vec![
        attention("alpha:/work/alpha@local", 7, ClientAttentionStatus::Working, 1),
        seen_agent,
        attention("plain@local", 11, ClientAttentionStatus::Blocked, 3),
    ];

    let rows = filter_attention_panel_rows(&agents, &panes, "");
    assert_eq!(rows.len(), 2, "read agents leave Attention and panes must not duplicate");
    assert_eq!(rows[0].title, "pi");
    assert_eq!(rows[0].indicator, ActivityIndicator::Running);
    assert_eq!(rows[1].workspace_id, "plain@local");

    let filtered = filter_attention_panel_rows(&agents, &panes, "feature/panel");
    assert!(filtered.is_empty(), "read agent must stay out of Attention even when queried");
}

#[test]
fn a_blank_query_shows_every_live_pane_once() {
    let panes = vec![
        attention("alpha", 1, ClientAttentionStatus::Working, 1),
        attention("alpha", 2, ClientAttentionStatus::Blocked, 2),
        attention("b", 1, ClientAttentionStatus::Idle, 3),
        attention("b", 2, ClientAttentionStatus::Done, 4),
    ];
    for query in ["", "  ", "\t"] {
        let rows = filter_attention_panel_rows(&Vec::new(), &panes, query);
        let ids: Vec<(&str, u32)> =
            rows.iter().map(|row| (row.workspace_id.as_str(), row.pane_id)).collect();
        assert_eq!(ids, [("alpha", 2), ("b", 2), ("alpha", 1)]);
    }
    let hits = vec![hit("w", 4, 17, "line")];
    assert_eq!(filter_attention_rows(&panes, " ALPHA ").len(), 2);
    assert_eq!(search_rows(" ", hits.clone()), (hits, false));
}

fn config(name: &str, path: &str, transport: TargetTransport) -> TargetConfig {
    TargetConfig {
        name: name.into(),
        runtime: TargetRuntime::Tmux,
        transport,
        path: path.into(),
        session: None,
        socket: None,
        workspace_id: None,
    }
}

fn target(id: &str, name: &str, path: &str) -> PanelItem {
    PanelItem::Target(
        QuickConnectEntry {
            id: id.into(),
            config: config(name, path, TargetTransport::Local),
            badges: Vec::new(),
            project_id: None,
        },
        false,
    )
}

#[test]
fn workspace_order_stable_when_status_changes() {
    let items = vec![target("a-id", "a", "/tmp/a"), PanelItem::NewProject];
    let rows = filter_workspace_rows(&items, "", &vec![None, None], "New project", |_| {
        Some(ClientAttentionStatus::Blocked)
    });
    assert_eq!(rows.len(), 2);
    assert_eq!(rows[0].status, Some(ClientAttentionStatus::Blocked));
    assert_eq!(rows[1].status, Some(ClientAttentionStatus::Blocked));
    assert!(matches!(rows[0].item, PanelItem::Target(_, _)));
    assert!(matches!(rows[1].item, PanelItem::NewProject));
}

fn hit(workspace: &str, pane_id: u32, seq: u64, line: &str) -> SearchRow {
    SearchRow { workspace_id: workspace.into(), tab_id: pane_id, pane_id, seq, line: line.into() }
}

#[test]
fn search_rows_filters_hits_and_flags_empty() {
    let hits = vec![hit("legion", 1, 3, "TOKEN_BODY example"), hit("muxterm", 2, 7, "build ok")];
    let (rows, placeholder) = search_rows("TOKEN_BODY", hits.clone());
    assert_eq!(rows.len(), 1);
    assert_eq!(rows[0].pane_id, 1);
    assert!(!placeholder);

    let (rows, placeholder) = search_rows("missing", hits);
    assert!(rows.is_empty());
    assert!(placeholder);
}

#[test]
fn items_with_a_score_come_first_by_score() {
    let items = vec![target("a", "a", ""), target("b", "b", ""), target("c", "c", "")];
    let found = filter_panel_items(&items, "x", &vec![Some(1), None, Some(9)], "New project");
    let ids: Vec<&str> = found
        .iter()
        .map(|item| match item {
            PanelItem::Target(entry, _) => entry.id.as_str(),
            other => panic!("{other:?}"),
        })
        .collect();
    assert_eq!(ids, ["c", "a"]);
}

#[test]
fn search_scope_narrows_the_hits() {
    let hits = vec![
        ClientSearchHit { workspace_id: "w".into(), tab_id: 1, pane_id: 1, seq: 1, line: "x".into() },
        ClientSearchHit { workspace_id: "w".into(), tab_id: 1, pane_id: 2, seq: 2, line: "x".into() },
        ClientSearchHit { workspace_id: "v".into(), tab_id: 1, pane_id: 1, seq: 3, line: "x".into() },
    ];
    let count = |scope| search_hits("x", scope, "w", 1, &hits).len();
    assert_eq!(count(SearchScope::All), 3);
    assert_eq!(count(SearchScope::Workspace), 2);
    assert_eq!(count(SearchScope::Pane), 1);
    assert!(search_hits("  ", SearchScope::All, "w", 1, &hits).is_empty());
    assert_eq!(SearchRow::from(hits[1].clone()).pane_id, 2);
}

#[test]
fn panel_fits_its_window() {
    let size = panel_size(1000, 900);
    assert_eq!((size.width, size.height, size.list_height), (640, 420, 376));
    let size = panel_size(500, 100);
    assert_eq!((size.width, size.height), (468, 200));
    assert_eq!(panel_size(20, 500).width, 1);
    assert_eq!(panel_size(0, 500).width, 640);
    assert_eq!(panel_size(640, 600).height, 300);
}

#[test]
fn blocked_goes_before_done_for_a_workspace() {
    let panes = vec![
        attention("w", 1, ClientAttentionStatus::Done, 1),
        attention("w", 2, ClientAttentionStatus::Blocked, 1),
        attention("w", 3, ClientAttentionStatus::Done, 1),
        attention("v", 4, ClientAttentionStatus::Working, 1),
    ];
    assert_eq!(workspace_status(&panes, "w"), Some(ClientAttentionStatus::Blocked));
    assert_eq!(workspace_status(&panes, "v"), Some(ClientAttentionStatus::Idle));
    assert_eq!(workspace_status(&panes, "u"), None);
    assert_eq!(
        workspace_status(&panes[2..3].to_vec(), "w"),
        Some(ClientAttentionStatus::Done)
    );
}

fn texts() -> PanelTexts {
    PanelTexts { new_project: "New".into(), back: "Back".into(), probing: "Probing".into() }
}

fn existing(runtime: ExistingRuntime, transport: ExistingTransport) -> ExistingEntry {
    ExistingEntry {
        title: "title".into(),
        runtime,
        transport,
        tmux_session: Some("main".into()),
        tmux_socket: None,
        herdr_session: None,
        herdr_workspace_id: Some("w1".into()),
        herdr_socket: None,
    }
}

#[test]
fn rows_have_names_texts_and_marks() {
    let rows: Vec<WorkspaceRow> = vec![
        WorkspaceRow {
            item: target("id-a", "a", ""),
            status: Some(ClientAttentionStatus::Done),
        },
        WorkspaceRow { item: PanelItem::NewProject, status: None },
        WorkspaceRow { item: PanelItem::Back, status: None },
        WorkspaceRow { item: PanelItem::Host { alias: "box".into() }, status: None },
        WorkspaceRow { item: PanelItem::Loading, status: None },
        WorkspaceRow {
            item: PanelItem::Existing(ExistingRow {
                entry: existing(ExistingRuntime::Herdr, ExistingTransport::Local),
                id: "x".into(),
            }),
            status: None,
        },
    ];
    let list = workspace_list(&rows, &texts());
    let names: Vec<&str> = list.iter().map(|r| r.name.as_str()).collect();
    assert_eq!(
        names,
        [
            "id-a",
            "__new_project__",
            "muxterm-existing-back",
            "muxterm-existing-host-box",
            "muxterm-existing-ssh-loading",
            "muxterm-existing-row-herdr-local-w1-default",
        ]
    );
    assert_eq!(list[0].mark.as_deref(), Some("✓ "));
    assert_eq!(list[1].text.as_deref(), Some("＋ New"));
    assert_eq!(list[3].action, RowAction::Item(3));
    assert!(list[3].activatable);
    assert!(!list[4].activatable);
}

#[test]
fn attention_list_counts_its_rows() {
    let empty = attention_list(&Vec::new(), "0 panes", "nothing");
    assert_eq!(empty.len(), 2);
    assert_eq!(empty[1].text.as_deref(), Some("nothing"));
    assert!(!empty[0].activatable);

    let rows = vec![AttentionPanelRow {
        workspace_id: "my-workspace".into(),
        pane_id: 12,
        title: "pi".into(),
        detail: String::new(),
        indicator: ActivityIndicator::Running,
    }];
    let list = attention_list(&rows, "1 pane", "nothing");
    assert_eq!(list.len(), 2);
    assert_eq!(list[1].name, "muxterm-attention-my-workspace-12");
    assert_eq!(
        list[1].action,
        RowAction::Jump { workspace_id: "my-workspace".into(), pane_id: 12, seq: 0 }
    );
    assert_eq!(selected_pane(&list[1].name), Some(("my-workspace".to_string(), 12)));
    assert_eq!(selected_pane("muxterm-attention-w-x"), None);
    assert_eq!(selected_pane("muxterm-attention-w"), None);
    assert_eq!(selected_pane("other-w-1"), None);
}

#[test]
fn a_built_list_selects_its_first_row() {
    let pane = |workspace: &str, pane_id: u32| AttentionPanelRow {
        workspace_id: workspace.into(),
        pane_id,
        title: "pi".into(),
        detail: String::new(),
        indicator: ActivityIndicator::Running,
    };
    let list = attention_list(&vec![pane("b-c", 7), pane("a", 2)], "2 panes", "nothing");
    let chosen = select_first(PanelTab::Attention, &list);
    assert_eq!(chosen, (Some(1), Some(("b-c".to_string(), 7))));
    let empty = attention_list(&Vec::new(), "0 panes", "nothing");
    assert_eq!(select_first(PanelTab::Attention, &empty), (None, None));
    let hits = search_list(&vec![hit("w", 4, 17, "line")]);
    assert_eq!(select_first(PanelTab::Search, &hits), (Some(0), None));
    assert_eq!(select_first(PanelTab::Workspaces, &Vec::new()), (None, None));

    let other = select_row(chosen.1, Some(list[2].name.as_str()));
    assert_eq!(other, Some(("a".to_string(), 2)));
    assert_eq!(select_row(other, Some("")), Some(("a".to_string(), 2)));
    assert_eq!(select_row(None, None), None);
}

#[test]
fn search_list_shows_where_a_line_stands() {
    let list = search_list(&vec![hit("w", 4, 17, "line")]);
    assert_eq!(list[0].name, "muxterm-search-hit-w-4-17");
    assert_eq!(list[0].text.as_deref(), Some("w · 4 · line"));
    assert_eq!(list[0].action, RowAction::Jump { workspace_id: "w".into(), pane_id: 4, seq: 17 });
}

#[test]
fn second_lines_and_hints() {
    let local = config("a", "  ", TargetTransport::Local);
    assert_eq!(target_row("tmux @ local", &local), "tmux @ local");
    let remote = config("a", "/srv", TargetTransport::Ssh { name: "box".into() });
    assert_eq!(target_row("tmux @ box", &remote), "tmux @ box · /srv");
    let entry = existing(ExistingRuntime::Tmux, ExistingTransport::Ssh { name: "box".into() });
    assert_eq!(existing_connect_name(&entry), "box");
    assert_eq!(existing_row(&entry), "tmux @ box");
    assert_eq!(reachability_dot(SshReach::Unreachable), "SSH unreachable");
    assert_eq!(badge_class(QuickBadge::Recent), "qc-badge-recent");
    assert_eq!(attention_panel_row(ActivityIndicator::Done), Some("done"));
    assert_eq!(attention_panel_row(ActivityIndicator::Quiet), None);
    assert_eq!(mute_seconds(0), Some(300));
    assert_eq!(mute_seconds(5), Some(86400));
    assert_eq!(mute_seconds(6), None);
}

#[test]
fn only_the_latest_request_builds_the_list() {
    let mut panel = PanelController::show(PanelTab::Workspaces);
    let first = panel.schedule_rebuild().expect("open");
    let second = panel.schedule_rebuild().expect("open");
    assert!(!panel.rebuild_timer(first));
    assert!(panel.rebuild_timer(second));
    assert!(!panel.rebuild_timer(second));
    let third = panel.schedule_rebuild().expect("open");
    assert!(panel.flush_rebuild());
    assert!(!panel.flush_rebuild());
    assert!(!panel.rebuild_timer(third));
}

#[test]
fn a_closed_panel_does_nothing() {
    let mut panel = PanelController::show(PanelTab::Search);
    let token = panel.schedule_rebuild().expect("open");
    assert!(panel.dismiss());
    assert!(!panel.dismiss());
    assert_eq!(panel.schedule_rebuild(), None);
    assert!(!panel.rebuild_timer(token));
    assert!(!panel.flush_rebuild());
    let rows = search_list(&vec![hit("w", 4, 17, "line")]);
    assert!(panel.activate_row(&rows, 0).is_none());
}

#[test]
fn tab_key_completes_before_it_cycles() {
    let mut panel = PanelController::show(PanelTab::Workspaces);
    let key = panel.press_tab("@tm", Some("@tmux ".into()), false);
    assert_eq!(key, TabKey::Completed("@tmux ".into()));
    assert_eq!(panel.model.tab, PanelTab::Workspaces);
    assert_eq!(panel.press_tab("@tmux", Some("@tmux".into()), false), TabKey::Cycled);
    assert_eq!(panel.model.tab, PanelTab::Attention);
    assert_eq!(panel.press_tab("@tm", Some("@tmux ".into()), true), TabKey::Cycled);
    assert_eq!(panel.model.tab, PanelTab::Workspaces);
}

#[test]
fn choosing_the_same_tab_changes_nothing() {
    let mut panel = PanelController::show(PanelTab::Workspaces);
    assert!(panel.refresh_current());
    assert!(!panel.choose_tab(PanelTab::Workspaces));
    assert!(panel.choose_tab(PanelTab::Search));
    assert!(!panel.refresh_current());
    assert!(!panel.choose_scope(SearchScope::All));
    assert!(panel.choose_scope(SearchScope::Pane));
    panel.set_query("q".into());
    assert_eq!(panel.model.query, "q");
}

#[test]
fn arrows_skip_rows_that_cannot_be_activated() {
    let rows = vec![false, true, false, true];
    assert_eq!(press_arrow(&rows, None, true), Some(1));
    assert_eq!(press_arrow(&rows, Some(1), true), Some(3));
    assert_eq!(press_arrow(&rows, Some(3), true), None);
    assert_eq!(press_arrow(&rows, None, false), Some(3));
    assert_eq!(press_arrow(&rows, Some(1), false), None);
    assert_eq!(press_arrow(&Vec::new(), None, true), None);
}

#[test]
fn panel_items_follow_the_navigation() {
    let mut args = PanelShowArgs {
        initial_tab: PanelTab::Workspaces,
        workspaces: vec![target("a", "a", "")],
        workspace_search_items: vec![target("a", "a", ""), target("b", "b", "")],
        agents: Vec::new(),
        attention: Vec::new(),
        existing: ExistingPanelState {
            nav: ExistingNav::Root,
            locals: vec![ExistingRow {
                entry: existing(ExistingRuntime::Tmux, ExistingTransport::Local),
                id: "x".into(),
            }],
            hosts: vec!["box".into()],
            remote: Vec::new(),
            ssh_aliases: vec!["alias".into()],
            probe_inflight: false,
        },
    };
    assert_eq!(args.items("", "empty").len(), 1);
    let found = args.items("q", "empty");
    assert!(found.iter().any(|i| matches!(i, PanelItem::Target(e, _) if e.id == "b")));
    assert!(found.iter().any(|i| matches!(i, PanelItem::Existing(_))));
    args.existing.nav = ExistingNav::Local;
    let local = args.items("", "empty");
    assert!(matches!(local[0], PanelItem::Back));
    assert!(matches!(local[1], PanelItem::Existing(_)));
    assert_eq!(completion_aliases(&args.existing), ["alias", "box"]);
    args.existing.nav = ExistingNav::Home;
    let home = args.items("", "empty");
    assert_eq!(home.len(), 3);
    assert!(matches!(home[0], PanelItem::Back));
    let places: Vec<Option<ExistingNav>> = home
        .iter()
        .filter_map(|item| match item {
            PanelItem::Folder { id, .. } => Some(folder_nav(id)),
            _ => None,
        })
        .collect();
    assert_eq!(places, [Some(ExistingNav::Local), Some(ExistingNav::SshHosts)]);
    let empty = ExistingPanelState { nav: ExistingNav::Home, ..ExistingPanelState::default() };
    assert_eq!(existing_items(&empty, "empty").len(), 3);
    assert_eq!(folder_nav("existing-connections"), Some(ExistingNav::Home));
    assert_eq!(folder_nav("other"), None);
}

#[test]
fn a_host_is_known_once() {
    let row = |id: &str| ExistingRow {
        entry: existing(ExistingRuntime::Tmux, ExistingTransport::Ssh { name: "box".into() }),
        id: id.into(),
    };
    let mut state = ExistingPanelState::default();
    state.set_remote("box", vec![row("x")]);
    state.set_remote("other", Vec::new());
    state.set_remote("box", vec![row("y"), row("z")]);
    assert_eq!(state.remote.len(), 2);
    state.nav = ExistingNav::SshHost { alias: "box".into() };
    assert_eq!(existing_items(&state, "empty").len(), 3);
    state.nav = ExistingNav::SshHost { alias: "other".into() };
    assert!(matches!(existing_items(&state, "empty")[1], PanelItem::Empty { .. }));
}

#[test]
fn connecting_closes_the_panel_and_navigating_does_not() {
    let mut panel = PanelController::show(PanelTab::Workspaces);
    let mut state = ExistingPanelState {
        nav: ExistingNav::Root,
        locals: Vec::new(),
        hosts: Vec::new(),
        remote: Vec::new(),
        ssh_aliases: Vec::new(),
        probe_inflight: false,
    };
    let next = VisibleAction::Navigate(ExistingNav::SshHost { alias: "box".into() });
    assert_eq!(panel.run_action(&next, &mut state), ActionEffect::Rebuild { timer: Some(1) });
    assert_eq!(state.nav, ExistingNav::SshHost { alias: "box".into() });
    let jump = VisibleAction::Jump { workspace_id: "w".into(), pane_id: 1, seq: 2 };
    assert_eq!(panel.run_action(&jump, &mut state), ActionEffect::Stay);
    assert_eq!(
        panel.run_action(&VisibleAction::NewProject, &mut state),
        ActionEffect::Close { told: true }
    );
    assert!(panel.finished);
    assert_eq!(
        panel.run_action(&VisibleAction::NewProject, &mut state),
        ActionEffect::Close { told: false }
    );
    let parts = tab_parts(PanelTab::Search, true);
    assert!(parts.search_status && parts.scope_bar && !parts.attention_actions);
    assert!(tab_parts(PanelTab::Attention, true).attention_actions);
}
