use muxterm_frontend::client::abi::{
    STATE_ACTIVE_PANE_CHANGED, STATE_ACTIVE_TAB_CHANGED, STATE_PANE_AGENT_CHANGED,
    STATE_PANE_OUTPUT, STATE_POOL_CHANGED, STATE_TAB_ADDED,
};
use muxterm_frontend::client::attention::ClientActivitySnapshot;
use muxterm_frontend::client::call::FfiClient;
use muxterm_frontend::client::query::{CArg, CFunction};
use muxterm_frontend::client::types::{
    ClientActivityNotification, ClientActivityNotifications, ClientCommandMark, ClientEvent,
    ClientLayout, ClientPane, ClientRgb, ClientTab, ClientTask, ClientTheme, ClientWorkspace,
    ClientWorkspaceEvent, ResolvedTarget,
};
use muxterm_frontend::command_queue::{ClientCommand, CommandQueue};
use muxterm_frontend::linux::connection::workspace_replica_matches;
use muxterm_frontend::linux::image_paste::{
    is_too_large, paste_text, pasted_log, ClipboardImage, Encoded, ImagePaste, PasteError,
    PasteStart,
};
use muxterm_frontend::linux::input_bar::InputBar;
use muxterm_frontend::linux::overlay::OverlayLayer;
use muxterm_frontend::linux::panel_model::{ExistingNav, ExistingPanelState};
use muxterm_frontend::linux::panel_rows::PanelTab;
use muxterm_frontend::linux::target::TargetTransport;
use muxterm_frontend::linux::target_config_window::{
    should_skip_directory_listing, ListingDebounce, TargetOptionSelection,
};
use muxterm_frontend::linux::update_banner::{
    handle_update_action, BannerLabel, BannerText, ClientUpdatePhase, ClientUpdateStatus,
    UpdateAction, UpdateBanner,
};
use muxterm_frontend::linux::window::{close_intent, should_poll_status, CloseIntent};
use muxterm_frontend::linux::window_actions::{
    handle_action, handle_pane_menu_action, prepare_core_tab_mutation, run_palette_command,
    switch_pane_offset, switch_to_pane, sync_focused_pane, toggle_fullscreen, Action, Fullscreen,
    PaletteAction, PaletteContext, PaneMenuAction, PaneSwitch, Step,
};
use muxterm_frontend::linux::window_activity::{
    attention_event_pane, drain_attention_notifications, record_attention_notification,
    scroll_to_command_text, update_command_marks, update_jump_latest, NoteKind, UiBatchEffects,
};
use muxterm_frontend::linux::window_appearance::{
    language_items, next_theme, preferences_path, report_all_pane_colours, toggle_status_mode,
    toggle_theme, FontPersist, Language, StatusBarMode, ThemeSwitch, FONT_PERSIST_MS,
};
use muxterm_frontend::linux::window_bootstrap::{is_structural, session_tabs, ClosingState};
use muxterm_frontend::linux::window_chrome::{chrome_css, css_colour, roomy_chrome_css};
use muxterm_frontend::linux::window_event_pump::{
    drain_surface_input, take_surface_input, SurfaceInput,
};
use muxterm_frontend::linux::window_layout::{
    focused_pane, follow_active_tabs, grabs_focus, pane_in_front, refresh_workspace_layout,
    VisibleTabs,
};
use muxterm_frontend::linux::window_overlay::{
    activate_attention_workspace, attention_workspace_id, current_target, jump_plan,
    jump_to_attention_pane, mute_call, muted, open_panel, panel_closed, probes_hosts, reveal_line,
    viewport_call, JumpStep, MuteOutcome,
};
use muxterm_frontend::linux::window_render::{
    apply_attention_visibility_events, enqueue_workspace_resize, forward_parser_replies_for_key,
    hidden_render_policy, mark_active_attention_visible, pane_output_steps,
    refresh_event_workspaces, render_targets, repair_visible_workspace, sync_pane_grid_size,
    sync_pane_grid_size_for, sync_pane_outputs, sync_render_policies, take_parser_replies,
    OutputStep, PaneRenderPolicy,
};
use muxterm_frontend::linux::workspace_sidebar_model::{ViewStore, WorkspaceView};
use muxterm_frontend::text_map::TextMap;
use muxterm_frontend::workspace_id::WorkspaceId;

fn event(workspace: &str, type_: u32, pane_id: u32) -> ClientWorkspaceEvent {
    ClientWorkspaceEvent {
        workspace_id: workspace.into(),
        event: ClientEvent {
            type_,
            pane_id,
            tab_id: 0,
            window_id: 0,
            data: Vec::new(),
            name: String::new(),
        },
    }
}

fn pane(id: u32, is_active: bool) -> ClientPane {
    ClientPane { id, cols: 100, rows: 30, is_active, title: String::new() }
}

fn view(key: &str, transport: Option<&str>) -> WorkspaceView {
    WorkspaceView {
        key: key.into(),
        replica_id: format!("{key}@replica"),
        workspace: Some(ClientWorkspace {
            id: key.into(),
            name: "test".into(),
            runtime: "shell".into(),
            active: false,
            resolved_target: transport.map(|t| ResolvedTarget {
                name: None,
                path: None,
                runtime: None,
                transport: Some(t.into()),
                target: None,
                session: None,
                socket: None,
                workspace_id: None,
            }),
        }),
        tabs: vec![
            ClientTab { id: 1, name: "one".into(), is_active: false },
            ClientTab { id: 2, name: "two".into(), is_active: true },
        ],
        panes: vec![(1, vec![pane(10, true)]), (2, vec![pane(20, false), pane(21, true)])],
        layouts: vec![(2, Some(ClientLayout::Leaf { pane_id: 20 }))],
    }
}

fn tabs() -> VisibleTabs {
    VisibleTabs { tabs: TextMap::new(), overrides: TextMap::new() }
}

#[test]
fn close_intent_maps_quit_and_hide() {
    assert_eq!(close_intent(true), CloseIntent::Quit);
    assert_eq!(close_intent(false), CloseIntent::HideKeepPolling);
}

#[test]
fn should_poll_status_respects_subscription() {
    let now: u64 = 100_000;
    let last = now - 5_000;
    assert!(!should_poll_status(true, last, now, 1_000));
    assert!(should_poll_status(false, last, now, 1_000));
    assert!(!should_poll_status(false, now, now, 1_000));
    assert!(!should_poll_status(false, now + 50, now, 1));
}

#[test]
fn workspace_replica_matching_accepts_path_and_session_aliases() {
    let id = WorkspaceId::new("local", None, "session", "tmux", "/worktree");
    let replica = "session:/worktree@local";
    assert!(workspace_replica_matches(&id, replica, "session:/worktree@local"));
    assert!(workspace_replica_matches(&id, replica, "session@local"));
    assert!(!workspace_replica_matches(&id, replica, "other@local"));
}

#[test]
fn attention_updates_are_runtime_neutral_state_changes() {
    assert_eq!(attention_event_pane(&event("w", STATE_PANE_OUTPUT, 7).event), Some(7));
    assert_eq!(attention_event_pane(&event("w", STATE_PANE_AGENT_CHANGED, 9).event), Some(9));
    assert_eq!(attention_event_pane(&event("w", STATE_POOL_CHANGED, 9).event), None);
}

#[test]
fn structural_only_batch_still_requires_one_topology_commit() {
    let mut effects = UiBatchEffects::default();
    effects.note_topology();
    assert!(effects.topology_changed);
    effects.note_topology();
    assert!(effects.topology_changed);
}

fn theme(background: ClientRgb) -> ClientTheme {
    ClientTheme {
        name: "test".into(),
        background,
        foreground: ClientRgb(0, 0, 0),
        cursor: ClientRgb(0, 0, 0),
        colors: [ClientRgb(0, 0, 0); 16],
    }
}

#[test]
fn chrome_css_follows_light_and_dark_background() {
    let light = theme(ClientRgb(0xef, 0xf1, 0xf5));
    let dark = theme(ClientRgb(0x1e, 0x1e, 0x2e));
    let light_css = chrome_css(&light);
    let dark_css = chrome_css(&dark);
    assert!(light_css.contains("#eff1f5"), "{light_css}");
    assert!(dark_css.contains("#1e1e2e"), "{dark_css}");
    assert!(light_css.contains("tab-active"), "{light_css}");
    assert!(light_css.contains("muxterm-status-window.tab-active"), "{light_css}");
    assert!(light_css.contains("inset 0 -3px 0"), "{light_css}");
    assert!(light_css.contains(".quick-pick-root"), "{light_css}");
    assert!(
        light_css.contains(".muxterm-sidebar-workspace-row:hover .muxterm-sidebar-close"),
        "{light_css}"
    );
    assert!(light_css.contains("background-color: #eff1f5"), "{light_css}");
    assert!(light_css.contains("box-shadow: 0 18px 44px"), "{light_css}");
    assert_ne!(light_css, dark_css);
}

#[test]
fn roomy_sheet_has_accents_for_the_background() {
    let light = roomy_chrome_css(&theme(ClientRgb(0xef, 0xf1, 0xf5)));
    let dark = roomy_chrome_css(&theme(ClientRgb(0x1e, 0x1e, 0x2e)));
    assert!(light.contains("#087f8c") && light.contains("#7953bb") && light.contains("#a46109"));
    assert!(dark.contains("#6bd4d0") && dark.contains("#cba6f7") && dark.contains("#f2bf68"));
    for css in [&light, &dark] {
        assert!(!css.contains("_accent}") && !css.contains("{bg}") && !css.contains("{fg}"));
    }
    let edge = roomy_chrome_css(&theme(ClientRgb(128, 128, 128)));
    assert!(edge.contains("#6bd4d0"));
    assert_eq!(css_colour(ClientRgb(1, 171, 255)), "#01abff");
}

#[test]
fn surface_input_queue_preserves_fifo_and_owner_identity() {
    let first = WorkspaceId::new("local", None, "first", "tmux", "");
    let second = WorkspaceId::new("local", None, "second", "herdr", "");
    let mut queue = vec![
        SurfaceInput { workspace: first.clone(), pane: 7, data: b"one".to_vec() },
        SurfaceInput { workspace: second.clone(), pane: 3, data: b"two".to_vec() },
    ];
    let drained = take_surface_input(&mut queue);
    assert_eq!(drained.len(), 2);
    assert_eq!(drained[0].workspace, first);
    assert_eq!(drained[0].pane, 7);
    assert_eq!(drained[0].data, b"one");
    assert_eq!(drained[1].workspace, second);
    assert_eq!(drained[1].pane, 3);
    assert_eq!(drained[1].data, b"two");
    assert!(queue.is_empty());
}

#[test]
fn adjacent_input_of_one_pane_is_one_write() {
    let id = WorkspaceId::new("local", None, "first", "tmux", "");
    let input = |pane: u32, data: &[u8]| SurfaceInput {
        workspace: id.clone(),
        pane,
        data: data.to_vec(),
    };
    let mut queue = CommandQueue::default();
    let pending = vec![input(1, b"a"), input(1, b"b"), input(2, b"c"), input(1, b"d")];
    let last = drain_surface_input(pending, &mut queue);
    assert_eq!(last.as_deref(), Some(&b"d"[..]));
    let write = |pane_id: u32, data: &[u8]| ClientCommand::Input {
        workspace_id: Some(id.as_str()),
        pane_id,
        data: data.to_vec(),
        quiet: false,
    };
    assert_eq!(queue.drain(), vec![write(1, b"ab"), write(2, b"c"), write(1, b"d")]);
    assert_eq!(drain_surface_input(Vec::new(), &mut queue), None);
}

#[test]
fn hidden_ssh_uses_pause_policy() {
    let ssh = view("local//test/shell/", Some("ssh"));
    assert_eq!(hidden_render_policy(&ssh), PaneRenderPolicy::Pause);
}

#[test]
fn hidden_local_uses_byte_preserving_coalesce_policy() {
    let local = view("local//test/shell/", Some("local"));
    assert_eq!(hidden_render_policy(&local), PaneRenderPolicy::Coalesce);
    assert_eq!(hidden_render_policy(&view("w", None)), PaneRenderPolicy::Coalesce);
}

#[test]
fn panes_that_resume_ask_for_a_baseline() {
    let views = vec![view("a", Some("ssh")), view("b", Some("local"))];
    let targets = render_targets(&views, "a");
    assert_eq!(targets.len(), 6);
    assert!(targets[..3].iter().all(|t| t.policy == PaneRenderPolicy::Live));
    assert!(targets[3..].iter().all(|t| t.policy == PaneRenderPolicy::Coalesce));
    let mut queue = CommandQueue::default();
    let mut previous = vec![PaneRenderPolicy::Live; 6];
    previous[1] = PaneRenderPolicy::Pause;
    sync_render_policies(&targets, &previous, &mut queue);
    assert_eq!(
        queue.drain(),
        vec![ClientCommand::Task {
            workspace_id: Some("a".into()),
            task: ClientTask::RequestPaneSnapshot { pane_id: 20 },
        }]
    );
    assert!(render_targets(&views, "b")[..3].iter().all(|t| t.policy == PaneRenderPolicy::Pause));
}

#[test]
fn reported_tabs_are_followed_unless_the_user_chose() {
    let views = vec![view("a", None), view("b", None)];
    let mut visible = tabs();
    visible.tabs.insert("a", 1);
    visible.tabs.insert("b", 1);
    visible.overrides.insert("b", true);
    let events = vec![
        event("a", STATE_ACTIVE_TAB_CHANGED, 0),
        event("b", STATE_ACTIVE_TAB_CHANGED, 0),
        event("gone", STATE_ACTIVE_TAB_CHANGED, 0),
    ];
    visible.tabs.insert("gone", 4);
    follow_active_tabs(&mut visible, &views, &events);
    assert_eq!(visible.tabs.get("a"), Some(2));
    assert_eq!(visible.tabs.get("b"), Some(1));
    assert_eq!(visible.tabs.get("gone"), None);
}

#[test]
fn layout_refresh_forgets_a_tab_that_is_gone() {
    let shown = view("a", None);
    let mut visible = tabs();
    visible.tabs.insert("a", 9);
    visible.overrides.insert("a", true);
    let plan = refresh_workspace_layout(&mut visible, &shown, false);
    assert_eq!(plan.active_tab, Some(2));
    assert_eq!(visible.tabs.get("a"), None);
    assert_eq!(visible.overrides.get("a"), None);
    assert_eq!(
        plan.layouts,
        vec![
            (1, ClientLayout::Leaf { pane_id: 10 }),
            (2, ClientLayout::Leaf { pane_id: 20 }),
        ]
    );
    assert_eq!(plan.panes, vec![(20, 100, 30, false), (21, 100, 30, true)]);
    assert_eq!(focused_pane(&plan.panes, &vec![20, 21]), Some(21));
    assert_eq!(focused_pane(&plan.panes, &vec![20]), None);

    visible.tabs.insert("a", 1);
    let plan = refresh_workspace_layout(&mut visible, &shown, true);
    assert_eq!(plan.active_tab, Some(1));
    assert_eq!(visible.tabs.get("a"), Some(1));
}

#[test]
fn topology_refreshes_each_workspace_once() {
    let id = "local//one/shell/";
    let events = vec![
        event(id, STATE_TAB_ADDED, 0),
        event(id, STATE_TAB_ADDED, 0),
        event(id, STATE_PANE_OUTPUT, 0),
        event("not an id", STATE_TAB_ADDED, 0),
        event("local//two/shell/", STATE_TAB_ADDED, 0),
    ];
    let ids: Vec<String> = refresh_event_workspaces(&events).iter().map(|i| i.as_str()).collect();
    assert_eq!(ids, [id, "local//two/shell/"]);
}

#[test]
fn a_lost_workspace_is_replaced() {
    let mut store = ViewStore {
        views: vec![view("nonsense", None), view("local//one/shell/", None)],
        active_workspace_id: None,
    };
    assert!(repair_visible_workspace(&store, "nonsense").is_none());
    let first = repair_visible_workspace(&store, "gone").expect("replacement");
    assert_eq!(first.as_str(), "local//one/shell/");
    store.active_workspace_id = Some("local//two/shell/".into());
    let active = repair_visible_workspace(&store, "gone").expect("replacement");
    assert_eq!(active.as_str(), "local//two/shell/");
}

#[test]
fn only_what_is_seen_is_marked() {
    let events = vec![
        event("a", STATE_ACTIVE_PANE_CHANGED, 5),
        event("a", STATE_PANE_OUTPUT, 1),
        event("a", STATE_PANE_OUTPUT, 2),
        event("b", STATE_PANE_OUTPUT, 1),
        event("a", STATE_TAB_ADDED, 1),
    ];
    assert_eq!(apply_attention_visibility_events(&events, "a", 1), vec![5, 1]);
}

#[test]
fn output_is_taken_in_of_every_workspace() {
    let id = WorkspaceId::new("local", None, "s", "tmux", "");
    let views = vec![view("unknown", None), view(id.as_str().as_str(), None)];
    let targets = sync_pane_outputs(&views);
    let panes: Vec<u32> = targets.iter().map(|target| target.pane_id).collect();
    assert_eq!(panes, [10, 20, 21]);
    assert!(targets.iter().all(|target| target.workspace_id == id));
    assert_eq!((targets[0].cols, targets[0].rows), (100, 30));
    assert!(pane_output_steps(false, true).is_empty());
    assert_eq!(pane_output_steps(true, false), vec![OutputStep::GridSize, OutputStep::Seed]);
    let steps = pane_output_steps(true, true);
    assert_eq!(steps[2..], [
        OutputStep::ResumeBaseline,
        OutputStep::RenderEvents,
        OutputStep::Replies
    ]);
}

#[test]
fn a_refresh_takes_the_keyboard_only_from_nobody() {
    let plain = OverlayLayer::new();
    let finding = OverlayLayer { pane_find: true, ..OverlayLayer::new() };
    assert!(grabs_focus(true, &None, &plain));
    assert!(!grabs_focus(false, &None, &plain));
    assert!(!grabs_focus(true, &Some(PanelTab::Search), &plain));
    assert!(!grabs_focus(true, &None, &finding));
    assert_eq!(pane_in_front(1, true, Some(2)), 2);
    assert_eq!(pane_in_front(1, false, Some(2)), 1);
    assert_eq!(pane_in_front(1, true, None), 1);
}

#[test]
fn a_switch_keeps_a_pane_alone() {
    assert_eq!(switch_to_pane(None, Some(1)), None);
    let switch = |shown_alone| PaneSwitch {
        active_pane: 4,
        shown_alone,
        task: ClientTask::SwitchPane { pane_id: 4 },
    };
    assert_eq!(switch_to_pane(Some(4), Some(1)), Some(switch(Some(4))));
    assert_eq!(switch_to_pane(Some(4), None), Some(switch(None)));
}

#[test]
fn grid_sizes_have_a_default() {
    let views = vec![view("a", None)];
    assert_eq!(sync_pane_grid_size(&views, "a", 2, 21), Some((100, 30)));
    assert_eq!(sync_pane_grid_size(&views, "a", 1, 21), None);
    assert_eq!(sync_pane_grid_size_for(&views, "a", 21), (100, 30));
    assert_eq!(sync_pane_grid_size_for(&views, "b", 21), (80, 24));
}

#[test]
fn the_pane_in_front_is_reported_as_seen() {
    assert_eq!(mark_active_attention_visible("", 3), None);
    let call = mark_active_attention_visible("w", 3).expect("a call");
    assert_eq!(call.function, CFunction::AttentionVisible);
    assert_eq!(call.args.last(), Some(&CArg::Number(3)));
}

#[test]
fn a_pending_close_ends_the_program_once() {
    let mut closing = ClosingState::new();
    assert!(!closing.end_turn());
    assert!(!closing.quit_requested);
    closing.mark_pending_close_if_session_ended(false);
    assert!(!closing.pending_close);
    closing.mark_pending_close_if_session_ended(true);
    closing.mark_pending_close_if_session_ended(false);
    assert!(closing.end_turn());
    assert_eq!(close_intent(closing.quit_requested), CloseIntent::Quit);
    assert!(!closing.end_turn());
}

#[test]
fn a_turn_is_structural_by_any_event_of_the_topology() {
    assert!(!is_structural(&Vec::new()));
    let output = event("a", STATE_PANE_OUTPUT, 1);
    assert!(!is_structural(&vec![output.clone()]));
    assert!(is_structural(&vec![output.clone(), event("b", STATE_TAB_ADDED, 0), output]));
    let store = ViewStore { views: vec![view("a", None)], active_workspace_id: None };
    assert_eq!(session_tabs(&store, "a"), store.views[0].tabs.len());
    assert_eq!(session_tabs(&store, "b"), 0);
}

#[test]
fn only_the_last_font_size_is_written() {
    let mut font = FontPersist::default();
    assert_eq!(font.schedule_font_persist(false), None);
    let first = font.schedule_font_persist(true).expect("a timer");
    let second = font.schedule_font_persist(true).expect("a timer");
    assert_eq!(font.schedule_font_persist(false), None);
    assert!(!font.font_timer(first));
    assert!(font.font_timer(second));
    assert_eq!(FONT_PERSIST_MS, 300);
}

#[test]
fn a_jump_goes_from_the_workspace_to_the_line() {
    let id = WorkspaceId::new("local", None, "s", "tmux", "");
    let views = vec![view(id.as_str().as_str(), None)];
    let replica = views[0].replica_id.clone();
    let pane_task = || JumpStep::Task(ClientTask::SwitchPane { pane_id: 21 });
    let steps = jump_plan(&views, "other", &replica, 21, 7);
    assert_eq!(
        steps,
        vec![
            JumpStep::Activate(id),
            JumpStep::ShowTabOf(21),
            pane_task(),
            JumpStep::RevealLine { pane_id: 21, seq: 7 },
            JumpStep::ClosePanel,
        ]
    );
    assert_eq!(
        jump_plan(&views, &replica, &replica, 21, 0),
        vec![JumpStep::ShowTabOf(21), pane_task(), JumpStep::ClosePanel]
    );
    assert_eq!(viewport_call("w", 21, 0), None);
    let call = viewport_call("w", 21, 7).expect("a call");
    assert_eq!((call.function, call.args.len()), (CFunction::ViewportForSeq, 3));
    let mut overlay = OverlayLayer::new();
    assert_eq!(reveal_line(&mut overlay, Some(5), false), None);
    assert_eq!(reveal_line(&mut overlay, None, true), None);
    assert!(!overlay.search_highlight);
    assert_eq!(reveal_line(&mut overlay, Some(5), true), Some(5));
    assert!(overlay.search_highlight);
}

#[test]
fn the_panel_takes_the_place_of_the_search_in_a_pane() {
    let mut overlay = OverlayLayer { pane_find: true, ..OverlayLayer::new() };
    let mut shown: Option<PanelTab> = None;
    let store = ViewStore { views: Vec::new(), active_workspace_id: None };
    let activity = ClientActivitySnapshot { blocked_count: 0, workspaces: Vec::new() };
    let args = open_panel(
        &mut overlay,
        &mut shown,
        PanelTab::Search,
        Vec::new(),
        Vec::new(),
        &store,
        &activity,
        ExistingPanelState::default(),
    );
    assert_eq!(args.initial_tab, PanelTab::Search);
    assert!(!overlay.pane_find);
    assert_eq!(shown, Some(PanelTab::Search));
    assert_eq!(panel_closed(&mut shown, 4), 4);
    assert_eq!(shown, None);
}

#[test]
fn a_text_is_pasted_only_into_its_own_pane() {
    let mut queue = CommandQueue::default();
    paste_text(&mut queue, false, "w", 1, b"x".to_vec());
    paste_text(&mut queue, true, "w", 1, Vec::new());
    assert!(queue.is_empty());
    paste_text(&mut queue, true, "w", 1, b"x".to_vec());
    assert_eq!(
        queue.drain(),
        vec![ClientCommand::Input {
            workspace_id: Some("w".into()),
            pane_id: 1,
            data: b"x".to_vec(),
            quiet: false,
        }]
    );
}

#[test]
fn replies_of_a_shared_client_stay_here() {
    assert_eq!(take_parser_replies(true, "w", 1), None);
    let call = take_parser_replies(false, "w", 1).expect("a call");
    assert_eq!(call.function, CFunction::TakePaneReply);
    let mut queue = CommandQueue::default();
    forward_parser_replies_for_key(&mut queue, true, "w", 1, b"x".to_vec());
    forward_parser_replies_for_key(&mut queue, false, "w", 1, Vec::new());
    assert!(queue.is_empty());
    forward_parser_replies_for_key(&mut queue, false, "w", 1, b"x".to_vec());
    enqueue_workspace_resize(&mut queue, "w", Some(1), 80, 24);
    enqueue_workspace_resize(&mut queue, "w", Some(1), 90, 25);
    assert_eq!(
        queue.drain(),
        vec![
            ClientCommand::Input {
                workspace_id: Some("w".into()),
                pane_id: 1,
                data: b"x".to_vec(),
                quiet: false,
            },
            ClientCommand::Resize {
                workspace_id: Some("w".into()),
                pane_id: Some(1),
                cols: 90,
                rows: 25,
            },
        ]
    );
}

#[test]
fn marks_show_the_last_success_and_failure() {
    let mark = |seq, command: &str, exit_code| ClientCommandMark {
        seq,
        command: command.into(),
        exit_code,
        history_offset: None,
    };
    let marks = vec![
        mark(1, "ls", Some(0)),
        mark(2, "false", Some(1)),
        mark(3, "ls", Some(0)),
        mark(4, "sleep", None),
    ];
    let shown = update_command_marks(&marks);
    assert_eq!((shown.ok.as_deref(), shown.fail.as_deref()), (Some("ls"), Some("false")));
    assert_eq!(scroll_to_command_text(&marks, "ls"), Some(3));
    assert_eq!(scroll_to_command_text(&marks, "cat"), None);

    let mut layer = OverlayLayer::new();
    layer.show_marks(shown);
    assert_eq!(layer.command_ok.as_deref(), Some("ls"));
    layer.search_highlight = true;
    layer.show_jump(update_jump_latest(false, 4));
    assert!(layer.jump_latest && layer.search_highlight);
    assert_eq!(layer.jump_label, "↓ +4");
    layer.show_jump(update_jump_latest(true, 0));
    assert!(!layer.jump_latest && !layer.search_highlight);
    assert_eq!(layer.jump_label, "↓ +4");
    layer.show_jump(update_jump_latest(false, 0));
    assert_eq!(layer.jump_label, "↓");
}

#[test]
fn notifications_are_told_once_each() {
    let single = |workspace: &str, kind: &str| ClientActivityNotification {
        workspace_id: workspace.into(),
        pane_id: 1,
        kind: kind.into(),
        process_name: None,
        last_line: String::new(),
        seq: 0,
    };
    let grouped = ClientActivityNotifications {
        notifications: Vec::new(),
        blocked: vec!["a".into()],
        done: vec!["b".into()],
    };
    let logs: Vec<String> =
        drain_attention_notifications(&grouped).into_iter().map(|n| n.log).collect();
    assert_eq!(logs, ["a: needs attention", "b: task complete"]);
    let listed = ClientActivityNotifications {
        notifications: vec![single("c", "done"), single("d", "noise"), single("e", "blocked")],
        blocked: vec!["a".into()],
        done: Vec::new(),
    };
    let kinds: Vec<(NoteKind, String)> = drain_attention_notifications(&listed)
        .into_iter()
        .map(|n| (n.kind, n.workspace))
        .collect();
    assert_eq!(kinds, [(NoteKind::Done, "c".to_string()), (NoteKind::Blocked, "e".to_string())]);
    assert!(record_attention_notification("w", "other").is_none());
}

#[test]
fn keys_do_what_they_are_bound_to() {
    let plan = handle_action(Action::SwitchTab7, 1, None);
    assert_eq!((plan.step, plan.refresh), (Step::SwitchTabNumber(7), true));
    let plan = handle_action(Action::SwitchWorkspaceLast, 1, None);
    assert_eq!(plan.step, Step::SwitchWorkspaceNumber(0));
    let plan = handle_action(Action::SwitchTabLast, 1, Some(33));
    assert_eq!(plan.step, Step::SwitchTabId(33));
    assert_eq!(handle_action(Action::SwitchTabLast, 1, None).step, Step::Nothing);
    let plan = handle_action(Action::NewPaneVertical, 4, None);
    assert_eq!(
        (plan.step, plan.refresh),
        (Step::Task(ClientTask::SplitPane { pane_id: 4, horizontal: false }), false)
    );
    assert!(!handle_action(Action::QuickConnect, 1, None).refresh);
    assert!(handle_action(Action::Unknown, 1, None).refresh);
}

#[test]
fn palette_commands_know_the_window() {
    let context =
        PaletteContext { uses_tmux: false, active_pane: 4, active_tab: 2, aggregate: false };
    assert_eq!(run_palette_command(PaletteAction::SshDisconnect, context).step, Step::Nothing);
    let tmux = PaletteContext { uses_tmux: true, ..context };
    assert_eq!(
        run_palette_command(PaletteAction::SshDisconnect, tmux).step,
        Step::Task(ClientTask::Detach)
    );
    let close = run_palette_command(PaletteAction::CloseTab, context);
    assert_eq!((close.step, close.refresh), (Step::CloseTab(2), true));
    let aggregate = PaletteContext { aggregate: true, ..context };
    assert_eq!(
        run_palette_command(PaletteAction::CloseTab, aggregate).step,
        Step::CloseAggregateRow
    );
    assert_eq!(run_palette_command(PaletteAction::Quit, context).step, Step::QuitWindow);
}

#[test]
fn a_new_tab_is_followed() {
    let mut visible = tabs();
    visible.tabs.insert("w", 3);
    visible.overrides.insert("w", true);
    prepare_core_tab_mutation(&mut visible, "w", 3, &ClientTask::CloseTab { tab_id: 4 });
    assert_eq!(visible.tabs.get("w"), Some(3));
    prepare_core_tab_mutation(&mut visible, "w", 3, &ClientTask::NewTab);
    assert_eq!(visible.tabs.get("w"), None);
    assert_eq!(visible.overrides.get("w"), None);
}

#[test]
fn panes_are_switched_from_the_one_in_front() {
    let panes = vec![pane(1, false), pane(2, true)];
    assert_eq!(switch_pane_offset(&panes, 1), (vec![1, 2], 1));
    assert_eq!(switch_pane_offset(&panes, 9), (vec![1, 2], 2));
    assert_eq!(switch_pane_offset(&Vec::new(), 9), (Vec::new(), 9));
    assert_eq!(sync_focused_pane(&panes, &vec![2], 1), Some(2));
    assert_eq!(sync_focused_pane(&panes, &vec![1], 1), None);
    assert_eq!(sync_focused_pane(&panes, &Vec::new(), 1), None);
    assert_eq!(toggle_fullscreen(false, Some(4), 4), Fullscreen::Window(None));
    assert_eq!(toggle_fullscreen(false, Some(3), 4), Fullscreen::Window(Some(4)));
    assert_eq!(
        toggle_fullscreen(true, None, 4),
        Fullscreen::Runtime(ClientTask::TogglePaneFullscreen { pane_id: 4 })
    );
    assert_eq!(handle_pane_menu_action(5, PaneMenuAction::Break, true, true), Step::Nothing);
    assert_eq!(
        handle_pane_menu_action(5, PaneMenuAction::Break, false, true),
        Step::Task(ClientTask::BreakPane { pane_id: 5 })
    );
    assert_eq!(handle_pane_menu_action(5, PaneMenuAction::Paste, false, false), Step::PastePane(5));
}

#[test]
fn images_are_pasted_one_at_a_time() {
    let image = || ClipboardImage::Image {
        width: 10,
        height: 10,
        encoded: Encoded::Png(vec![1]),
    };
    let mut paste = ImagePaste::new();
    assert_eq!(paste.offer(true, image(), "w".into(), 3), Ok(()));
    assert_eq!(paste.offer(true, image(), "w".into(), 3), Err(PasteError::InProgress));
    match paste.take_request(true) {
        PasteStart::Start(request) => assert_eq!(request.pane, 3),
        other => panic!("{other:?}"),
    }
    paste.started(true);
    assert!(paste.pending && paste.indicator);
    assert_eq!(paste.offer(true, image(), "w".into(), 3), Err(PasteError::InProgress));
    paste.settle(false);
    assert!(paste.indicator);
    paste.settle(true);
    assert!(!paste.pending && !paste.indicator);
    assert!(matches!(paste.take_request(true), PasteStart::Nothing));
}

#[test]
fn refused_images_say_why() {
    let mut paste = ImagePaste::new();
    let mut offer = |open, image| paste.offer(open, image, "w".into(), 1).unwrap_err().message();
    assert_eq!(
        offer(false, ClipboardImage::Nothing),
        "Original pane was closed; image was not pasted."
    );
    assert_eq!(offer(true, ClipboardImage::Nothing), "Clipboard has no image");
    assert_eq!(offer(true, ClipboardImage::Unreadable("x".into())), "x");
    let large = ClipboardImage::Image { width: 16385, height: 1, encoded: Encoded::Undecodable };
    assert_eq!(offer(true, large), "Clipboard image is too large");
    let odd = ClipboardImage::Image { width: 1, height: 1, encoded: Encoded::Undecodable };
    assert_eq!(offer(true, odd), "Cannot decode clipboard image");
    assert_eq!(PasteError::TooLarge.log(), "Image paste: Clipboard image is too large");
    assert_eq!(pasted_log("/tmp/a.png"), "Image pasted: /tmp/a.png");
    assert!(is_too_large(16384, 4097));
    assert!(!is_too_large(16384, 4096));
}

#[test]
fn appearance_toggles() {
    assert_eq!(toggle_status_mode(StatusBarMode::Tmux), StatusBarMode::Theme);
    assert_eq!(toggle_status_mode(toggle_status_mode(StatusBarMode::Tmux)), StatusBarMode::Tmux);
    assert_eq!(StatusBarMode::Theme.as_str(), "theme");
    assert_eq!(next_theme("DARK"), "Light");
    assert_eq!(next_theme("system"), "Dark");
    assert!(matches!(toggle_theme("dark", Err(())), ThemeSwitch::NotSaved));
    assert!(matches!(toggle_theme("dark", Ok(None)), ThemeSwitch::NotResolved));
    match toggle_theme("dark", Ok(Some(theme(ClientRgb(1, 2, 3))))) {
        ThemeSwitch::Applied { name, theme } => {
            assert_eq!(name, "dark");
            assert_eq!(theme.background, ClientRgb(1, 2, 3));
        }
        other => panic!("{other:?}"),
    }
    assert_eq!(
        report_all_pane_colours(true, ClientRgb(1, 2, 3), ClientRgb(255, 0, 16)),
        Some(("#010203".to_string(), "#ff0010".to_string()))
    );
    assert_eq!(report_all_pane_colours(false, ClientRgb(1, 2, 3), ClientRgb(0, 0, 0)), None);
    assert_eq!(preferences_path(Some(" ".into())), None);
    assert_eq!(preferences_path(Some("/c.toml".into())).as_deref(), Some("/c.toml"));
}

#[test]
fn languages_are_listed_and_picked() {
    let items = language_items("System", "English", "简体中文", Language::English, "current");
    let tags: Vec<&str> = items.iter().map(|i| i.id.as_str()).collect();
    assert_eq!(tags, ["system", "en", "zh-CN"]);
    assert_eq!(items[1].detail.as_deref(), Some("current"));
    assert_eq!(items[2].detail, None);
    for item in &items {
        assert_eq!(Language::picked(&item.id).tag(), item.id);
    }
    assert_eq!(Language::picked("fr"), Language::English);
}

#[test]
fn jumps_find_the_workspace_and_the_tab() {
    let views = vec![view("local//one/shell/", None), view("ssh/box/two/tmux/", None)];
    let id = attention_workspace_id(&views, "two@box").expect("by session and host");
    assert_eq!(id.as_str(), "ssh/box/two/tmux/");
    assert!(attention_workspace_id(&views, "three@box").is_none());
    assert!(activate_attention_workspace(&views, "two@box", "two@box").is_none());
    assert_eq!(
        mute_call(&views, "two@box", 4, 300),
        Some(FfiClient::workspace_attention_mute("ssh/box/two/tmux/", 4, 300))
    );
    assert_eq!(mute_call(&views, "three@box", 4, 300), None);
    assert_eq!(muted(Some(0)), MuteOutcome::Refresh);
    assert_eq!(muted(Some(-2)), MuteOutcome::Failed(-2));
    assert_eq!(muted(None), MuteOutcome::Failed(-1));
    assert!(probes_hosts(&ExistingNav::SshHosts) && !probes_hosts(&ExistingNav::Root));
    assert_eq!(jump_to_attention_pane(&views, "local//one/shell/", 21, 1), Some(2));
    assert_eq!(jump_to_attention_pane(&views, "local//one/shell/", 21, 2), None);
    assert_eq!(jump_to_attention_pane(&views, "local//one/shell/", 99, 2), None);
    let current = current_target(&views, &Vec::new(), "ssh/box/two/tmux/", "default");
    assert!(current.expect("known").transport.is_ssh());
    assert!(current_target(&views, &Vec::new(), "gone", "default").is_none());
}

#[test]
fn input_bar_names_its_pane() {
    let mut bar = InputBar::new();
    assert_eq!(bar.label(), "@?");
    bar.set_target(Some(17));
    assert_eq!(bar.label(), "@17");
    bar.set_target(None);
    assert_eq!(bar.label(), "@?");
}

#[test]
fn listing_debounce_invalidates_previous_token() {
    let mut d = ListingDebounce::default();
    let first = d.bump();
    assert!(d.is_current(first));
    let second = d.bump();
    assert!(!d.is_current(first));
    assert!(d.is_current(second));
    d.bump();
    assert!(!d.is_current(second));
}

#[test]
fn listing_debounce_close_bumps_away_pending() {
    let mut d = ListingDebounce::default();
    let pending = d.bump();
    d.bump();
    assert!(!d.is_current(pending));
}

#[test]
fn skip_remote_listing_until_ssh_alias_chosen() {
    assert!(should_skip_directory_listing(true, None));
    assert!(should_skip_directory_listing(true, Some("")));
    assert!(should_skip_directory_listing(true, Some("  ")));
    assert!(!should_skip_directory_listing(true, Some("ryzen")));
    assert!(!should_skip_directory_listing(false, None));
}

#[test]
fn selecting_ssh_keeps_empty_alias_until_combo_changes() {
    let mut sel = TargetOptionSelection::default();
    sel.select_transport(TargetTransport::Ssh { name: String::new() });
    assert!(sel.transport.is_ssh());
    assert_eq!(sel.transport.create_backend(), ("ssh", Some("")));
    assert_eq!(TargetTransport::Local.create_backend(), ("local", None));
}

fn status(phase: ClientUpdatePhase, version: Option<&str>) -> ClientUpdateStatus {
    ClientUpdateStatus {
        phase,
        current_version: "v1.0.0".into(),
        version: version.map(str::to_string),
        message: Some("offline".into()),
        release_url: None,
        download_url: None,
        asset_name: None,
        restart_required: false,
    }
}

#[test]
fn banner_offers_a_version_until_it_is_turned_down() {
    let mut banner = UpdateBanner::new();
    assert!(!banner.is_visible());
    banner.apply(&status(ClientUpdatePhase::Available, Some("v2")));
    assert!(banner.is_visible());
    let content = banner.content().as_ref().expect("content");
    assert_eq!(content.text, BannerText::Available { version: "v2".into() });
    assert_eq!((content.action, content.actionable), (BannerLabel::InstallNow, true));
    let version = banner.current_version();
    assert_eq!(version.as_deref(), Some("v2"));
    banner.dismiss(version);
    assert!(!banner.is_visible());
    banner.apply(&status(ClientUpdatePhase::Failed, Some("v2")));
    assert!(!banner.is_visible());
    banner.apply(&status(ClientUpdatePhase::Available, Some("v3")));
    assert!(banner.is_visible());
    banner.apply(&status(ClientUpdatePhase::Idle, None));
    assert!(!banner.is_visible());
    banner.apply(&status(ClientUpdatePhase::Available, Some("v2")));
    assert!(!banner.is_visible());
}

#[test]
fn banner_button_follows_the_phase() {
    assert_eq!(handle_update_action(ClientUpdatePhase::Available), UpdateAction::Install);
    assert_eq!(handle_update_action(ClientUpdatePhase::Failed), UpdateAction::Check);
    assert_eq!(handle_update_action(ClientUpdatePhase::Installing), UpdateAction::Nothing);
    let mut banner = UpdateBanner::default();
    banner.apply(&status(ClientUpdatePhase::Failed, None));
    let content = banner.content().as_ref().expect("content");
    assert_eq!(content.text, BannerText::Failed { message: "offline".into() });
    assert_eq!(content.action, BannerLabel::Retry);
    banner.apply(&status(ClientUpdatePhase::Installing, None));
    assert!(!banner.content().as_ref().expect("content").actionable);
}
