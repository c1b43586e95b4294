use muxterm_frontend::client::query::{CArg, CFunction};
use muxterm_frontend::client::types::{ClientCandidateRef, ClientOpenIntent, ExistingCandidate};
use muxterm_frontend::linux::aggregate::{
    row_numbered, row_of, AggregateClose, AggregateKind, AggregateSelection, AggregateStep,
    AggregateTab, SourceTab,
};
use muxterm_frontend::linux::existing::{ExistingEntry, ExistingRuntime, ExistingTransport};
use muxterm_frontend::linux::last_seen::{latest_call, LastSeen, PaneKey, OFFER_MS};
use muxterm_frontend::linux::overlay::OverlayLayer;
use muxterm_frontend::linux::quick_pick_model::{
    filter_items, freeform_filter, fuzzy_match, panel_list_heights, QuickPickItem, ENTRY_HEIGHT,
    FREEFORM_ID,
};
use muxterm_frontend::linux::scene_stack::SceneStack;
use muxterm_frontend::workspace_id::WorkspaceId;

fn two_tabs() -> Vec<AggregateTab> {
    vec![
        AggregateTab {
            source: SourceTab { workspace: "local".into(), tab: 1 },
            title: "local".into(),
        },
        AggregateTab {
            source: SourceTab { workspace: "remote".into(), tab: 1 },
            title: "remote".into(),
        },
    ]
}

#[test]
fn selection_keeps_full_source_identity_and_falls_back_only_when_missing() {
    let tabs = two_tabs();
    let mut selection =
        AggregateSelection { kind: Some(AggregateKind::Agents), ..Default::default() };
    selection.remember(tabs[1].source.clone());
    assert_eq!(selection.selected(&tabs), Some(&tabs[1]));
    assert_eq!(selection.selected(&tabs[..1].to_vec()), Some(&tabs[0]));
    assert_eq!(selection.selected(&Vec::new()), None);
}

#[test]
fn closing_an_agent_row_hides_it_and_opening_the_list_shows_it_again() {
    let tabs = two_tabs();
    let mut selection =
        AggregateSelection { kind: Some(AggregateKind::Agents), ..Default::default() };
    assert!(matches!(selection.close(&tabs, 2), AggregateClose::Hide));
    assert_eq!(selection.hidden_agents.len(), 1);
    assert!(matches!(selection.close(&tabs, 2), AggregateClose::Hide));
    assert_eq!(selection.hidden_agents.len(), 1);
    selection.open(AggregateKind::Agents);
    assert!(selection.hidden_agents.is_empty());
    selection.open(AggregateKind::Shells);
    match selection.close(&tabs, 1) {
        AggregateClose::CloseTab(source) => assert_eq!(source, tabs[0].source),
        other => panic!("{other:?}"),
    }
    assert!(matches!(selection.close(&tabs, 9), AggregateClose::Nothing));
    assert_eq!(row_numbered(&tabs, 0).map(|t| t.title).as_deref(), Some("local"));
}

#[test]
fn choosing_a_row_leads_to_its_tab() {
    let id = WorkspaceId::new("local", None, "s", "tmux", "");
    let row = AggregateTab {
        source: SourceTab { workspace: id.as_str(), tab: 4 },
        title: "s".into(),
    };
    let mut selection = AggregateSelection::default();
    selection.open(AggregateKind::Shells);
    assert_eq!(selection.select_source(&row), Some((id, 4)));
    assert_eq!(selection.shell_last, Some(row.source.clone()));
    assert_eq!((selection.kind, selection.agent_last), (Some(AggregateKind::Shells), None));
    let mut other = AggregateSelection::default();
    other.open(AggregateKind::Agents);
    let unknown = AggregateTab {
        source: SourceTab { workspace: "x".into(), tab: 4 },
        title: "s".into(),
    };
    assert_eq!(other.select_source(&unknown), None);
    assert_eq!(other.agent_last, None);
}

#[test]
fn closing_the_shown_tab_closes_its_row() {
    let tabs = two_tabs();
    assert_eq!(row_of(&tabs, "remote", 1), Some(1));
    let mut selection =
        AggregateSelection { kind: Some(AggregateKind::Agents), ..Default::default() };
    assert_eq!(selection.close_shown(&tabs, "remote", 1), AggregateClose::Hide);
    assert_eq!(selection.hidden_agents, vec![tabs[1].source.clone()]);
    assert_eq!(selection.close_shown(&tabs, "remote", 2), AggregateClose::Nothing);
    selection.open(AggregateKind::Shells);
    assert_eq!(
        selection.close_shown(&tabs, "remote", 1),
        AggregateClose::CloseTab(tabs[1].source.clone())
    );
    assert_eq!(row_numbered(&tabs, 2), Some(tabs[1].clone()));
}

#[test]
fn aggregate_follows_a_tab_switch_within_the_chosen_workspace() {
    let mut tabs = two_tabs();
    tabs.push(AggregateTab {
        source: SourceTab { workspace: "local".into(), tab: 5 },
        title: "local 5".into(),
    });
    let mut selection =
        AggregateSelection { kind: Some(AggregateKind::Shells), ..Default::default() };
    selection.remember(tabs[0].source.clone());
    let step = selection.reconcile(&tabs, "local", 5, false);
    assert!(matches!(step, AggregateStep::Nothing));
    assert_eq!(selection.shell_last, Some(tabs[2].source.clone()));
    match selection.reconcile(&tabs, "remote", 1, false) {
        AggregateStep::Select(tab) => assert_eq!(tab, tabs[2]),
        other => panic!("{other:?}"),
    }
    assert!(matches!(
        selection.reconcile(&Vec::new(), "local", 5, false),
        AggregateStep::ShowEmpty
    ));
    assert!(matches!(
        selection.reconcile(&Vec::new(), "local", 5, true),
        AggregateStep::Nothing
    ));
}

fn key(workspace: &str, pane: u32) -> PaneKey {
    PaneKey { workspace: workspace.into(), pane }
}

#[test]
fn return_offer_expires_without_rearming_and_scopes_duplicate_panes() {
    let mut model = LastSeen::default();
    let a = key("local", 1);
    let b = key("ssh", 1);
    let now: u64 = 1_000_000;
    model.observe(a.clone(), Some(10));
    model.observe(b.clone(), Some(100));
    assert_eq!(model.baseline(&a), Some(10));
    assert_eq!(model.baseline(&b), None);
    model.observe(a.clone(), Some(20));
    assert_eq!(model.target(&a, Some(5), now), Some(5));
    assert_eq!(model.target(&a, None, now + 500), Some(5));
    assert_eq!(model.target(&a, Some(7), now + OFFER_MS), None);
    assert_eq!(model.target(&a, Some(7), now + 5000), None);
}

#[test]
fn zero_and_unchanged_sequences_do_not_offer_navigation() {
    let mut model = LastSeen::default();
    let a = key("local", 1);
    let b = key("local", 2);
    model.observe(a.clone(), Some(0));
    model.observe(b.clone(), Some(10));
    assert_eq!(model.baseline(&a), None);
    model.observe(a, Some(20));
    model.observe(b.clone(), Some(10));
    assert_eq!(model.target(&b, Some(0), 77), None);
    model.remove_workspace("local");
    assert_eq!(model.baseline(&b), None);
}

#[test]
fn a_running_offer_is_not_extended() {
    let mut model = LastSeen::default();
    let a = key("local", 1);
    model.observe(a.clone(), Some(10));
    model.observe(key("local", 2), Some(1));
    model.observe(a.clone(), Some(20));
    assert_eq!(model.target(&a, Some(5), 100), Some(5));
    model.observe(a.clone(), Some(30));
    assert_eq!(model.target(&a, Some(6), 99 + OFFER_MS), Some(6));
    model.observe(a.clone(), Some(40));
    assert_eq!(model.target(&a, Some(7), 100 + OFFER_MS), None);
}

#[test]
fn a_dismissed_offer_is_gone() {
    let mut model = LastSeen::default();
    let a = key("local", 1);
    let b = key("local", 2);
    model.observe(a.clone(), Some(10));
    model.observe(b, Some(10));
    model.observe(a.clone(), Some(20));
    assert_eq!(model.target(&a, Some(5), 0), Some(5));
    model.dismiss(&a);
    assert_eq!(model.target(&a, Some(5), 1), None);
}

#[test]
fn going_back_is_offered_over_two_answers() {
    let mut model = LastSeen::default();
    let mut overlay = OverlayLayer::default();
    let a = key("local", 1);
    let b = key("local", 2);
    assert_eq!(latest_call(true, &a), None);
    let asked = latest_call(false, &a).expect("a call");
    assert_eq!(asked.function, CFunction::LatestLineSeq);
    assert_eq!(model.take_latest(a.clone(), Some(10)), None);
    assert_eq!(model.take_latest(b, Some(3)), None);
    let row = model.take_latest(a.clone(), Some(20)).expect("a call");
    assert_eq!(row.function, CFunction::ViewportForSeq);
    assert_eq!(row.args.last(), Some(&CArg::Number(10)));
    model.update_last_seen(&mut overlay, false, &a, Some(4), 0);
    assert!(overlay.last_seen);
    model.update_last_seen(&mut overlay, true, &a, None, 1);
    assert!(!overlay.last_seen);
    model.update_last_seen(&mut overlay, false, &a, None, 2);
    assert!(overlay.last_seen);
    model.update_last_seen(&mut overlay, false, &a, Some(4), OFFER_MS);
    assert!(!overlay.last_seen);
}

#[test]
fn an_empty_overlay_shows_the_plain_arrow() {
    let overlay = OverlayLayer::default();
    assert_eq!((overlay.jump_label.as_str(), overlay.jump_unseen), ("↓", 0));
    let mut behind = OverlayLayer { jump_unseen: 7, jump_latest: true, ..OverlayLayer::new() };
    behind.jumped();
    assert_eq!((behind.jump_unseen, behind.jump_latest), (0, true));
}

#[test]
fn fuzzy_empty_matches_all() {
    assert!(fuzzy_match("", "tmux: attach"));
}

#[test]
fn fuzzy_substring() {
    assert!(fuzzy_match("tmux", "tmux: attach to session"));
    assert!(fuzzy_match("tab", "new tab"));
    assert!(!fuzzy_match("zzz", "new tab"));
}

#[test]
fn fuzzy_subsequence() {
    assert!(fuzzy_match("ntb", "new tab"));
    assert!(fuzzy_match("tcns", "tmux: create new session"));
}

#[test]
fn fuzzy_match_is_case_insensitive() {
    assert!(fuzzy_match("TMUX", "tmux: attach"));
    assert!(fuzzy_match("NeW tAb", "new tab"));
    assert!(fuzzy_match("ntb", "NEW TAB"));
}

#[test]
fn fuzzy_match_supports_chinese() {
    assert!(fuzzy_match("命令", "打开命令面板"));
    assert!(fuzzy_match("面板", "打开命令面板"));
    assert!(!fuzzy_match("窗口", "打开命令面板"));
}

#[test]
fn fuzzy_match_rejects_missing_characters() {
    assert!(!fuzzy_match("zzz", "new tab"));
    assert!(!fuzzy_match("abcdef", "ab"));
}

fn item(id: &str, label: &str, detail: Option<&str>) -> QuickPickItem {
    QuickPickItem { id: id.into(), label: label.into(), detail: detail.map(str::to_string) }
}

#[test]
fn filter_preserves_order() {
    let items =
        vec![item("a", "new tab", None), item("b", "tmux: attach", None), item("c", "close tab", None)];
    let filtered = filter_items(&items, "tab");
    assert_eq!(filtered.len(), 2);
    assert_eq!(filtered[0].id, "a");
    assert_eq!(filtered[1].id, "c");
}

#[test]
fn empty_query_keeps_all_items() {
    let items = vec![item("1", "x", Some("detail"))];
    assert_eq!(filter_items(&items, "").len(), 1);
}

#[test]
fn empty_item_list_stays_empty() {
    assert!(filter_items(&Vec::new(), "anything").is_empty());
}

#[test]
fn list_height_is_clamped() {
    let (panel, list) = panel_list_heights(900);
    assert_eq!(panel, 420);
    assert_eq!(list, panel - ENTRY_HEIGHT - 8);
    assert!(list <= panel);

    let (panel2, list2) = panel_list_heights(100);
    assert_eq!(panel2, 200);
    assert_eq!(list2, 156);
    assert!(list2 <= panel2);
    assert!(list2 >= 100);
}

#[test]
fn filter_matches_detail() {
    let items = vec![item("s", "session", Some("main · 2 windows"))];
    assert_eq!(filter_items(&items, "windows").len(), 1);
}

#[test]
fn freeform_filter_prepends_typed_value() {
    let presets = vec![item("cfg", "alice@box:22", Some("from config"))];
    let filtered = freeform_filter(&presets, "bob@h", "typed");
    assert_eq!(filtered[0].id, FREEFORM_ID);
    assert_eq!(filtered[0].label, "bob@h");
    assert_eq!(filtered.len(), 1);

    let filtered = freeform_filter(&presets, "alice", "typed");
    assert_eq!(filtered[0].id, FREEFORM_ID);
    assert!(filtered.iter().any(|item| item.id == "cfg"));

    let empty_query = freeform_filter(&presets, "", "typed");
    assert_eq!(empty_query.len(), 1);
    assert_eq!(empty_query[0].id, "cfg");
}

#[test]
fn scenes_stay_resident_until_explicitly_removed() {
    let mut stack = SceneStack::with_visible("one".into());
    stack.ensure("two");
    assert_eq!(stack.visible_id(), Some("one"));
    assert_eq!(stack.len(), 2);

    assert!(stack.show("two"));
    assert_eq!(stack.visible_id(), Some("two"));
    assert_eq!(stack.len(), 2);

    stack.remove("two");
    assert_eq!(stack.visible_id(), Some("one"));
    assert!(!stack.contains("two"));
}

#[test]
fn showing_unknown_scene_does_not_change_visibility() {
    let mut stack = SceneStack::with_visible("one".into());
    assert!(!stack.show("missing"));
    assert_eq!(stack.visible_id(), Some("one"));
}

#[test]
fn a_scene_is_made_once() {
    let mut stack = SceneStack::new();
    assert!(stack.is_empty());
    stack.ensure("b");
    stack.ensure("a");
    stack.ensure("b");
    assert_eq!(stack.ids(), ["b", "a"]);
    assert_eq!(stack.id_set().len(), 2);
}

#[test]
fn herdr_candidate_keeps_remote_attach_identity() {
    let entry = ExistingEntry::from_candidate(ExistingCandidate {
        name: "agent-workspace".into(),
        id: String::new(),
        runtime: "herdr".into(),
        transport: "ssh".into(),
        target: "buildbox".into(),
        in_pool: false,
        windows: 0,
        attached: false,
        created: 0,
        namespace: Some("agents".into()),
        session: Some("agents".into()),
        socket: Some("/remote/.config/herdr/sessions/agents/herdr.sock".into()),
        workspace_id: Some("w7".into()),
    })
    .expect("candidate should be supported");

    assert_eq!(entry.runtime, ExistingRuntime::Herdr);
    assert_eq!(entry.transport, ExistingTransport::Ssh { name: "buildbox".into() });
    assert_eq!(entry.herdr_session.as_deref(), Some("agents"));
    assert_eq!(
        entry.herdr_socket.as_deref(),
        Some("/remote/.config/herdr/sessions/agents/herdr.sock")
    );
    assert_eq!(entry.herdr_workspace_id.as_deref(), Some("w7"));
    let mut renamed = entry.clone();
    renamed.title = "display-only-name".into();
    assert_eq!(entry.identity_key(), renamed.identity_key());

    let request = entry.open_request();
    assert_eq!(request.intent, ClientOpenIntent::AttachOnly);
    assert!(request.activate);
    let ClientCandidateRef::Existing { identity } = request.candidate else {
        panic!("existing row must produce an Existing candidate reference");
    };
    assert_eq!(identity.runtime_id, "herdr");
    assert_eq!(identity.transport_id, "ssh");
    assert_eq!(identity.target, "buildbox");
    assert_eq!(identity.session.as_deref(), Some("agents"));
    assert_eq!(
        identity.socket.as_deref(),
        Some("/remote/.config/herdr/sessions/agents/herdr.sock")
    );
    assert_eq!(identity.workspace_id.as_deref(), Some("w7"));
}

#[test]
fn tmux_candidate_uses_name_only_as_last_resort() {
    let entry = ExistingEntry::from_candidate(ExistingCandidate {
        name: "matrix".into(),
        id: String::new(),
        runtime: "tmux".into(),
        transport: "local".into(),
        target: "local".into(),
        in_pool: false,
        windows: 0,
        attached: false,
        created: 0,
        namespace: None,
        session: None,
        socket: Some("muxterm-test-existing".into()),
        workspace_id: None,
    })
    .expect("candidate should be supported");

    assert_eq!(entry.tmux_session.as_deref(), Some("matrix"));
    assert_eq!(entry.tmux_socket.as_deref(), Some("muxterm-test-existing"));
}

#[test]
fn identity_tells_sessions_with_the_same_workspace_apart() {
    let entry = |session: &str| ExistingEntry {
        title: "same".into(),
        runtime: ExistingRuntime::Herdr,
        transport: ExistingTransport::Local,
        tmux_session: None,
        tmux_socket: None,
        herdr_session: Some(session.into()),
        herdr_workspace_id: Some("w1".into()),
        herdr_socket: Some("/run/herdr.sock".into()),
    };
    assert_ne!(entry("one").identity_key(), entry("two").identity_key());
    assert_eq!(
        entry("one").identity_key(),
        "5:herdr|5:local|0:|3:one|15:/run/herdr.sock|2:w1"
    );
    let tmux = |title: &str, session: &str, socket: Option<&str>| ExistingEntry {
        title: title.into(),
        runtime: ExistingRuntime::Tmux,
        transport: ExistingTransport::Ssh { name: "é".into() },
        tmux_session: Some(session.into()),
        tmux_socket: socket.map(str::to_string),
        herdr_session: None,
        herdr_workspace_id: None,
        herdr_socket: None,
    };
    assert_eq!(tmux("a", "s", None).identity_key(), tmux("b", "s", Some("")).identity_key());
    assert_ne!(tmux("a", "s|1:x", None).identity_key(), tmux("a", "s", Some("x")).identity_key());
    assert_eq!(tmux("a", "s", None).identity_key(), "4:tmux|3:ssh|2:é|1:s|0:");
    assert_eq!(ExistingRuntime::parse("TMUX"), Some(ExistingRuntime::Tmux));
    assert_eq!(ExistingRuntime::parse("vim"), None);
}
