//! The window over time: how it starts, what a key means, where a jump leads,
//! what the marks and notes say, and how it looks.
use vstd::prelude::*;

use crate::client::call::c_text;
use crate::client::config::ClientTmuxConfig;
use crate::client::event::topology_event;
use crate::client::query::{CArgView, CCall, CFunction};
use crate::client::runtime::ConnectCallView;
use crate::client::snapshot::panes_of;
use crate::client::types::{
    ClientActivityNotifications, ClientCommandMark, ClientEvent, ClientPane, ClientRgb,
    ClientSearchHit, ClientTab, ClientTask, ClientTheme, ClientWorkspaceEvent,
};
use crate::linux::panel_rows::PanelTab;
use crate::linux::window_actions::Action;
use crate::linux::window_activity::{
    attention_event_pane, drain_attention_notifications, last_mark, record_attention_notification,
    scroll_to_command_text, single_notes, update_command_marks, update_jump_latest, AttentionNote,
    AttentionNoteView, CommandMarks, JumpLatest, NoteKind,
};
use crate::linux::window_appearance::{
    apply_config_snapshot, next_theme, preferences_path, report_all_pane_colours, toggle_theme,
    language_tag, mode_name, other_mode, tagged_language, Language, ShownTheme, StatusBarMode,
        ThemeSwitch,
};
use crate::linux::window_bootstrap::{
    badge_tab, capacity_limit, find_in_pane, is_structural, poll_turn, press_key, session_tabs,
        startup,
    startup_workspace, uses_tmux, KeyOutcome, PollStep, Startup,
};
use crate::linux::window_chrome::{accents_of, css_colour, hex_colour, is_light, themed};
use crate::linux::window_layout::view_of;
use crate::linux::window_overlay::{
    activate_attention_workspace, attention_workspace_id, jump_plan, jump_to_attention_pane,
    meant_workspace, mute_call, muted, tab_holding, viewport_call, JumpStep, JumpStepView,
    MuteOutcome,
};
use crate::linux::workspace_sidebar_model::{ViewStore, WorkspaceView};
use crate::seqs::{find, lemma_first_where, lemma_no_first};
use crate::text::find::starts_with;
use crate::text::lines::substituted;
use crate::text::number::decimal;
use crate::text::{opt_view, trimmed};
use crate::workspace_id::{id_text, id_view, parsed_id, WorkspaceId};

verus! {

// ---------------------------------------------------------------------------
// The start.
// ---------------------------------------------------------------------------

/// With a socket in the settings tmux is tried first, with that socket and the
/// session of the settings, and the local shell after it. Without one only the
/// local shell is tried.
pub proof fn law_how_the_window_starts(tmux: ClientTmuxConfig, r: Startup)
    requires
        call_ensures(startup, (&tmux,), r),
    ensures
        trimmed(tmux.socket@).len() == 0 <==> r.socket is None,
        r.socket matches Some(s) ==> s@ == trimmed(tmux.socket@),
        r.socket is None ==> r.attempts@.len() == 1,
        r.socket is Some ==> r.attempts@.len() == 2 && (
        r.attempts@[0]@ matches ConnectCallView::NewConnect {
            runtime,
            socket: Some(socket),
            session,
            ssh_alias: None,
            start_directory: None,
        } && runtime == "tmux"@ && socket == c_text(trimmed(tmux.socket@)) && (session is None
            <==> trimmed(tmux.default_session@).len() == 0) && (session matches Some(name)
            ==> name == c_text(trimmed(tmux.default_session@)))),
        r.attempts@.last()@ matches ConnectCallView::NewConnect {
            runtime,
            socket: None,
            session: None,
            ssh_alias: None,
            start_directory: Some(directory),
        } && runtime == "local"@ && directory.len() == 0,
{
    reveal_strlit("local");
    reveal_strlit("tmux");
    reveal_strlit("");
    let calls = crate::linux::window_bootstrap::call_views(r.attempts@);
    assert(calls.len() == r.attempts@.len());
    assert(calls[0] == r.attempts@[0]@);
    assert(calls[calls.len() - 1] == r.attempts@.last()@);
}

/// The active workspace is shown at the start, and without one the first.
pub proof fn law_what_is_shown_at_the_start(store: ViewStore, r: Option<WorkspaceId>)
    requires
        call_ensures(startup_workspace, (&store,), r),
    ensures
        store.active_workspace_id matches Some(id) ==> id_view(r) == parsed_id(id@),
        store.active_workspace_id is None && store.views@.len() > 0 ==> id_view(r) == parsed_id(
            store.views@[0].key@,
        ),
        store.active_workspace_id is None && store.views@.len() == 0 ==> r is None,
{
}

/// What is done in each turn, in its order: what is waited for comes before the
/// events, these before what they change, and what is shown comes last.
pub proof fn law_the_order_of_a_turn(r: Vec<PollStep>)
    requires
        call_ensures(poll_turn, (), r),
    ensures
        r@.len() == 17,
        r@[0] == PollStep::SshProbes,
        r@[1] == PollStep::LocalProbes,
        r@[2] == PollStep::Reconnect,
        r@[3] == PollStep::WarnCapacity,
        r@[4] == PollStep::Events,
        r@[5] == PollStep::RefreshWorkspaces,
        r@[6] == PollStep::Notifications,
        r@[7] == PollStep::PaneOutputs,
        r@[8] == PollStep::WindowSize,
        r@[9] == PollStep::SurfaceInput,
        r@[10] == PollStep::FlushCommands,
        r@[11] == PollStep::Status,
        r@[12] == PollStep::ConnectionSummary,
        r@[13] == PollStep::CommandMarks,
        r@[14] == PollStep::JumpLatest,
        r@[15] == PollStep::Sidebar,
        r@[16] == PollStep::AttentionChrome,
{
}

/// A turn of the loop reads everything again where an event changed the
/// structure of a workspace.
pub proof fn law_when_everything_is_read_again(
    events: Vec<ClientWorkspaceEvent>,
    r: bool,
    k: int,
)
    requires
        call_ensures(is_structural, (&events,), r),
    ensures
        0 <= k < events@.len() && topology_event(events@[k].event.type_) ==> r,
        (forall|j: int|
            0 <= j < events@.len() ==> !topology_event((#[trigger] events@[j]).event.type_)) ==> !r,
{
}

/// A workspace uses tmux where its runtime is tmux, here or over SSH.
pub proof fn law_who_uses_tmux(views: Vec<WorkspaceView>, key: &str, r: bool)
    requires
        call_ensures(uses_tmux, (&views, key), r),
    ensures
        view_of(views@, key@) is None ==> !r,
        view_of(views@, key@) matches Some(v) ==> (r <==> v.workspace is Some && (
        v.workspace->0.runtime@ == "tmux"@ || v.workspace->0.runtime@ == "ssh"@
            || v.workspace->0.runtime@ == "tmux-ssh"@)),
{
}

/// At least one slot is left, a badge leads to what waits, and the tabs of a
/// session are counted.
pub proof fn law_small_numbers(
    slots: u32,
    blocked: usize,
    store: ViewStore,
    key: &str,
    limit: u32,
    tab: PanelTab,
    count: usize,
)
    requires
        call_ensures(capacity_limit, (slots,), limit),
        call_ensures(badge_tab, (blocked,), tab),
        call_ensures(session_tabs, (&store, key), count),
    ensures
        limit >= 1 && limit >= slots && (slots >= 1 ==> limit == slots) && (slots == 0 ==> limit
            == 1),
        tab == PanelTab::Attention <==> blocked > 0,
        tab == PanelTab::Workspaces <==> blocked == 0,
        view_of(store.views@, key@) is None ==> count == 0,
        view_of(store.views@, key@) matches Some(v) ==> count == v.tabs@.len(),
{
}

/// A key that is bound quits, opens the panel, opens the search of the pane or
/// runs its action; one that is not goes on to the pane.
pub proof fn law_what_a_key_means(action: Action, find_key: bool, bound: KeyOutcome,
    free: KeyOutcome)
    requires
        call_ensures(press_key, (Some(action), find_key), bound),
        call_ensures(press_key, (None, find_key), free),
    ensures
        free == KeyOutcome::Proceed,
        action == Action::Quit ==> bound == KeyOutcome::Quit,
        action == Action::QuickConnect ==> bound == KeyOutcome::OpenPanel(PanelTab::Workspaces),
        action == Action::Search ==> bound == KeyOutcome::OpenPanel(PanelTab::Search),
        action != Action::Quit && action != Action::QuickConnect && action != Action::Search
            && find_key
            ==> bound == KeyOutcome::OpenPaneFind,
        action != Action::Quit && action != Action::QuickConnect && action != Action::Search
            && !find_key ==> bound == KeyOutcome::Run(action),
{
}

/// A search in a pane gives the line of the first hit in it; an empty query
/// gives none.
pub proof fn law_the_first_hit_in_a_pane(
    query: &str,
    hits: Vec<ClientSearchHit>,
    workspace: &str,
    pane: u32,
    r: Option<u64>,
    k: int,
)
    requires
        call_ensures(find_in_pane, (query, &hits, workspace, pane), r),
    ensures
        query@.len() == 0 ==> r is None,
        query@.len() > 0 && 0 <= k < hits@.len() && hits@[k].workspace_id@ == workspace@
            && hits@[k].pane_id == pane && (forall|j: int|
            0 <= j < k ==> !((#[trigger] hits@[j]).workspace_id@ == workspace@ && hits@[j].pane_id
                == pane)) ==> r == Some(hits@[k].seq),
        (forall|j: int|
            0 <= j < hits@.len() ==> !((#[trigger] hits@[j]).workspace_id@ == workspace@
                && hits@[j].pane_id == pane)) ==> r is None,
{
    let f = crate::linux::window_bootstrap::hit_in(workspace@, pane);
    if 0 <= k < hits@.len() && hits@[k].workspace_id@ == workspace@ && hits@[k].pane_id == pane && (
    forall|j: int|
        0 <= j < k ==> !((#[trigger] hits@[j]).workspace_id@ == workspace@ && hits@[j].pane_id
            == pane)) {
        lemma_first_where(hits@, f, k);
    }
    if forall|j: int|
        0 <= j < hits@.len() ==> !((#[trigger] hits@[j]).workspace_id@ == workspace@
            && hits@[j].pane_id == pane) {
        lemma_no_first(hits@, f);
    }
}

// ---------------------------------------------------------------------------
// Jumps.
// ---------------------------------------------------------------------------

/// A workspace is meant by a name: its replica has that name, or its session
/// and its host make it up.
pub open spec fn is_meant(view: WorkspaceView, requested: Seq<char>) -> bool {
    view.workspace is Some && parsed_id(view.workspace->0.id@) is Some && (view.replica_id@
        == requested || (parsed_id(view.workspace->0.id@)->0.session.len() > 0 && requested
        == parsed_id(view.workspace->0.id@)->0.session + "@"@ + crate::workspace_id::transport_name(
        parsed_id(view.workspace->0.id@)->0,
    )))
}

/// The first workspace that is meant is the one.
pub proof fn law_the_first_meant_workspace_counts(
    views: Vec<WorkspaceView>,
    requested: &str,
    r: Option<WorkspaceId>,
    k: int,
)
    requires
        call_ensures(attention_workspace_id, (&views, requested), r),
    ensures
        0 <= k < views@.len() && is_meant(views@[k], requested@) && (forall|j: int|
            0 <= j < k ==> !is_meant(#[trigger] views@[j], requested@)) ==> id_view(r) == parsed_id(
            views@[k].workspace->0.id@,
        ),
        (forall|j: int| 0 <= j < views@.len() ==> !is_meant(#[trigger] views@[j], requested@))
            ==> r is None,
{
    lemma_meant(views@, requested@, k);
}

proof fn lemma_meant(views: Seq<WorkspaceView>, requested: Seq<char>, k: int)
    ensures
        0 <= k < views.len() && is_meant(views[k], requested) && (forall|j: int|
            0 <= j < k ==> !is_meant(#[trigger] views[j], requested)) ==> meant_workspace(
            views,
            requested,
        ) == parsed_id(views[k].workspace->0.id@),
        (forall|j: int| 0 <= j < views.len() ==> !is_meant(#[trigger] views[j], requested))
            ==> meant_workspace(views, requested) is None,
    decreases views.len(),
{
    if views.len() > 0 {
        let rest = views.drop_first();
        lemma_meant(rest, requested, k - 1);
        if 0 < k < views.len() && is_meant(views[k], requested) && (forall|j: int|
            0 <= j < k ==> !is_meant(#[trigger] views[j], requested)) {
            assert(!is_meant(views[0], requested));
            assert(rest[k - 1] == views[k]);
            assert forall|j: int| 0 <= j < k - 1 implies !is_meant(
                #[trigger] rest[j],
                requested,
            ) by {
                assert(rest[j] == views[j + 1]);
            }
        }
        if forall|j: int| 0 <= j < views.len() ==> !is_meant(#[trigger] views[j], requested) {
            assert(!is_meant(views[0], requested));
            assert forall|j: int| 0 <= j < rest.len() implies !is_meant(
                #[trigger] rest[j],
                requested,
            ) by {
                assert(rest[j] == views[j + 1]);
            }
        }
    }
}

/// A jump brings the workspace in front unless it is there, shows the tab of
/// the pane, switches to the pane, reveals the line where there is one, and
/// closes the panel, in this order.
pub proof fn law_where_a_jump_leads(
    views: Vec<WorkspaceView>,
    in_front: &str,
    requested: &str,
    pane: u32,
    seq: u64,
    activated: Option<WorkspaceId>,
    r: Vec<JumpStep>,
)
    requires
        call_ensures(activate_attention_workspace, (&views, in_front, requested), activated),
        call_ensures(jump_plan, (&views, in_front, requested, pane, seq), r),
    ensures
        in_front@ == requested@ ==> activated is None,
        in_front@ != requested@ ==> id_view(activated) == meant_workspace(views@, requested@),
        ({
            let first: int = if activated is Some {
                1
            } else {
                0
            };
            let lines: int = if seq > 0 {
                1
            } else {
                0
            };
            &&& r@.len() == first + lines + 3
            &&& activated is Some ==> r@[0]@ == JumpStepView::Activate(activated->0@)
            &&& r@[first]@ == JumpStepView::ShowTabOf(pane)
            &&& r@[first + 1]@ == JumpStepView::Task(ClientTask::SwitchPane { pane_id: pane })
            &&& seq > 0 ==> r@[first + 2]@ == (JumpStepView::RevealLine { pane_id: pane, seq })
            &&& r@.last()@ == JumpStepView::ClosePanel
        }),
{
    let steps = Seq::new(r@.len(), |i: int| r@[i]@);
    assert(steps.len() == r@.len());
    let first: int = if activated is Some {
        1
    } else {
        0
    };
    assert(steps[0] == r@[0]@ && steps[first] == r@[first]@ && steps[first + 1] == r@[first + 1]@);
    assert(steps[first + 2] == r@[first + 2]@ && steps[r@.len() - 1] == r@.last()@);
}

/// The tab of a pane is shown where it is not shown yet: the first tab that
/// has the pane.
pub proof fn law_the_tab_of_the_pane_is_shown(
    views: Vec<WorkspaceView>,
    key: &str,
    pane: u32,
    shown: u32,
    r: Option<u32>,
    k: int,
    p: int,
)
    requires
        call_ensures(jump_to_attention_pane, (&views, key, pane, shown), r),
    ensures
        r != Some(shown),
        view_of(views@, key@) is None ==> r is None,
        view_of(views@, key@) matches Some(v) ==> (0 <= k < v.tabs@.len() && 0 <= p < panes_of(
            v.panes@,
            v.tabs@[k].id,
        ).len() && panes_of(v.panes@, v.tabs@[k].id)[p].id == pane && (forall|j: int|
            0 <= j < k ==> !has_pane(panes_of(v.panes@, (#[trigger] v.tabs@[j]).id), pane))
            && v.tabs@[k].id != shown ==> r == Some(v.tabs@[k].id)),
{
    if let Some(v) = view_of(views@, key@) {
        if 0 <= k < v.tabs@.len() && 0 <= p < panes_of(v.panes@, v.tabs@[k].id).len() && panes_of(
            v.panes@,
            v.tabs@[k].id,
        )[p].id == pane && (forall|j: int|
            0 <= j < k ==> !has_pane(panes_of(v.panes@, (#[trigger] v.tabs@[j]).id), pane)) {
            assert(has_pane(panes_of(v.panes@, v.tabs@[k].id), pane));
            lemma_holding(v, v.tabs@, pane, k);
        }
    }
}

/// A list holds a pane of a number.
pub open spec fn has_pane(panes: Seq<ClientPane>, pane: u32) -> bool {
    exists|i: int| 0 <= i < panes.len() && (#[trigger] panes[i]).id == pane
}

proof fn lemma_has_pane(panes: Seq<ClientPane>, pane: u32)
    ensures
        has_pane(panes, pane) <==> find(panes, crate::client::snapshot::pane_is(pane)) is Some,
    decreases panes.len(),
{
    let f = crate::client::snapshot::pane_is(pane);
    if !has_pane(panes, pane) {
        lemma_no_first(panes, f);
    } else {
        let i = choose|i: int| 0 <= i < panes.len() && (#[trigger] panes[i]).id == pane;
        lemma_some_first(panes, f, i);
    }
}

proof fn lemma_some_first(panes: Seq<ClientPane>, f: spec_fn(ClientPane) -> bool, i: int)
    requires
        0 <= i < panes.len(),
        f(panes[i]),
    ensures
        find(panes, f) is Some,
    decreases i,
{
    if forall|j: int| 0 <= j < i ==> !f(#[trigger] panes[j]) {
        lemma_first_where(panes, f, i);
    } else {
        let j = choose|j: int| 0 <= j < i && f(#[trigger] panes[j]);
        lemma_some_first(panes, f, j);
    }
}

proof fn lemma_holding(view: WorkspaceView, tabs: Seq<ClientTab>, pane: u32, k: int)
    requires
        0 <= k < tabs.len(),
        has_pane(panes_of(view.panes@, tabs[k].id), pane),
        forall|j: int| 0 <= j < k
            ==> !has_pane(panes_of(view.panes@, (#[trigger] tabs[j]).id), pane),
    ensures
        tab_holding(view, tabs, pane) == Some(tabs[k].id),
    decreases tabs.len(),
{
    lemma_has_pane(panes_of(view.panes@, tabs[0].id), pane);
    if k > 0 {
        let rest = tabs.drop_first();
        assert(!has_pane(panes_of(view.panes@, tabs[0].id), pane));
        assert forall|j: int| 0 <= j < k - 1 implies !has_pane(
            panes_of(view.panes@, (#[trigger] rest[j]).id),
            pane,
        ) by {
            assert(rest[j] == tabs[j + 1]);
        }
        assert(rest[k - 1] == tabs[k]);
        lemma_holding(view, rest, pane, k - 1);
    }
}

/// A line is asked for by its workspace, pane and number, and a pane is muted
/// for so many seconds in the workspace that is meant.
pub proof fn law_calls_of_the_overlay(
    views: Vec<WorkspaceView>,
    key: &str,
    pane: u32,
    seq: u64,
    line: Option<CCall>,
    mute: Option<CCall>,
)
    requires
        call_ensures(viewport_call, (key, pane, seq), line),
        call_ensures(mute_call, (&views, key, pane, seq), mute),
    ensures
        line is Some <==> seq > 0,
        line matches Some(c) ==> c@.function == CFunction::ViewportForSeq && c@.args.len() == 3
            && c@.args[0] == CArgView::Text(c_text(key@)) && c@.args[1] == CArgView::Number(
            pane as u64,
        ) && c@.args[2] == CArgView::Number(seq),
        mute is Some <==> meant_workspace(views@, key@) is Some,
        mute matches Some(c) ==> c@.function == CFunction::AttentionMute && c@.args.len() == 3
            && c@.args[0] == CArgView::Text(c_text(id_text(meant_workspace(views@, key@)->0)))
            && c@.args[1] == CArgView::Number(pane as u64) && c@.args[2] == CArgView::Number(seq),
{
}

/// A pane is muted where the core answers zero; any other answer, or none, is
/// a failure with its code.
pub proof fn law_when_a_pane_is_muted(code: i32, some: MuteOutcome, none: MuteOutcome)
    requires
        call_ensures(muted, (Some(code),), some),
        call_ensures(muted, (None,), none),
    ensures
        code == 0 ==> some == MuteOutcome::Refresh,
        code != 0 ==> some == MuteOutcome::Failed(code),
        none == MuteOutcome::Failed(-1i32),
{
}

// ---------------------------------------------------------------------------
// Marks and notes.
// ---------------------------------------------------------------------------

proof fn lemma_last_mark(
    marks: Seq<ClientCommandMark>,
    p: spec_fn(ClientCommandMark) -> bool,
    k: int,
)
    ensures
        0 <= k < marks.len() && p(marks[k]) && (forall|j: int|
            k < j < marks.len() ==> !p(#[trigger] marks[j])) ==> last_mark(marks, p) == Some(
            marks[k],
        ),
        (forall|j: int| 0 <= j < marks.len() ==> !p(#[trigger] marks[j])) ==> last_mark(
            marks,
            p,
        ) is None,
    decreases marks.len(),
{
    if marks.len() > 0 {
        let init = marks.drop_last();
        lemma_last_mark(init, p, k);
        assert(marks.last() == marks[marks.len() - 1]);
        assert forall|j: int| 0 <= j < init.len() implies #[trigger] init[j] == marks[j] by {}
    }
}

/// The last command that ended with zero is the success that is shown, and the
/// last that ended with another code is the failure.
pub proof fn law_the_last_commands_are_shown(
    marks: Vec<ClientCommandMark>,
    r: CommandMarks,
    k: int,
)
    requires
        call_ensures(update_command_marks, (&marks,), r),
    ensures
        0 <= k < marks@.len() && marks@[k].exit_code == Some(0u8) && (forall|j: int|
            k < j < marks@.len() ==> (#[trigger] marks@[j]).exit_code != Some(0u8)) ==> opt_view(
            r.ok,
        ) == Some(marks@[k].command@),
        0 <= k < marks@.len() && marks@[k].exit_code is Some && marks@[k].exit_code->0 != 0 && (
        forall|j: int|
            k < j < marks@.len() ==> (#[trigger] marks@[j]).exit_code is None || marks@[j].exit_code
                == Some(0u8)) ==> opt_view(r.fail) == Some(marks@[k].command@),
        (forall|j: int| 0 <= j < marks@.len() ==> (#[trigger] marks@[j]).exit_code is None) ==> r.ok
            is None && r.fail is None,
{
    lemma_last_mark(marks@, crate::linux::window_activity::succeeded(), k);
    lemma_last_mark(marks@, crate::linux::window_activity::failed(), k);
}

/// A command is scrolled to where it was run last.
pub proof fn law_a_command_is_found_where_it_ran_last(
    marks: Vec<ClientCommandMark>,
    text: &str,
    r: Option<u64>,
    k: int,
)
    requires
        call_ensures(scroll_to_command_text, (&marks, text), r),
    ensures
        0 <= k < marks@.len() && marks@[k].command@ == text@ && (forall|j: int|
            k < j < marks@.len() ==> (#[trigger] marks@[j]).command@ != text@) ==> r == Some(
            marks@[k].seq,
        ),
        (forall|j: int| 0 <= j < marks@.len() ==> (#[trigger] marks@[j]).command@ != text@)
            ==> r is None,
{
    lemma_last_mark(marks@, crate::linux::window_activity::command_is(text@), k);
}

/// The way back to the end is offered away from the end, with the number of
/// unseen lines where there are any.
pub proof fn law_the_way_back_to_the_end(at_bottom: bool, unseen: u32, r: JumpLatest)
    requires
        call_ensures(update_jump_latest, (at_bottom, unseen), r),
    ensures
        r.visible <==> !at_bottom,
        r.hide_highlight <==> at_bottom,
        r.label is Some <==> !at_bottom,
        !at_bottom && unseen == 0 ==> opt_view(r.label) == Some("↓"@),
        !at_bottom && unseen > 0 ==> opt_view(r.label) == Some("↓ +"@ + decimal(unseen as nat)),
{
}

/// Output, a frame and a change of the agent, with the numbers 1, 16 and 18,
/// are about a pane that may want attention.
pub proof fn law_which_events_want_attention(event: ClientEvent, r: Option<u32>)
    requires
        call_ensures(attention_event_pane, (&event,), r),
    ensures
        r is Some <==> event.type_ == 1 || event.type_ == 16 || event.type_ == 18,
        r matches Some(pane) ==> pane == event.pane_id,
{
}

/// What a note says: which workspace, and that it needs attention or that its
/// task is complete.
pub open spec fn says(note: AttentionNoteView, workspace: Seq<char>, kind: NoteKind) -> bool {
    note.kind == kind && note.workspace == workspace && (kind == NoteKind::Blocked ==> note.log
        == workspace + ": "@ + "needs attention"@) && (kind == NoteKind::Done ==> note.log
        == workspace + ": "@ + "task complete"@)
}

/// A notification is noted where it is about something blocked or done.
pub proof fn law_what_is_noted(workspace: &str, kind: &str, r: Option<AttentionNote>)
    requires
        call_ensures(record_attention_notification, (workspace, kind), r),
    ensures
        kind@ == "blocked"@ ==> r is Some && says((r->0)@, workspace@, NoteKind::Blocked),
        kind@ == "done"@ ==> r is Some && says((r->0)@, workspace@, NoteKind::Done),
        kind@ != "blocked"@ && kind@ != "done"@ ==> r is None,
{
    lemma_kinds_differ();
}

proof fn lemma_kinds_differ()
    ensures
        "blocked"@ != "done"@,
{
    reveal_strlit("blocked");
    reveal_strlit("done");
    assert("blocked"@.len() != "done"@.len());
}

/// Without single notifications there is a note for each blocked workspace and
/// then one for each that is done. With them there is a note for each that is
/// blocked or done, in their order.
pub proof fn law_all_notes(
    n: ClientActivityNotifications,
    r: Vec<AttentionNote>,
    k: int,
)
    requires
        call_ensures(drain_attention_notifications, (&n,), r),
    ensures
        n.notifications@.len() == 0 ==> r@.len() == n.blocked@.len() + n.done@.len(),
        n.notifications@.len() == 0 && 0 <= k < n.blocked@.len() ==> says(
            r@[k]@,
            n.blocked@[k]@,
            NoteKind::Blocked,
        ),
        n.notifications@.len() == 0 && 0 <= k < n.done@.len() ==> says(
            r@[n.blocked@.len() + k]@,
            n.done@[k]@,
            NoteKind::Done,
        ),
        0 <= k < n.notifications@.len()
            && n.notifications@[k].kind@ == "blocked"@ ==> exists|i: int|
            0 <= i < r@.len() && says(
                (#[trigger] r@[i])@,
                n.notifications@[k].workspace_id@,
                NoteKind::Blocked,
            ),
        0 <= k < n.notifications@.len() && n.notifications@[k].kind@ == "done"@ ==> exists|i: int|
            0 <= i < r@.len() && says(
                (#[trigger] r@[i])@,
                n.notifications@[k].workspace_id@,
                NoteKind::Done,
            ),
        n.notifications@.len() > 0 ==> r@.len() <= n.notifications@.len(),
{
    lemma_kinds_differ();
    let notes = crate::linux::window_activity::note_views(r@);
    assert(notes.len() == r@.len());
    assert forall|i: int| 0 <= i < r@.len() implies #[trigger] notes[i] == r@[i]@ by {}
    if n.notifications@.len() == 0 {
        if 0 <= k < n.blocked@.len() {
            assert(notes[k] == r@[k]@);
        }
        if 0 <= k < n.done@.len() {
            assert(notes[n.blocked@.len() + k] == r@[n.blocked@.len() + k]@);
        }
    } else {
        lemma_single(n.notifications@, k);
        if 0 <= k < n.notifications@.len() && crate::linux::window_activity::note_kind(
            n.notifications@[k].kind@,
        ) is Some {
            let kind = crate::linux::window_activity::note_kind(n.notifications@[k].kind@)->0;
            let i = choose|i: int|
                0 <= i < notes.len() && #[trigger] notes[i]
                    == crate::linux::window_activity::note_of(
                    n.notifications@[k].workspace_id@,
                    kind,
                );
            assert(notes[i] == r@[i]@);
            assert(says(r@[i]@, n.notifications@[k].workspace_id@, kind));
        }
    }
}

proof fn lemma_single(
    list: Seq<crate::client::types::ClientActivityNotification>,
    k: int,
)
    ensures
        single_notes(list).len() <= list.len(),
        0 <= k < list.len() && crate::linux::window_activity::note_kind(list[k].kind@) is Some
            ==> exists|i: int|
            0 <= i < single_notes(list).len() && #[trigger] single_notes(list)[i]
                == crate::linux::window_activity::note_of(
                list[k].workspace_id@,
                crate::linux::window_activity::note_kind(list[k].kind@)->0,
            ),
    decreases list.len(),
{
    if list.len() > 0 {
        let init = list.drop_last();
        lemma_single(init, k);
        let rest = single_notes(init);
        let all = single_notes(list);
        if 0 <= k < init.len() && crate::linux::window_activity::note_kind(list[k].kind@) is Some {
            assert(init[k] == list[k]);
            let i = choose|i: int|
                0 <= i < rest.len() && #[trigger] rest[i] == crate::linux::window_activity::note_of(
                    list[k].workspace_id@,
                    crate::linux::window_activity::note_kind(list[k].kind@)->0,
                );
            assert(all[i] == rest[i]);
        } else if k == init.len() && crate::linux::window_activity::note_kind(
            list[k].kind@,
        ) is Some {
            assert(all[all.len() - 1] == crate::linux::window_activity::note_of(
                list[k].workspace_id@,
                crate::linux::window_activity::note_kind(list[k].kind@)->0,
            ));
        }
    }
}

// ---------------------------------------------------------------------------
// The look.
// ---------------------------------------------------------------------------

/// The other theme is the light one from the dark one, however it is written,
/// and the dark one from any other.
pub proof fn law_the_other_theme(current: &str, r: &'static str)
    requires
        call_ensures(next_theme, (current,), r),
    ensures
        crate::text::order::ascii_lower(current@) == "dark"@ ==> r@ == "Light"@,
        crate::text::order::ascii_lower(current@) != "dark"@ ==> r@ == "Dark"@,
{
}

/// A theme is applied only where it was saved and found.
pub proof fn law_when_a_theme_is_applied(
    name: &str,
    theme: ClientTheme,
    refused: ThemeSwitch,
    missing: ThemeSwitch,
    found: ThemeSwitch,
)
    requires
        call_ensures(toggle_theme, (name, Err(())), refused),
        call_ensures(toggle_theme, (name, Ok(None)), missing),
        call_ensures(toggle_theme, (name, Ok(Some(theme))), found),
    ensures
        refused is NotSaved,
        missing is NotResolved,
        found matches ThemeSwitch::Applied { name: n, theme: t } && n@ == name@ && t == theme,
{
}

/// The theme of the settings is shown, and the fallback where it is unknown.
pub proof fn law_which_theme_is_shown(
    name: &str,
    theme: ClientTheme,
    fallback: ClientTheme,
    known: ShownTheme,
    unknown: ShownTheme,
)
    requires
        call_ensures(apply_config_snapshot, (name, Some(theme), fallback), known),
        call_ensures(apply_config_snapshot, (name, None, fallback), unknown),
    ensures
        known.theme == theme,
        unknown.theme == fallback,
        known.name@ == unknown.name@,
        known.name@.len() == name@.len(),
{
}

/// The value of a hexadecimal digit in lower case.
pub open spec fn hex_value(c: char) -> int {
    if '0' <= c <= '9' {
        c as int - 48
    } else {
        c as int - 87
    }
}

/// A colour is written as a hash and two digits each for red, green and blue.
pub proof fn law_a_colour_is_written_in_hex(c: ClientRgb, r: String)
    requires
        call_ensures(css_colour, (c,), r),
    ensures
        r@.len() == 7 && r@[0] == '#',
        forall|i: int|
            1 <= i < 7 ==> '0' <= #[trigger] r@[i] <= '9' || 'a' <= r@[i] <= 'f',
        c.0 == 16 * hex_value(r@[1]) + hex_value(r@[2]),
        c.1 == 16 * hex_value(r@[3]) + hex_value(r@[4]),
        c.2 == 16 * hex_value(r@[5]) + hex_value(r@[6]),
{
    reveal_strlit("#");
}

/// Colours are reported to tmux only, the foreground before the background.
pub proof fn law_who_gets_the_colours(
    tmux: bool,
    fg: ClientRgb,
    bg: ClientRgb,
    front: String,
    back: String,
    r: Option<(String, String)>,
)
    requires
        call_ensures(report_all_pane_colours, (tmux, fg, bg), r),
        call_ensures(css_colour, (fg,), front),
        call_ensures(css_colour, (bg,), back),
    ensures
        r is Some <==> tmux,
        r matches Some((a, b)) ==> a@ == front@ && b@ == back@,
{
}

/// A theme is light where its background has more than half of all light, and
/// the accents are darker on it.
pub proof fn law_light_themes_have_dark_accents(theme: ClientTheme)
    ensures
        is_light(theme) <==> theme.background.0 + theme.background.1 + theme.background.2 >= 385,
        accents_of(true).shell == "#087f8c"@ && accents_of(true).agent == "#7953bb"@ && accents_of(
            true,
        ).working == "#a46109"@,
        accents_of(false).shell == "#6bd4d0"@ && accents_of(false).agent == "#cba6f7"@
            && accents_of(false).working == "#f2bf68"@,
{
}

/// The settings have a file where its path is not blank, and it is kept as it
/// is.
pub proof fn law_the_path_of_the_settings(
    path: String,
    some: Option<String>,
    none: Option<String>,
)
    requires
        call_ensures(preferences_path, (Some(path),), some),
        call_ensures(preferences_path, (None,), none),
    ensures
        none is None,
        trimmed(path@).len() > 0 ==> some == Some(path),
        trimmed(path@).len() == 0 ==> some is None,
{
}

/// A colour is filled in for its mark, and what holds no mark stays.
pub proof fn law_colours_of_the_theme_are_filled_in(a: Seq<char>, b: Seq<char>, theme: ClientTheme)
    requires
        !a.contains('{') && !b.contains('{'),
    ensures
        themed(a, theme) == a,
        themed(a + "{bg}"@ + b, theme) == a + hex_colour(theme.background) + b,
        themed(a + "{fg}"@ + b, theme) == a + hex_colour(theme.foreground) + b,
{
    reveal_strlit("{bg}");
    reveal_strlit("{fg}");
    reveal_strlit("#");
    let back = hex_colour(theme.background);
    let front = hex_colour(theme.foreground);
    lemma_unmarked(a, "{bg}"@, back);
    lemma_unmarked(a, "{fg}"@, front);
    lemma_unmarked(b, "{bg}"@, back);
    lemma_unmarked(b, "{fg}"@, front);
    lemma_one_word(a, "{bg}"@, b, back);
    lemma_one_word(a, "{fg}"@, b, front);
    let filled = a + back + b;
    assert forall|i: int| 0 <= i < filled.len() implies filled[i] != '{' by {
        if i < a.len() {
            assert(a.contains(a[i]));
        } else if i >= a.len() + back.len() {
            assert(b.contains(b[i - a.len() - back.len()]));
        }
    }
    lemma_unmarked(filled, "{fg}"@, front);
    lemma_other_word(a, "{fg}"@, b, "{bg}"@, back);
}

proof fn lemma_unmarked(s: Seq<char>, word: Seq<char>, to: Seq<char>)
    requires
        !s.contains('{'),
        word.len() > 0,
        word[0] == '{',
    ensures
        substituted(s, word, to) == s,
    decreases s.len(),
{
    if s.len() > 0 {
        assert(s.contains(s[0]));
        if starts_with(s, word) {
            assert(s.take(word.len() as int)[0] == word[0]);
        }
        let rest = s.drop_first();
        assert forall|i: int| 0 <= i < rest.len() implies rest[i] != '{' by {
            assert(s.contains(s[i + 1]));
        }
        lemma_unmarked(rest, word, to);
        assert(seq![s[0]] + rest =~= s);
    }
}

proof fn lemma_one_word(a: Seq<char>, word: Seq<char>, b: Seq<char>, to: Seq<char>)
    requires
        !a.contains('{') && !b.contains('{'),
        word.len() > 0,
        word[0] == '{',
    ensures
        substituted(a + word + b, word, to) == a + to + b,
{
    let s = a + word + b;
    assert forall|i: int| 0 <= i < a.len() implies !starts_with(#[trigger] s.skip(i), word) by {
        assert(a.contains(a[i]));
        if starts_with(s.skip(i), word) {
            assert(s.skip(i).take(word.len() as int)[0] == word[0]);
            assert(s.skip(i)[0] == a[i]);
        }
    }
    crate::laws::text::law_words_are_replaced_in_order(a, word, b, to);
    lemma_unmarked(b, word, to);
}

proof fn lemma_other_word(
    a: Seq<char>,
    word: Seq<char>,
    b: Seq<char>,
    other: Seq<char>,
    to: Seq<char>,
)
    requires
        !a.contains('{') && !b.contains('{'),
        word == "{fg}"@,
        other == "{bg}"@,
    ensures
        substituted(a + word + b, other, to) == a + word + b,
    decreases a.len(),
{
    reveal_strlit("{bg}");
    reveal_strlit("{fg}");
    let s = a + word + b;
    if starts_with(s, other) {
        assert(s.take(4)[0] == other[0] && s.take(4)[1] == other[1]);
        assert(s[0] == '{' && s[1] == 'b');
        if a.len() > 0 {
            assert(a.contains(a[0]));
        }
    }
    if a.len() > 0 {
        let rest = a.drop_first();
        assert forall|i: int| 0 <= i < rest.len() implies rest[i] != '{' by {
            assert(a.contains(a[i + 1]));
        }
        lemma_other_word(rest, word, b, other, to);
        assert(s.drop_first() =~= rest + word + b);
        assert(seq![s[0]] + (rest + word + b) =~= s);
    } else {
        let tail = s.drop_first();
        assert(s[0] == '{');
        assert forall|i: int| 0 <= i < tail.len() implies tail[i] != '{' by {
            if i >= 3 {
                assert(b.contains(b[i - 3]));
            }
        }
        lemma_unmarked(tail, other, to);
        assert(seq![s[0]] + tail =~= s);
    }
}

/// Modes and languages have their words.
pub proof fn law_words_of_the_look()
    ensures
        mode_name(StatusBarMode::Tmux) == "tmux"@,
        mode_name(StatusBarMode::Theme) == "theme"@,
        forall|m: StatusBarMode| other_mode(m) != m,
        language_tag(Language::System) == "system"@,
        language_tag(Language::English) == "en"@,
        language_tag(Language::SimplifiedChinese) == "zh-CN"@,
        forall|l: Language| #[trigger] tagged_language(language_tag(l)) == l,
{
    assert forall|l: Language| #[trigger] tagged_language(language_tag(l)) == l by {
        crate::linux::window_appearance::law_picked_language_is_the_listed_one(l);
    }
}

} // verus!
