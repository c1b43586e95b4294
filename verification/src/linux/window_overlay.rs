//! Jumping to a pane that wants attention, and the target that the panel
//! calls the current one.
use vstd::prelude::*;

use crate::client::attention::{attention_rows, panel_attention_rows, ClientActivitySnapshot};
use crate::client::call::FfiClient;
use crate::client::query::{text_arg, CArgView, CCall, CCallView, CFunction};
use crate::client::snapshot::{find_pane, pane_is, panes_of, tab_panes};
use crate::client::types::{ClientTab, ClientTask};
use crate::linux::connection::{find_socket, replica_matches, socket_for, workspace_replica_matches};
use crate::linux::overlay::{OverlayLayer, OverlayView};
use crate::linux::panel_model::{ExistingNav, ExistingPanelState, PanelItem};
use crate::linux::panel_rows::PanelTab;
use crate::linux::quickconnect_panel::PanelShowArgs;
use crate::linux::target::{target_of, workspace_to_draft_config, TargetConfig};
use crate::linux::window_layout::{view_of, workspace};
use crate::linux::workspace_sidebar_model::{
    activity_rows, agent_views, AgentSidebarItem, ViewStore, WorkspaceView,
};
use crate::seqs::{find, lemma_find};
use crate::text::same;
use crate::workspace_id::{
    id_text, id_view, parse_workspace_id, parsed_id, WorkspaceId, WorkspaceIdView,
};

verus! {

/// The identity of the workspace of a view, where it is meant by `requested`.
pub open spec fn meant_identity(view: WorkspaceView, requested: Seq<char>) -> Option<
    WorkspaceIdView,
> {
    match view.workspace {
        Some(w) => match parsed_id(w.id@) {
            Some(id) => if replica_matches(id, view.replica_id@, requested) {
                Some(id)
            } else {
                None
            },
            None => None,
        },
        None => None,
    }
}

/// The first workspace that is meant by `requested`.
pub open spec fn meant_workspace(views: Seq<WorkspaceView>, requested: Seq<char>) -> Option<
    WorkspaceIdView,
>
    decreases views.len(),
{
    if views.len() == 0 {
        None
    } else {
        match meant_identity(views[0], requested) {
            Some(id) => Some(id),
            None => meant_workspace(views.drop_first(), requested),
        }
    }
}

/// Returns the workspace that a reported identity means.
pub fn attention_workspace_id(views: &Vec<WorkspaceView>, requested: &str) -> (r: Option<
    WorkspaceId,
>)
    ensures
        id_view(r) == meant_workspace(views@, requested@),
{
    let mut i: usize = 0;
    assert(views@.skip(0) =~= views@);
    while i < views.len()
        invariant
            i <= views.len(),
            meant_workspace(views@, requested@) == meant_workspace(
                views@.skip(i as int),
                requested@,
            ),
        decreases views.len() - i,
    {
        let view = &views[i];
        assert(views@.skip(i as int).drop_first() =~= views@.skip(i + 1));
        if let Some(w) = &view.workspace {
            if let Some(id) = parse_workspace_id(w.id.as_str()) {
                if workspace_replica_matches(&id, view.replica_id.as_str(), requested) {
                    return Some(id);
                }
            }
        }
        i += 1;
    }
    None
}

/// Returns the workspace to bring to the front for a reported identity; none
/// where it is there already or is unknown.
pub fn activate_attention_workspace(
    views: &Vec<WorkspaceView>,
    in_front: &str,
    requested: &str,
) -> (r: Option<WorkspaceId>)
    ensures
        id_view(r) == if in_front@ == requested@ {
            None
        } else {
            meant_workspace(views@, requested@)
        },
{
    if same(in_front, requested) {
        None
    } else {
        attention_workspace_id(views, requested)
    }
}

/// The first of the tabs that holds a pane.
pub open spec fn tab_holding(view: WorkspaceView, tabs: Seq<ClientTab>, pane: u32) -> Option<u32>
    decreases tabs.len(),
{
    if tabs.len() == 0 {
        None
    } else if find(panes_of(view.panes@, tabs[0].id), pane_is(pane)) is Some {
        Some(tabs[0].id)
    } else {
        tab_holding(view, tabs.drop_first(), pane)
    }
}

/// Returns the tab to switch to for a pane of the workspace in front; none
/// where that tab is shown already or the pane is unknown.
pub fn jump_to_attention_pane(
    views: &Vec<WorkspaceView>,
    key: &str,
    pane: u32,
    shown_tab: u32,
) -> (r: Option<u32>)
    ensures
        r == (match view_of(views@, key@) {
            Some(view) => match tab_holding(view, view.tabs@, pane) {
                Some(tab) => if tab != shown_tab {
                    Some(tab)
                } else {
                    None
                },
                None => None,
            },
            None => None,
        }),
{
    let view = match workspace(views, key) {
        Some(view) => view,
        None => {
            return None;
        },
    };
    let tabs = &view.tabs;
    let mut i: usize = 0;
    assert(tabs@.skip(0) =~= tabs@);
    while i < tabs.len()
        invariant
            i <= tabs.len(),
            view_of(views@, key@) == Some(*view),
            *tabs == view.tabs,
            tab_holding(*view, tabs@, pane) == tab_holding(*view, tabs@.skip(i as int), pane),
        decreases tabs.len() - i,
    {
        assert(tabs@.skip(i as int).drop_first() =~= tabs@.skip(i + 1));
        let id: u32 = tabs[i].id;
        let panes = tab_panes(&view.panes, id);
        if find_pane(&panes, pane).is_some() {
            return if id != shown_tab {
                Some(id)
            } else {
                None
            };
        }
        i += 1;
    }
    None
}

/// A step of a jump to a line of a pane.
#[derive(Debug, PartialEq, Eq)]
pub enum JumpStep {
    /// Brings a workspace to the front.
    Activate(WorkspaceId),
    /// Switches to the tab that holds the pane, by [`jump_to_attention_pane`].
    ShowTabOf(u32),
    /// Runs a task in the workspace in front.
    Task(ClientTask),
    /// Looks for the row of the line, by [`viewport_call`], and reveals it.
    RevealLine { pane_id: u32, seq: u64 },
    ClosePanel,
}

/// The view of a [`JumpStep`].
pub enum JumpStepView {
    Activate(WorkspaceIdView),
    ShowTabOf(u32),
    Task(ClientTask),
    RevealLine { pane_id: u32, seq: u64 },
    ClosePanel,
}

impl View for JumpStep {
    type V = JumpStepView;

    open spec fn view(&self) -> JumpStepView {
        match *self {
            JumpStep::Activate(id) => JumpStepView::Activate(id@),
            JumpStep::ShowTabOf(pane) => JumpStepView::ShowTabOf(pane),
            JumpStep::Task(task) => JumpStepView::Task(task),
            JumpStep::RevealLine { pane_id, seq } => JumpStepView::RevealLine { pane_id, seq },
            JumpStep::ClosePanel => JumpStepView::ClosePanel,
        }
    }
}

/// The steps of a jump, in order: the workspace, the tab, the pane, and the
/// line where one is meant.
pub open spec fn jump_steps(activate: Option<WorkspaceIdView>, pane: u32, seq: u64) -> Seq<
    JumpStepView,
> {
    (match activate {
        Some(id) => seq![JumpStepView::Activate(id)],
        None => Seq::<JumpStepView>::empty(),
    }) + seq![
        JumpStepView::ShowTabOf(pane),
        JumpStepView::Task(ClientTask::SwitchPane { pane_id: pane }),
    ] + (if seq > 0 {
        seq![JumpStepView::RevealLine { pane_id: pane, seq }]
    } else {
        Seq::<JumpStepView>::empty()
    }) + seq![JumpStepView::ClosePanel]
}

/// Returns the steps of a jump to a line of a pane, in order. Line zero means
/// the pane alone.
pub fn jump_plan(
    views: &Vec<WorkspaceView>,
    in_front: &str,
    requested: &str,
    pane: u32,
    seq: u64,
) -> (r: Vec<JumpStep>)
    ensures
        Seq::new(r@.len(), |i: int| r@[i]@) == jump_steps(
            if in_front@ == requested@ {
                None
            } else {
                meant_workspace(views@, requested@)
            },
            pane,
            seq,
        ),
{
    let mut out: Vec<JumpStep> = Vec::new();
    let activate = activate_attention_workspace(views, in_front, requested);
    let ghost wanted = jump_steps(id_view(activate), pane, seq);
    if let Some(id) = activate {
        out.push(JumpStep::Activate(id));
    }
    out.push(JumpStep::ShowTabOf(pane));
    out.push(JumpStep::Task(ClientTask::SwitchPane { pane_id: pane }));
    if seq > 0 {
        out.push(JumpStep::RevealLine { pane_id: pane, seq });
    }
    out.push(JumpStep::ClosePanel);
    assert(Seq::new(out@.len(), |i: int| out@[i]@) =~= wanted);
    out
}

/// Returns the call that looks for the row of a line of a pane; there is none
/// for line zero.
pub fn viewport_call(key: &str, pane: u32, seq: u64) -> (r: Option<CCall>)
    ensures
        if seq > 0 {
            r matches Some(call) && call@ == (CCallView {
                function: CFunction::ViewportForSeq,
                args: seq![
                    text_arg(key@),
                    CArgView::Number(pane as u64),
                    CArgView::Number(seq),
                ],
            })
        } else {
            r is None
        },
{
    if seq > 0 {
        Some(FfiClient::workspace_pane_viewport_for_seq(key, pane, seq))
    } else {
        None
    }
}

/// Returns the row to scroll to: the one that the core found, where the pane
/// is shown. The line is then marked.
pub fn reveal_line(overlay: &mut OverlayLayer, row: Option<u32>, pane_shown: bool) -> (r: Option<
    u32,
>)
    ensures
        r == if pane_shown {
            row
        } else {
            None
        },
        final(overlay)@ == (OverlayView {
            search_highlight: old(overlay)@.search_highlight || (pane_shown && row is Some),
            ..old(overlay)@
        }),
{
    match row {
        Some(row) => {
            if pane_shown {
                overlay.search_highlight = true;
                Some(row)
            } else {
                None
            }
        },
        None => None,
    }
}

/// Returns the target of the workspace in front, which the panel marks as the
/// current one.
pub fn current_target(
    views: &Vec<WorkspaceView>,
    sockets: &Vec<(WorkspaceId, Option<String>)>,
    key: &str,
    default_name: &str,
) -> (r: Option<TargetConfig>)
    ensures
        match view_of(views@, key@) {
            Some(view) => match view.workspace {
                Some(w) => if parsed_id(key@) is Some {
                    r is Some && (r->0)@ == target_of(
                        w,
                        socket_for(sockets@, parsed_id(key@)),
                        default_name@,
                    )
                } else {
                    r is None
                },
                None => r is None,
            },
            None => r is None,
        },
{
    let view = match workspace(views, key) {
        Some(view) => view,
        None => {
            return None;
        },
    };
    let id = parse_workspace_id(key);
    if id.is_none() {
        return None;
    }
    match &view.workspace {
        Some(w) => {
            let socket = find_socket(sockets, &id);
            match &socket {
                Some(s) => Some(workspace_to_draft_config(w, Some(s.as_str()), default_name)),
                None => Some(workspace_to_draft_config(w, None, default_name)),
            }
        },
        None => None,
    }
}

/// Opens the panel, and returns what it is opened with: its tab, its items, and
/// the agents and panes of the activity in all workspaces. Only one thing takes
/// input above the terminal, so the search in a pane is hidden; and the tab is
/// recorded while the panel is open.
pub fn open_panel(
    overlay: &mut OverlayLayer,
    panel_open: &mut Option<PanelTab>,
    initial_tab: PanelTab,
    workspaces: Vec<PanelItem>,
    workspace_search_items: Vec<PanelItem>,
    store: &ViewStore,
    activity: &ClientActivitySnapshot,
    existing: ExistingPanelState,
) -> (r: PanelShowArgs)
    ensures
        r.initial_tab == initial_tab,
        r.workspaces == workspaces,
        r.workspace_search_items == workspace_search_items,
        agent_views(r.agents@) == activity_rows(store.views@, activity.workspaces@, true),
        r.attention@ == attention_rows(activity.workspaces@),
        r.existing == existing,
        final(overlay)@ == (OverlayView { pane_find: false, ..old(overlay)@ }),
        *final(panel_open) == Some(initial_tab),
{
    overlay.pane_find = false;
    *panel_open = Some(initial_tab);
    PanelShowArgs {
        initial_tab,
        workspaces,
        workspace_search_items,
        agents: AgentSidebarItem::from_views(store, activity),
        attention: panel_attention_rows(activity),
        existing,
    }
}

/// Records that the panel is closed, and returns the pane that gets the focus.
pub fn panel_closed(panel_open: &mut Option<PanelTab>, active_pane: u32) -> (r: u32)
    ensures
        *final(panel_open) is None,
        r == active_pane,
{
    *panel_open = None;
    active_pane
}

/// Returns the call that silences a pane; there is none where no workspace is
/// meant.
pub fn mute_call(views: &Vec<WorkspaceView>, requested: &str, pane: u32, seconds: u64) -> (r:
    Option<CCall>)
    ensures
        match meant_workspace(views@, requested@) {
            Some(id) => r matches Some(call) && call@ == (CCallView {
                function: CFunction::AttentionMute,
                args: seq![
                    text_arg(id_text(id)),
                    CArgView::Number(pane as u64),
                    CArgView::Number(seconds),
                ],
            }),
            None => r is None,
        },
{
    match attention_workspace_id(views, requested) {
        Some(id) => Some(
            FfiClient::workspace_attention_mute(id.as_str().as_str(), pane, seconds),
        ),
        None => None,
    }
}

/// What follows an attempt to mute a pane.
#[derive(Debug, Clone, Copy, PartialEq, Eq, Structural)]
pub enum MuteOutcome {
    /// The sidebar and the badge are refreshed.
    Refresh,
    /// The attempt is reported with its code.
    Failed(i32),
}

/// Returns what follows an attempt to mute a pane: `answer` is the code of the
/// core, or nothing where no workspace was meant.
pub fn muted(answer: Option<i32>) -> (r: MuteOutcome)
    ensures
        r == (match answer {
            Some(0) => MuteOutcome::Refresh,
            Some(code) => MuteOutcome::Failed(code),
            None => MuteOutcome::Failed(-1i32),
        }),
{
    match answer {
        Some(code) => {
            if code == 0 {
                MuteOutcome::Refresh
            } else {
                MuteOutcome::Failed(code)
            }
        },
        None => MuteOutcome::Failed(-1i32),
    }
}

/// Tells whether the hosts are to be probed when the panel shows a list.
pub fn probes_hosts(nav: &ExistingNav) -> (r: bool)
    ensures
        r == (*nav is SshHosts),
{
    match nav {
        ExistingNav::SshHosts => true,
        _ => false,
    }
}

/// A jump goes to a tab of the workspace that holds the pane.
pub proof fn law_jump_reaches_the_pane(view: WorkspaceView, tabs: Seq<ClientTab>, pane: u32)
    ensures
        tab_holding(view, tabs, pane) matches Some(tab) ==> (exists|i: int|
            0 <= i < tabs.len() && (#[trigger] tabs[i]).id == tab) && (exists|i: int|
            0 <= i < panes_of(view.panes@, tab).len() && (#[trigger] panes_of(
                view.panes@,
                tab,
            )[i]).id == pane),
    decreases tabs.len(),
{
    if tabs.len() > 0 {
        let panes = panes_of(view.panes@, tabs[0].id);
        lemma_find(panes, pane_is(pane));
        if find(panes, pane_is(pane)) is Some {
            assert(tabs[0].id == tab_holding(view, tabs, pane)->0);
            let i = choose|i: int| 0 <= i < panes.len() && pane_is(pane)(#[trigger] panes[i]);
            assert(panes[i].id == pane);
        } else {
            law_jump_reaches_the_pane(view, tabs.drop_first(), pane);
            if let Some(tab) = tab_holding(view, tabs.drop_first(), pane) {
                let i = choose|i: int|
                    0 <= i < tabs.drop_first().len() && (#[trigger] tabs.drop_first()[i]).id
                        == tab;
                assert(tabs[i + 1].id == tab);
            }
        }
    }
}

} // verus!
