//! How output reaches the surfaces of shown and hidden workspaces.
use vstd::prelude::*;
use vstd::string::*;

use crate::client::abi::{
    STATE_ACTIVE_PANE_CHANGED, STATE_PANE_AGENT_CHANGED, STATE_PANE_FRAME, STATE_PANE_HISTORY,
    STATE_PANE_OUTPUT, STATE_PANE_SNAPSHOT, STATE_STATUS_SUBSCRIPTION,
};
use crate::client::call::FfiClient;
use crate::client::event::topology_event;
use crate::client::query::{text_arg, CArgView, CCall, CCallView, CFunction};
use crate::client::snapshot::{all_panes, find_pane, flat_panes, pane_is, panes_of, tab_panes};
use crate::client::types::{ClientPane, ClientTask, ClientWorkspaceEvent};
use crate::command_queue::{pushed, ClientCommand, CommandQueue};
use crate::linux::connection::same_id;
use crate::linux::window_layout::{view_of, workspace};
use crate::linux::workspace_sidebar_model::{ViewStore, WorkspaceView};
use crate::seqs::{find, flat};
use crate::text::same;
use crate::workspace_id::{id_view, parse_workspace_id, parsed_id, WorkspaceId, WorkspaceIdView};

verus! {

/// How the output of a pane is delivered: as it comes, with adjacent output
/// put together, or not at all until a fresh baseline is asked for.
#[derive(Debug, Clone, Copy, PartialEq, Eq, Structural)]
pub enum PaneRenderPolicy {
    Live,
    Coalesce,
    Pause,
}

/// The transport of a workspace, where it is known.
pub open spec fn transport_of(view: WorkspaceView) -> Option<Seq<char>> {
    match view.workspace {
        Some(w) => match w.resolved_target {
            Some(t) => match t.transport {
                Some(s) => Some(s@),
                None => None,
            },
            None => None,
        },
        None => None,
    }
}

/// The policy of a hidden workspace: over SSH output is paused, elsewhere it
/// is put together without losing a byte.
pub open spec fn hidden_policy(view: WorkspaceView) -> PaneRenderPolicy {
    if transport_of(view) == Some("ssh"@) {
        PaneRenderPolicy::Pause
    } else {
        PaneRenderPolicy::Coalesce
    }
}

/// Returns the policy of a hidden workspace.
pub fn hidden_render_policy(view: &WorkspaceView) -> (r: PaneRenderPolicy)
    ensures
        r == hidden_policy(*view),
{
    if let Some(w) = &view.workspace {
        if let Some(t) = &w.resolved_target {
            if let Some(s) = &t.transport {
                if same(s.as_str(), "ssh") {
                    return PaneRenderPolicy::Pause;
                }
            }
        }
    }
    PaneRenderPolicy::Coalesce
}

/// The policy that a pane is to have.
#[derive(Debug)]
pub struct RenderTarget {
    pub workspace_id: String,
    pub pane_id: u32,
    pub policy: PaneRenderPolicy,
}

/// The view of a [`RenderTarget`].
pub struct RenderTargetView {
    pub workspace_id: Seq<char>,
    pub pane_id: u32,
    pub policy: PaneRenderPolicy,
}

impl View for RenderTarget {
    type V = RenderTargetView;

    open spec fn view(&self) -> RenderTargetView {
        RenderTargetView {
            workspace_id: self.workspace_id@,
            pane_id: self.pane_id,
            policy: self.policy,
        }
    }
}

/// The views of targets.
pub open spec fn target_views(s: Seq<RenderTarget>) -> Seq<RenderTargetView> {
    Seq::new(s.len(), |i: int| s[i]@)
}

/// The policy of a workspace while `visible` is shown.
pub open spec fn view_policy(view: WorkspaceView, visible: Seq<char>) -> PaneRenderPolicy {
    if view.key@ == visible {
        PaneRenderPolicy::Live
    } else {
        hidden_policy(view)
    }
}

/// The targets of the panes of one workspace.
pub open spec fn view_targets(view: WorkspaceView, visible: Seq<char>) -> Seq<RenderTargetView> {
    all_panes(view.panes@).map_values(
        |p: ClientPane|
            RenderTargetView {
                workspace_id: view.key@,
                pane_id: p.id,
                policy: view_policy(view, visible),
            },
    )
}

/// The targets of every pane.
pub open spec fn targets_of(views: Seq<WorkspaceView>, visible: Seq<char>) -> Seq<
    RenderTargetView,
> {
    flat(views.map_values(|v: WorkspaceView| view_targets(v, visible)))
}

/// Returns the policy that every pane is to have while `visible` is shown.
pub fn render_targets(views: &Vec<WorkspaceView>, visible: &str) -> (r: Vec<RenderTarget>)
    ensures
        target_views(r@) == targets_of(views@, visible@),
{
    let mut out: Vec<RenderTarget> = Vec::new();
    let ghost lists = views@.map_values(|v: WorkspaceView| view_targets(v, visible@));
    let mut i: usize = 0;
    assert(target_views(out@) =~= flat(lists.take(0)));
    while i < views.len()
        invariant
            i <= views.len(),
            lists == views@.map_values(|v: WorkspaceView| view_targets(v, visible@)),
            target_views(out@) == flat(lists.take(i as int)),
        decreases views.len() - i,
    {
        let view = &views[i];
        let policy = if same(view.key.as_str(), visible) {
            PaneRenderPolicy::Live
        } else {
            hidden_render_policy(view)
        };
        let panes = flat_panes(&view.panes);
        let ghost before = target_views(out@);
        let ghost wanted = view_targets(*view, visible@);
        let mut k: usize = 0;
        assert(before + wanted.take(0) =~= before);
        while k < panes.len()
            invariant
                k <= panes.len(),
                panes@ == all_panes(view.panes@),
                policy == view_policy(*view, visible@),
                wanted == view_targets(*view, visible@),
                target_views(out@) == before + wanted.take(k as int),
            decreases panes.len() - k,
        {
            let ghost so_far = target_views(out@);
            out.push(
                RenderTarget { workspace_id: view.key.clone(), pane_id: panes[k].id, policy },
            );
            proof {
                assert(target_views(out@) =~= so_far.push(out@.last()@));
                assert(before + wanted.take(k + 1) =~= (before + wanted.take(k as int)).push(
                    wanted[k as int],
                ));
            }
            k += 1;
        }
        proof {
            assert(wanted.take(wanted.len() as int) =~= wanted);
            assert(lists.take(i + 1).drop_last() =~= lists.take(i as int));
            assert(lists.take(i + 1).last() == wanted);
        }
        i += 1;
    }
    assert(lists.take(lists.len() as int) =~= lists);
    out
}

// ---------------------------------------------------------------------------
// Output of panes.
// ---------------------------------------------------------------------------

/// A pane whose output is taken in, and its size.
#[derive(Debug, PartialEq, Eq)]
pub struct OutputTarget {
    pub workspace_id: WorkspaceId,
    pub pane_id: u32,
    pub cols: u16,
    pub rows: u16,
}

/// The view of an [`OutputTarget`].
pub struct OutputTargetView {
    pub workspace_id: WorkspaceIdView,
    pub pane_id: u32,
    pub cols: u16,
    pub rows: u16,
}

impl View for OutputTarget {
    type V = OutputTargetView;

    open spec fn view(&self) -> OutputTargetView {
        OutputTargetView {
            workspace_id: self.workspace_id@,
            pane_id: self.pane_id,
            cols: self.cols,
            rows: self.rows,
        }
    }
}

/// The views of panes whose output is taken in.
pub open spec fn output_views(s: Seq<OutputTarget>) -> Seq<OutputTargetView> {
    Seq::new(s.len(), |i: int| s[i]@)
}

/// The panes of one workspace; none where its identity cannot be read.
pub open spec fn view_outputs(view: WorkspaceView) -> Seq<OutputTargetView> {
    match parsed_id(view.key@) {
        Some(id) => all_panes(view.panes@).map_values(
            |p: ClientPane|
                OutputTargetView {
                    workspace_id: id,
                    pane_id: p.id,
                    cols: p.cols,
                    rows: p.rows,
                },
        ),
        None => Seq::<OutputTargetView>::empty(),
    }
}

/// Returns the panes whose output is taken in: those of every workspace,
/// hidden ones too, in order.
pub fn sync_pane_outputs(views: &Vec<WorkspaceView>) -> (r: Vec<OutputTarget>)
    ensures
        output_views(r@) == flat(views@.map_values(|v: WorkspaceView| view_outputs(v))),
{
    let mut out: Vec<OutputTarget> = Vec::new();
    let ghost lists = views@.map_values(|v: WorkspaceView| view_outputs(v));
    let mut i: usize = 0;
    assert(output_views(out@) =~= flat(lists.take(0)));
    while i < views.len()
        invariant
            i <= views.len(),
            lists == views@.map_values(|v: WorkspaceView| view_outputs(v)),
            output_views(out@) == flat(lists.take(i as int)),
        decreases views.len() - i,
    {
        push_view_outputs(&mut out, &views[i]);
        proof {
            assert(lists.take(i + 1).drop_last() =~= lists.take(i as int));
            assert(lists.take(i + 1).last() == view_outputs(views@[i as int]));
        }
        i += 1;
    }
    assert(lists.take(lists.len() as int) =~= lists);
    out
}

fn push_view_outputs(out: &mut Vec<OutputTarget>, view: &WorkspaceView)
    ensures
        output_views(final(out)@) == output_views(old(out)@) + view_outputs(*view),
{
    let ghost before = output_views(out@);
    let ghost wanted = view_outputs(*view);
    assert(before + wanted.take(0) =~= before);
    let id = match parse_workspace_id(view.key.as_str()) {
        Some(id) => id,
        None => {
            assert(before + wanted =~= before);
            return ;
        },
    };
    let panes = flat_panes(&view.panes);
    let mut k: usize = 0;
    while k < panes.len()
        invariant
            k <= panes.len(),
            panes@ == all_panes(view.panes@),
            parsed_id(view.key@) == Some(id@),
            wanted == view_outputs(*view),
            output_views(out@) == before + wanted.take(k as int),
        decreases panes.len() - k,
    {
        let ghost so_far = output_views(out@);
        out.push(
            OutputTarget {
                workspace_id: id.clone(),
                pane_id: panes[k].id,
                cols: panes[k].cols,
                rows: panes[k].rows,
            },
        );
        proof {
            assert(output_views(out@) =~= so_far.push(out@.last()@));
            assert(before + wanted.take(k + 1) =~= (before + wanted.take(k as int)).push(
                wanted[k as int],
            ));
        }
        k += 1;
    }
    assert(wanted.take(wanted.len() as int) =~= wanted);
}

/// A step of taking in the output of a pane.
#[derive(Debug, Clone, Copy, PartialEq, Eq, Structural)]
pub enum OutputStep {
    /// The surface gets the size of the pane.
    GridSize,
    /// A surface without content is filled.
    Seed,
    /// What the pane showed while it was paused is fed as a whole.
    ResumeBaseline,
    /// The events that wait for the surface are fed.
    RenderEvents,
    /// What the parser answers is sent, by [`take_parser_replies`].
    Replies,
}

/// The steps for a pane: none without a surface, and nothing is fed to a
/// surface that could not be filled.
pub open spec fn output_steps(resident: bool, seeded: bool) -> Seq<OutputStep> {
    if !resident {
        Seq::<OutputStep>::empty()
    } else if !seeded {
        seq![OutputStep::GridSize, OutputStep::Seed]
    } else {
        seq![
            OutputStep::GridSize,
            OutputStep::Seed,
            OutputStep::ResumeBaseline,
            OutputStep::RenderEvents,
            OutputStep::Replies,
        ]
    }
}

/// Returns the steps for a pane, in order: `resident` tells whether it has a
/// surface, `seeded` whether that has content once it was filled.
pub fn pane_output_steps(resident: bool, seeded: bool) -> (r: Vec<OutputStep>)
    ensures
        r@ == output_steps(resident, seeded),
{
    let mut out: Vec<OutputStep> = Vec::new();
    if resident {
        out.push(OutputStep::GridSize);
        out.push(OutputStep::Seed);
        if seeded {
            out.push(OutputStep::ResumeBaseline);
            out.push(OutputStep::RenderEvents);
            out.push(OutputStep::Replies);
        }
    }
    assert(out@ =~= output_steps(resident, seeded));
    out
}

// ---------------------------------------------------------------------------
// Policies.
// ---------------------------------------------------------------------------

/// The output of the pane was paused and is so no longer.
pub open spec fn resumes(previous: PaneRenderPolicy, target: RenderTargetView) -> bool {
    previous == PaneRenderPolicy::Pause && target.policy != PaneRenderPolicy::Pause
}

/// A command asks for a baseline of a pane.
pub open spec fn asks_for_baseline(command: ClientCommand, target: RenderTargetView) -> bool {
    command matches ClientCommand::Task { workspace_id: Some(w), task } && w@
        == target.workspace_id && task == (ClientTask::RequestPaneSnapshot {
        pane_id: target.pane_id,
    })
}

/// `commands` holds one request for each target that resumes, in order.
pub open spec fn resume_requests(
    targets: Seq<RenderTargetView>,
    previous: Seq<PaneRenderPolicy>,
    commands: Seq<ClientCommand>,
) -> bool
    decreases targets.len(),
{
    if targets.len() == 0 {
        commands.len() == 0
    } else if resumes(previous.last(), targets.last()) {
        commands.len() > 0 && asks_for_baseline(commands.last(), targets.last()) && resume_requests(
            targets.drop_last(),
            previous.drop_last(),
            commands.drop_last(),
        )
    } else {
        resume_requests(targets.drop_last(), previous.drop_last(), commands)
    }
}

/// Asks for a baseline of every pane whose output resumes. `previous` holds
/// the policy that each pane had before.
pub fn sync_render_policies(
    targets: &Vec<RenderTarget>,
    previous: &Vec<PaneRenderPolicy>,
    queue: &mut CommandQueue,
)
    requires
        targets.len() == previous.len(),
    ensures
        exists|commands: Seq<ClientCommand>|
            final(queue)@ == old(queue)@ + commands && #[trigger] resume_requests(
                target_views(targets@),
                previous@,
                commands,
            ),
{
    let ghost start = queue@;
    let ghost all = target_views(targets@);
    let ghost mut commands = Seq::<ClientCommand>::empty();
    let mut i: usize = 0;
    assert(start + commands =~= start);
    while i < targets.len()
        invariant
            i <= targets.len(),
            targets.len() == previous.len(),
            all == target_views(targets@),
            start == old(queue)@,
            queue@ == start + commands,
            resume_requests(all.take(i as int), previous@.take(i as int), commands),
        decreases targets.len() - i,
    {
        let target = &targets[i];
        proof {
            assert(all.take(i + 1).drop_last() =~= all.take(i as int));
            assert(previous@.take(i + 1).drop_last() =~= previous@.take(i as int));
            assert(all.take(i + 1).last() == target@);
            assert(previous@.take(i + 1).last() == previous@[i as int]);
        }
        if previous[i] == PaneRenderPolicy::Pause && target.policy != PaneRenderPolicy::Pause {
            let command = ClientCommand::Task {
                workspace_id: Some(target.workspace_id.clone()),
                task: ClientTask::RequestPaneSnapshot { pane_id: target.pane_id },
            };
            let ghost asked = command;
            queue.push(command);
            proof {
                assert(queue@ == pushed(start + commands, asked));
                assert(queue@ =~= start + commands.push(asked));
                assert(commands.push(asked).drop_last() =~= commands);
                commands = commands.push(asked);
            }
        }
        i += 1;
    }
    assert(all.take(i as int) =~= all);
    assert(previous@.take(i as int) =~= previous@);
}

// ---------------------------------------------------------------------------
// Events.
// ---------------------------------------------------------------------------

/// The identities of the workspaces whose topology changed, each once, in the
/// order in which they were first reported.
pub open spec fn changed_workspaces(events: Seq<ClientWorkspaceEvent>) -> Seq<WorkspaceIdView>
    decreases events.len(),
{
    if events.len() == 0 {
        Seq::<WorkspaceIdView>::empty()
    } else {
        let rest = changed_workspaces(events.drop_last());
        match parsed_id(events.last().workspace_id@) {
            Some(id) => if topology_event(events.last().event.type_) && !rest.contains(id) {
                rest.push(id)
            } else {
                rest
            },
            None => rest,
        }
    }
}

/// The views of identities.
pub open spec fn id_views(ids: Seq<WorkspaceId>) -> Seq<WorkspaceIdView> {
    Seq::new(ids.len(), |i: int| ids[i]@)
}

fn lists_id(ids: &Vec<WorkspaceId>, id: &WorkspaceId) -> (r: bool)
    ensures
        r == id_views(ids@).contains(id@),
{
    let mut i: usize = 0;
    while i < ids.len()
        invariant
            i <= ids.len(),
            forall|j: int| 0 <= j < i ==> ids@[j]@ != id@,
        decreases ids.len() - i,
    {
        if same_id(&ids[i], id) {
            assert(id_views(ids@)[i as int] == id@);
            return true;
        }
        i += 1;
    }
    assert forall|j: int| 0 <= j < id_views(ids@).len() implies id_views(ids@)[j] != id@ by {}
    false
}

/// Returns the workspaces whose layout is to be refreshed.
pub fn refresh_event_workspaces(events: &Vec<ClientWorkspaceEvent>) -> (r: Vec<WorkspaceId>)
    ensures
        id_views(r@) == changed_workspaces(events@),
{
    let mut out: Vec<WorkspaceId> = Vec::new();
    let mut i: usize = 0;
    assert(id_views(out@) =~= Seq::<WorkspaceIdView>::empty());
    while i < events.len()
        invariant
            i <= events.len(),
            id_views(out@) == changed_workspaces(events@.take(i as int)),
        decreases events.len() - i,
    {
        let event = &events[i];
        let ghost before = id_views(out@);
        assert(events@.take(i + 1).drop_last() =~= events@.take(i as int));
        assert(events@.take(i + 1).last() == *event);
        if event.event.is_topology() {
            if let Some(id) = parse_workspace_id(event.workspace_id.as_str()) {
                if !lists_id(&out, &id) {
                    out.push(id);
                    assert(id_views(out@) =~= before.push(id@));
                }
            }
        }
        i += 1;
    }
    assert(events@.take(i as int) =~= events@);
    out
}

/// The first identity among the keys of the views.
pub open spec fn first_identity(views: Seq<WorkspaceView>) -> Option<WorkspaceIdView>
    decreases views.len(),
{
    if views.len() == 0 {
        None
    } else {
        match parsed_id(views[0].key@) {
            Some(id) => Some(id),
            None => first_identity(views.drop_first()),
        }
    }
}

/// The workspace to show in place of one that is gone: the core's active one,
/// else the first that has an identity.
pub open spec fn replacement(store: ViewStore, visible: Seq<char>) -> Option<WorkspaceIdView> {
    if view_of(store.views@, visible) is Some {
        None
    } else {
        let active = match store.active_workspace_id {
            Some(id) => parsed_id(id@),
            None => None,
        };
        match active {
            Some(id) => Some(id),
            None => first_identity(store.views@),
        }
    }
}

/// Returns the workspace to show where the shown one is gone.
pub fn repair_visible_workspace(store: &ViewStore, visible: &str) -> (r: Option<WorkspaceId>)
    ensures
        id_view(r) == replacement(*store, visible@),
{
    if workspace(&store.views, visible).is_some() {
        return None;
    }
    if let Some(active) = &store.active_workspace_id {
        if let Some(id) = parse_workspace_id(active.as_str()) {
            return Some(id);
        }
    }
    let ghost all = store.views@;
    let mut i: usize = 0;
    assert(all.skip(0) =~= all);
    while i < store.views.len()
        invariant
            i <= store.views.len(),
            all == store.views@,
            replacement(*store, visible@) == first_identity(all),
            first_identity(all) == first_identity(all.skip(i as int)),
        decreases store.views.len() - i,
    {
        assert(all.skip(i as int).drop_first() =~= all.skip(i + 1));
        if let Some(id) = parse_workspace_id(store.views[i].key.as_str()) {
            return Some(id);
        }
        i += 1;
    }
    None
}

/// The pane that an event brings to the user's eyes: the pane that became
/// active, or the active pane when something came of it.
pub open spec fn seen_pane(
    event: ClientWorkspaceEvent,
    shown: Seq<char>,
    active_pane: u32,
) -> Option<u32> {
    let t = event.event.type_;
    let pane = event.event.pane_id;
    if event.workspace_id@ != shown {
        None
    } else if t == STATE_ACTIVE_PANE_CHANGED {
        Some(pane)
    } else if (t == STATE_PANE_OUTPUT || t == STATE_PANE_FRAME || t == STATE_PANE_SNAPSHOT || t
        == STATE_PANE_HISTORY || t == STATE_PANE_AGENT_CHANGED || t == STATE_STATUS_SUBSCRIPTION)
        && pane == active_pane {
        Some(pane)
    } else {
        None
    }
}

/// The panes that a series of events brings to the user's eyes.
pub open spec fn seen_panes(
    events: Seq<ClientWorkspaceEvent>,
    shown: Seq<char>,
    active_pane: u32,
) -> Seq<u32>
    decreases events.len(),
{
    if events.len() == 0 {
        Seq::<u32>::empty()
    } else {
        let rest = seen_panes(events.drop_last(), shown, active_pane);
        match seen_pane(events.last(), shown, active_pane) {
            Some(p) => rest.push(p),
            None => rest,
        }
    }
}

/// Returns the panes of the shown workspace that are to be marked as seen.
pub fn apply_attention_visibility_events(
    events: &Vec<ClientWorkspaceEvent>,
    shown: &str,
    active_pane: u32,
) -> (r: Vec<u32>)
    ensures
        r@ == seen_panes(events@, shown@, active_pane),
{
    let mut out: Vec<u32> = Vec::new();
    let mut i: usize = 0;
    while i < events.len()
        invariant
            i <= events.len(),
            out@ == seen_panes(events@.take(i as int), shown@, active_pane),
        decreases events.len() - i,
    {
        let event = &events[i];
        assert(events@.take(i + 1).drop_last() =~= events@.take(i as int));
        assert(events@.take(i + 1).last() == *event);
        if same(event.workspace_id.as_str(), shown) {
            let t: u32 = event.event.type_;
            let pane: u32 = event.event.pane_id;
            if t == STATE_ACTIVE_PANE_CHANGED {
                out.push(pane);
            } else if (t == STATE_PANE_OUTPUT || t == STATE_PANE_FRAME || t == STATE_PANE_SNAPSHOT
                || t == STATE_PANE_HISTORY || t == STATE_PANE_AGENT_CHANGED || t
                == STATE_STATUS_SUBSCRIPTION) && pane == active_pane {
                out.push(pane);
            }
        }
        i += 1;
    }
    assert(events@.take(i as int) =~= events@);
    out
}

// ---------------------------------------------------------------------------
// Grid sizes and replies.
// ---------------------------------------------------------------------------

/// The size of a pane of the shown tab, where both are known.
pub open spec fn grid_size(
    views: Seq<WorkspaceView>,
    key: Seq<char>,
    tab: u32,
    pane: u32,
) -> Option<(u16, u16)> {
    match view_of(views, key) {
        Some(v) => match find(panes_of(v.panes@, tab), pane_is(pane)) {
            Some(p) => Some((p.cols, p.rows)),
            None => None,
        },
        None => None,
    }
}

/// Returns the size of a pane of the shown tab.
pub fn sync_pane_grid_size(views: &Vec<WorkspaceView>, key: &str, tab: u32, pane: u32) -> (r:
    Option<(u16, u16)>)
    ensures
        r == grid_size(views@, key@, tab, pane),
{
    match workspace(views, key) {
        Some(v) => {
            let panes = tab_panes(&v.panes, tab);
            match find_pane(&panes, pane) {
                Some(i) => Some((panes[i].cols, panes[i].rows)),
                None => None,
            }
        },
        None => None,
    }
}

/// The size of a pane in any tab; 80 columns and 24 rows where it is unknown.
pub open spec fn any_grid_size(views: Seq<WorkspaceView>, key: Seq<char>, pane: u32) -> (
    u16,
    u16,
) {
    match view_of(views, key) {
        Some(v) => match find(all_panes(v.panes@), pane_is(pane)) {
            Some(p) => (p.cols, p.rows),
            None => (80, 24),
        },
        None => (80, 24),
    }
}

/// Returns the size of a pane in any tab of a workspace.
pub fn sync_pane_grid_size_for(views: &Vec<WorkspaceView>, key: &str, pane: u32) -> (r: (
    u16,
    u16,
))
    ensures
        r == any_grid_size(views@, key@, pane),
{
    match workspace(views, key) {
        Some(v) => {
            let panes = flat_panes(&v.panes);
            match find_pane(&panes, pane) {
                Some(i) => (panes[i].cols, panes[i].rows),
                None => (80, 24),
            }
        },
        None => (80, 24),
    }
}

/// What is asked of the core for the answers of the parser of a pane.
pub open spec fn replies_call(shared_client: bool, workspace: Seq<char>, pane: u32) -> Option<
    CCallView,
> {
    if shared_client {
        None
    } else {
        Some(
            CCallView {
                function: CFunction::TakePaneReply,
                args: seq![text_arg(workspace), CArgView::Number(pane as u64)],
            },
        )
    }
}

/// Returns the call that takes the answers of the parser of a pane. They are
/// not even taken where the runtime shares the size of its client.
pub fn take_parser_replies(shared_client: bool, workspace_id: &str, pane_id: u32) -> (r: Option<
    CCall,
>)
    ensures
        call_view(r) == replies_call(shared_client, workspace_id@, pane_id),
{
    if shared_client {
        None
    } else {
        Some(FfiClient::take_workspace_pane_reply(workspace_id, pane_id))
    }
}

/// Returns the call that tells the core that the pane in front is seen;
/// nothing is told where no workspace is in front.
pub fn mark_active_attention_visible(workspace_id: &str, active_pane: u32) -> (r: Option<CCall>)
    ensures
        call_view(r) == if workspace_id@.len() == 0 {
            None
        } else {
            Some(
                CCallView {
                    function: CFunction::AttentionVisible,
                    args: seq![text_arg(workspace_id@), CArgView::Number(active_pane as u64)],
                },
            )
        },
{
    if workspace_id.is_empty() {
        None
    } else {
        Some(FfiClient::workspace_attention_on_became_visible(workspace_id, active_pane))
    }
}

/// The view of a call, where there is one.
pub open spec fn call_view(call: Option<CCall>) -> Option<CCallView> {
    match call {
        Some(call) => Some(call@),
        None => None,
    }
}

/// Queues what the parser of a pane answered to its program, unless the
/// runtime shares the size of its client: then the far end answers itself.
pub fn forward_parser_replies_for_key(
    queue: &mut CommandQueue,
    shared_client: bool,
    workspace_id: &str,
    pane_id: u32,
    replies: Vec<u8>,
)
    ensures
        if shared_client || replies@.len() == 0 {
            final(queue)@ == old(queue)@
        } else {
            &&& final(queue)@.len() == old(queue)@.len() + 1
            &&& final(queue)@.drop_last() == old(queue)@
            &&& final(queue)@.last() matches ClientCommand::Input {
                workspace_id: Some(w),
                pane_id: p,
                data,
                quiet,
            } && w@ == workspace_id@ && p == pane_id && data@ == replies@ && !quiet
        },
{
    if shared_client || replies.len() == 0 {
        return ;
    }
    enqueue_workspace_input(queue, workspace_id, pane_id, replies, false);
}

/// Queues input for a pane of a workspace.
pub fn enqueue_workspace_input(
    queue: &mut CommandQueue,
    workspace_id: &str,
    pane_id: u32,
    data: Vec<u8>,
    quiet: bool,
)
    ensures
        final(queue)@.len() == old(queue)@.len() + 1,
        final(queue)@.drop_last() == old(queue)@,
        final(queue)@.last() matches ClientCommand::Input {
            workspace_id: Some(w),
            pane_id: p,
            data: d,
            quiet: q,
        } && w@ == workspace_id@ && p == pane_id && d@ == data@ && q == quiet,
{
    queue.push(
        ClientCommand::Input { workspace_id: Some(workspace_id.to_owned()), pane_id, data, quiet },
    );
    assert(queue@.drop_last() =~= old(queue)@);
}

/// Queues a new size for a workspace or for one of its panes. It takes the
/// place of a size for the same thing at the end of the queue.
pub fn enqueue_workspace_resize(
    queue: &mut CommandQueue,
    workspace_id: &str,
    pane_id: Option<u32>,
    cols: u16,
    rows: u16,
)
    ensures
        exists|command: ClientCommand|
            (command matches ClientCommand::Resize {
                workspace_id: Some(w),
                pane_id: p,
                cols: c,
                rows: r,
            } && w@ == workspace_id@ && p == pane_id && c == cols && r == rows)
                && final(queue)@ == #[trigger] pushed(old(queue)@, command),
{
    let command = ClientCommand::Resize {
        workspace_id: Some(workspace_id.to_owned()),
        pane_id,
        cols,
        rows,
    };
    queue.push(command);
}

// ---------------------------------------------------------------------------
// Laws.
// ---------------------------------------------------------------------------

pub proof fn lemma_flat_contains<T>(lists: Seq<Seq<T>>, i: int, k: int) -> (n: int)
    requires
        0 <= i < lists.len(),
        0 <= k < lists[i].len(),
    ensures
        0 <= n < flat(lists).len(),
        flat(lists)[n] == lists[i][k],
    decreases lists.len(),
{
    if i == lists.len() - 1 {
        flat(lists.drop_last()).len() + k
    } else {
        assert(lists.drop_last()[i] == lists[i]);
        lemma_flat_contains(lists.drop_last(), i, k)
    }
}

pub proof fn lemma_flat_origin<T>(lists: Seq<Seq<T>>, n: int) -> (r: (int, int))
    requires
        0 <= n < flat(lists).len(),
    ensures
        0 <= r.0 < lists.len(),
        0 <= r.1 < lists[r.0].len(),
        flat(lists)[n] == lists[r.0][r.1],
    decreases lists.len(),
{
    let init = flat(lists.drop_last());
    if n < init.len() {
        let r = lemma_flat_origin(lists.drop_last(), n);
        assert(lists.drop_last()[r.0] == lists[r.0]);
        r
    } else {
        (lists.len() - 1, n - init.len())
    }
}

/// Shown panes are live, and no pane is paused but a hidden one over SSH.
pub proof fn law_only_hidden_ssh_panes_pause(views: Seq<WorkspaceView>, visible: Seq<char>, n: int)
    requires
        0 <= n < targets_of(views, visible).len(),
    ensures
        ({
            let t = targets_of(views, visible)[n];
            &&& t.workspace_id == visible <==> t.policy == PaneRenderPolicy::Live
            &&& t.policy == PaneRenderPolicy::Pause ==> exists|i: int|
                0 <= i < views.len() && (#[trigger] views[i]).key@ == t.workspace_id
                    && transport_of(views[i]) == Some("ssh"@)
        }),
{
    let lists = views.map_values(|v: WorkspaceView| view_targets(v, visible));
    let (i, k) = lemma_flat_origin(lists, n);
    assert(lists[i] == view_targets(views[i], visible));
    assert(views[i].key@ == targets_of(views, visible)[n].workspace_id);
}

/// Every pane has a policy.
pub proof fn law_every_pane_has_a_policy(
    views: Seq<WorkspaceView>,
    visible: Seq<char>,
    i: int,
    k: int,
)
    requires
        0 <= i < views.len(),
        0 <= k < all_panes(views[i].panes@).len(),
    ensures
        targets_of(views, visible).contains(
            (RenderTargetView {
                workspace_id: views[i].key@,
                pane_id: all_panes(views[i].panes@)[k].id,
                policy: view_policy(views[i], visible),
            }),
        ),
{
    let lists = views.map_values(|v: WorkspaceView| view_targets(v, visible));
    assert(lists[i] == view_targets(views[i], visible));
    let n = lemma_flat_contains(lists, i, k);
    assert(targets_of(views, visible)[n] == lists[i][k]);
}

/// A workspace whose topology changed is refreshed once.
pub proof fn law_changed_workspace_is_refreshed_once(events: Seq<ClientWorkspaceEvent>)
    ensures
        changed_workspaces(events).no_duplicates(),
        forall|i: int|
            0 <= i < events.len() && topology_event((#[trigger] events[i]).event.type_)
                && parsed_id(events[i].workspace_id@) is Some ==> changed_workspaces(
                events,
            ).contains(parsed_id(events[i].workspace_id@)->0),
    decreases events.len(),
{
    if events.len() > 0 {
        let init = events.drop_last();
        let rest = changed_workspaces(init);
        let all = changed_workspaces(events);
        law_changed_workspace_is_refreshed_once(init);
        assert forall|i: int|
            0 <= i < events.len() && topology_event((#[trigger] events[i]).event.type_)
                && parsed_id(events[i].workspace_id@) is Some implies all.contains(
            parsed_id(events[i].workspace_id@)->0,
        ) by {
            let id = parsed_id(events[i].workspace_id@)->0;
            if i < init.len() {
                assert(init[i] == events[i]);
                assert(rest.contains(id));
                let k = choose|k: int| 0 <= k < rest.len() && rest[k] == id;
                assert(all[k] == id);
            } else if !rest.contains(id) {
                assert(all.last() == id);
            }
        }
    }
}

} // verus!
