//! Which tab of a workspace is shown, and what a layout refresh puts on the
//! screen.
use vstd::prelude::*;

use crate::client::abi::STATE_ACTIVE_TAB_CHANGED;
use crate::client::snapshot::{
    active_tab, active_tab_id, layout_of, panes_of, tab_active, tab_layout, tab_panes,
};
use crate::client::types::{ClientLayout, ClientPane, ClientTab, ClientWorkspaceEvent};
use crate::linux::overlay::OverlayLayer;
use crate::linux::panel_rows::PanelTab;
use crate::linux::workspace_sidebar_model::WorkspaceView;
use crate::seqs::{find, lemma_find, lemma_first_where, lemma_no_first, lists_number};
use crate::text::same;
use crate::text_map::{value_of, TextMap};

verus! {

/// The tab that is shown of each workspace, and the workspaces whose tab the
/// user chose here: the core's own active tab does not move those.
#[derive(Debug)]
pub struct VisibleTabs {
    pub tabs: TextMap<u32>,
    pub overrides: TextMap<bool>,
}

// ---------------------------------------------------------------------------
// Looking up views.
// ---------------------------------------------------------------------------

/// The view has the given key.
pub open spec fn view_is(key: Seq<char>) -> spec_fn(WorkspaceView) -> bool {
    |v: WorkspaceView| v.key@ == key
}

/// The view with the given key.
pub open spec fn view_of(views: Seq<WorkspaceView>, key: Seq<char>) -> Option<WorkspaceView> {
    find(views, view_is(key))
}

/// Returns the view with the given key.
pub fn workspace<'a>(views: &'a Vec<WorkspaceView>, key: &str) -> (r: Option<&'a WorkspaceView>)
    ensures
        match r {
            Some(v) => view_of(views@, key@) == Some(*v),
            None => view_of(views@, key@) is None,
        },
{
    let mut i: usize = 0;
    while i < views.len()
        invariant
            i <= views.len(),
            forall|j: int| 0 <= j < i ==> !view_is(key@)(#[trigger] views@[j]),
        decreases views.len() - i,
    {
        if same(views[i].key.as_str(), key) {
            proof {
                lemma_first_where(views@, view_is(key@), i as int);
            }
            return Some(&views[i]);
        }
        i += 1;
    }
    proof {
        lemma_no_first(views@, view_is(key@));
    }
    None
}

// ---------------------------------------------------------------------------
// Following the core's active tab.
// ---------------------------------------------------------------------------

/// The core reported another active tab for a workspace.
pub open spec fn tab_reported(events: Seq<ClientWorkspaceEvent>, key: Seq<char>) -> bool {
    exists|i: int|
        0 <= i < events.len() && (#[trigger] events[i]).event.type_ == STATE_ACTIVE_TAB_CHANGED
            && events[i].workspace_id@ == key
}

/// The active tab of a workspace, where it is known.
pub open spec fn core_tab(views: Seq<WorkspaceView>, key: Seq<char>) -> Option<u32> {
    match view_of(views, key) {
        Some(v) => active_tab(v.tabs@),
        None => None,
    }
}

/// The shown tab of a workspace after the events: the core's active tab
/// where the core reported one and the user has not chosen otherwise.
pub open spec fn followed(
    tabs: Map<Seq<char>, u32>,
    overrides: Map<Seq<char>, bool>,
    views: Seq<WorkspaceView>,
    events: Seq<ClientWorkspaceEvent>,
    key: Seq<char>,
) -> Option<u32> {
    if tab_reported(events, key) && !overrides.dom().contains(key) {
        core_tab(views, key)
    } else {
        value_of(tabs, key)
    }
}

/// Moves the shown tabs along with what the core reported.
pub fn follow_active_tabs(
    visible: &mut VisibleTabs,
    views: &Vec<WorkspaceView>,
    events: &Vec<ClientWorkspaceEvent>,
)
    ensures
        final(visible).overrides@ == old(visible).overrides@,
        forall|key: Seq<char>| #[trigger]
            value_of(final(visible).tabs@, key) == followed(
                old(visible).tabs@,
                old(visible).overrides@,
                views@,
                events@,
                key,
            ),
{
    let ghost tabs = visible.tabs@;
    let ghost overrides = visible.overrides@;
    let mut i: usize = 0;
    while i < events.len()
        invariant
            i <= events.len(),
            tabs == old(visible).tabs@,
            overrides == old(visible).overrides@,
            visible.overrides@ == overrides,
            forall|key: Seq<char>| #[trigger]
                value_of(visible.tabs@, key) == followed(
                    tabs,
                    overrides,
                    views@,
                    events@.take(i as int),
                    key,
                ),
        decreases events.len() - i,
    {
        let event = &events[i];
        let ghost before = visible.tabs@;
        let ghost seen = events@.take(i as int);
        let ghost next = events@.take(i + 1);
        let ghost hit = event.event.type_ == STATE_ACTIVE_TAB_CHANGED;
        assert forall|key: Seq<char>| #[trigger]
            tab_reported(next, key) == (tab_reported(seen, key) || (hit && event.workspace_id@
                == key)) by {
            if tab_reported(seen, key) {
                let j = choose|j: int|
                    0 <= j < seen.len() && (#[trigger] seen[j]).event.type_
                        == STATE_ACTIVE_TAB_CHANGED && seen[j].workspace_id@ == key;
                assert(next[j] == seen[j]);
            }
            if hit && event.workspace_id@ == key {
                assert(next[i as int] == *event);
            }
            if tab_reported(next, key) {
                let j = choose|j: int|
                    0 <= j < next.len() && (#[trigger] next[j]).event.type_
                        == STATE_ACTIVE_TAB_CHANGED && next[j].workspace_id@ == key;
                if j < i {
                    assert(seen[j] == next[j]);
                }
            }
        }
        if event.event.type_ == STATE_ACTIVE_TAB_CHANGED {
            let key = event.workspace_id.as_str();
            if visible.overrides.get(key).is_none() {
                let active = match workspace(views, key) {
                    Some(view) => active_tab_id(&view.tabs),
                    None => None,
                };
                match active {
                    Some(tab) => visible.tabs.insert(key, tab),
                    None => visible.tabs.remove(key),
                }
            }
        }
        assert forall|key: Seq<char>| #[trigger]
            value_of(visible.tabs@, key) == followed(tabs, overrides, views@, next, key) by {
            assert(value_of(before, key) == followed(tabs, overrides, views@, seen, key));
            assert(tab_reported(next, key) == (tab_reported(seen, key) || (hit
                && event.workspace_id@ == key)));
        }
        i += 1;
    }
    assert(events@.take(i as int) =~= events@);
}

// ---------------------------------------------------------------------------
// A layout refresh.
// ---------------------------------------------------------------------------

/// What a refresh shows: the tab, the layout of every tab, and the number,
/// columns, rows and activity of the panes of the shown tab.
#[derive(Debug)]
pub struct LayoutPlan {
    pub active_tab: Option<u32>,
    pub layouts: Vec<(u32, ClientLayout)>,
    pub panes: Vec<(u32, u16, u16, bool)>,
}

/// The tab exists.
pub open spec fn lists_tab(tabs: Seq<ClientTab>, id: u32) -> bool {
    exists|i: int| 0 <= i < tabs.len() && (#[trigger] tabs[i]).id == id
}

fn has_tab(tabs: &Vec<ClientTab>, id: u32) -> (r: bool)
    ensures
        r == lists_tab(tabs@, id),
{
    let mut i: usize = 0;
    while i < tabs.len()
        invariant
            i <= tabs.len(),
            forall|j: int| 0 <= j < i ==> (#[trigger] tabs@[j]).id != id,
        decreases tabs.len() - i,
    {
        if tabs[i].id == id {
            return true;
        }
        i += 1;
    }
    false
}

/// The stored tab of a workspace, unless it is gone.
pub open spec fn stored_tab(tabs: Map<Seq<char>, u32>, view: WorkspaceView) -> Option<u32> {
    match value_of(tabs, view.key@) {
        Some(t) => if lists_tab(view.tabs@, t) {
            Some(t)
        } else {
            None
        },
        None => None,
    }
}

/// The tab to show: the stored one, else the core's active one, else the
/// first.
pub open spec fn shown_tab(tabs: Map<Seq<char>, u32>, view: WorkspaceView) -> Option<u32> {
    match stored_tab(tabs, view) {
        Some(t) => Some(t),
        None => match active_tab(view.tabs@) {
            Some(t) => Some(t),
            None => if view.tabs@.len() > 0 {
                Some(view.tabs@[0].id)
            } else {
                None
            },
        },
    }
}

/// The layout of a tab: the reported one, else its first pane alone.
pub open spec fn plan_layout(view: WorkspaceView, tab: u32) -> Option<ClientLayout> {
    match layout_of(view.layouts@, tab) {
        Some(layout) => Some(layout),
        None => {
            let panes = panes_of(view.panes@, tab);
            if panes.len() > 0 {
                Some(ClientLayout::Leaf { pane_id: panes[0].id })
            } else {
                None
            }
        },
    }
}

/// The layouts of the first tabs of a view.
pub open spec fn plan_layouts(view: WorkspaceView, n: int) -> Seq<(u32, ClientLayout)>
    decreases n,
{
    if n <= 0 {
        Seq::<(u32, ClientLayout)>::empty()
    } else {
        let tab = view.tabs@[n - 1].id;
        let rest = plan_layouts(view, n - 1);
        match plan_layout(view, tab) {
            Some(layout) => rest.push((tab, layout)),
            None => rest,
        }
    }
}

/// What is shown of one pane.
pub open spec fn pane_cell(pane: ClientPane) -> (u32, u16, u16, bool) {
    (pane.id, pane.cols, pane.rows, pane.is_active)
}

/// What is shown of the panes of the shown tab.
pub open spec fn plan_panes(view: WorkspaceView, tab: Option<u32>) -> Seq<(u32, u16, u16, bool)> {
    match tab {
        Some(t) => panes_of(view.panes@, t).map_values(|p: ClientPane| pane_cell(p)),
        None => Seq::<(u32, u16, u16, bool)>::empty(),
    }
}

fn layout_for(view: &WorkspaceView, tab: u32) -> (r: Option<ClientLayout>)
    ensures
        r == plan_layout(*view, tab),
{
    match tab_layout(&view.layouts, tab) {
        Some(layout) => Some(layout),
        None => {
            let panes = tab_panes(&view.panes, tab);
            if panes.len() > 0 {
                Some(ClientLayout::Leaf { pane_id: panes[0].id })
            } else {
                None
            }
        },
    }
}

/// Plans the layout of a workspace. A stored tab that is gone is forgotten,
/// together with the user's choice; for the workspace in front the shown tab
/// is stored.
pub fn refresh_workspace_layout(
    visible: &mut VisibleTabs,
    view: &WorkspaceView,
    in_front: bool,
) -> (r: LayoutPlan)
    ensures
        r.active_tab == shown_tab(old(visible).tabs@, *view),
        r.layouts@ == plan_layouts(*view, view.tabs@.len() as int),
        r.panes@ == plan_panes(*view, r.active_tab),
        ({
            let stale = value_of(old(visible).tabs@, view.key@) is Some && stored_tab(
                old(visible).tabs@,
                *view,
            ) is None;
            let kept = if stale {
                old(visible).tabs@.remove(view.key@)
            } else {
                old(visible).tabs@
            };
            &&& final(visible).overrides@ == if stale {
                old(visible).overrides@.remove(view.key@)
            } else {
                old(visible).overrides@
            }
            &&& final(visible).tabs@ == if in_front && r.active_tab is Some {
                kept.insert(view.key@, r.active_tab->0)
            } else {
                kept
            }
        }),
{
    let key = view.key.as_str();
    let stored = visible.tabs.get(key);
    let mut active: Option<u32> = None;
    if let Some(tab) = stored {
        if has_tab(&view.tabs, tab) {
            active = Some(tab);
        } else {
            visible.tabs.remove(key);
            visible.overrides.remove(key);
        }
    }
    if active.is_none() {
        active = active_tab_id(&view.tabs);
    }
    if active.is_none() && view.tabs.len() > 0 {
        active = Some(view.tabs[0].id);
    }
    let mut layouts: Vec<(u32, ClientLayout)> = Vec::new();
    let mut i: usize = 0;
    while i < view.tabs.len()
        invariant
            i <= view.tabs.len(),
            layouts@ == plan_layouts(*view, i as int),
        decreases view.tabs.len() - i,
    {
        let tab: u32 = view.tabs[i].id;
        if let Some(layout) = layout_for(view, tab) {
            layouts.push((tab, layout));
        }
        i += 1;
    }
    let mut panes: Vec<(u32, u16, u16, bool)> = Vec::new();
    if let Some(tab) = active {
        let listed = tab_panes(&view.panes, tab);
        let mut k: usize = 0;
        let ghost wanted = plan_panes(*view, active);
        while k < listed.len()
            invariant
                k <= listed.len(),
                listed@ == panes_of(view.panes@, tab),
                wanted == plan_panes(*view, Some(tab)),
                panes@ == wanted.take(k as int),
            decreases listed.len() - k,
        {
            let p = &listed[k];
            panes.push((p.id, p.cols, p.rows, p.is_active));
            assert(wanted.take(k + 1) =~= wanted.take(k as int).push(wanted[k as int]));
            k += 1;
        }
        assert(wanted.take(wanted.len() as int) =~= wanted);
    }
    if in_front {
        if let Some(tab) = active {
            visible.tabs.insert(key, tab);
        }
    }
    LayoutPlan { active_tab: active, layouts, panes }
}

/// The last active pane among those that have a surface.
pub open spec fn focus_of(panes: Seq<(u32, u16, u16, bool)>, resident: Seq<u32>) -> Option<u32>
    decreases panes.len(),
{
    if panes.len() == 0 {
        None
    } else if panes.last().3 && resident.contains(panes.last().0) {
        Some(panes.last().0)
    } else {
        focus_of(panes.drop_last(), resident)
    }
}

/// Returns the pane that gets the focus after a refresh.
pub fn focused_pane(panes: &Vec<(u32, u16, u16, bool)>, resident: &Vec<u32>) -> (r: Option<u32>)
    ensures
        r == focus_of(panes@, resident@),
{
    let mut n: usize = panes.len();
    assert(panes@.take(n as int) =~= panes@);
    while n > 0
        invariant
            n <= panes.len(),
            focus_of(panes@, resident@) == focus_of(panes@.take(n as int), resident@),
        decreases n,
    {
        assert(panes@.take(n as int).drop_last() =~= panes@.take(n - 1));
        assert(panes@.take(n as int).last() == panes@[n - 1]);
        let p = &panes[n - 1];
        if p.3 && lists_number(resident, p.0) {
            return Some(p.0);
        }
        n -= 1;
    }
    None
}

/// Tells whether the pane that a refresh leads to gets the keyboard: only in
/// the workspace in front, and only while nothing above the terminal takes
/// input.
pub fn grabs_focus(in_front: bool, panel_open: &Option<PanelTab>, overlay: &OverlayLayer) -> (r:
    bool)
    ensures
        r == (in_front && *panel_open is None && !overlay@.pane_find),
{
    in_front && panel_open.is_none() && !overlay.pane_find
}

/// The pane in front after a refresh of a workspace: the one it leads to, where
/// the workspace is the one in front and has one, else the one of before.
pub fn pane_in_front(before: u32, in_front: bool, focused: Option<u32>) -> (r: u32)
    ensures
        r == match focused {
            Some(pane) => if in_front {
                pane
            } else {
                before
            },
            None => before,
        },
{
    match focused {
        Some(pane) => {
            if in_front {
                pane
            } else {
                before
            }
        },
        None => before,
    }
}

// ---------------------------------------------------------------------------
// Laws.
// ---------------------------------------------------------------------------

/// A tab that the user chose stays shown whatever the core reports, as long
/// as it exists.
pub proof fn law_chosen_tab_is_not_moved(
    tabs: Map<Seq<char>, u32>,
    overrides: Map<Seq<char>, bool>,
    views: Seq<WorkspaceView>,
    events: Seq<ClientWorkspaceEvent>,
    view: WorkspaceView,
    after: Map<Seq<char>, u32>,
)
    requires
        overrides.dom().contains(view.key@),
        tabs.dom().contains(view.key@),
        lists_tab(view.tabs@, tabs[view.key@]),
        value_of(after, view.key@) == followed(tabs, overrides, views, events, view.key@),
    ensures
        shown_tab(after, view) == Some(tabs[view.key@]),
{
}

/// A workspace with a tab always shows a tab, and one that exists.
pub proof fn law_shown_tab_exists(tabs: Map<Seq<char>, u32>, view: WorkspaceView)
    requires
        view.tabs@.len() > 0,
    ensures
        shown_tab(tabs, view) matches Some(t) && lists_tab(view.tabs@, t),
{
    lemma_find(view.tabs@, tab_active());
    assert(lists_tab(view.tabs@, view.tabs@[0].id));
    if let Some(t) = find(view.tabs@, tab_active()) {
        let i = choose|i: int| 0 <= i < view.tabs@.len() && view.tabs@[i] == t;
        assert(lists_tab(view.tabs@, view.tabs@[i].id));
    }
}

} // verus!
