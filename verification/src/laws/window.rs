//! The window: what a key or a command does, and which tab and which panes are
//! shown.
use vstd::prelude::*;

use crate::client::snapshot::{active_pane, active_tab, layout_of, panes_of};
use crate::client::types::{ClientLayout, ClientPane, ClientTask, ClientWorkspaceEvent};
use crate::linux::window_actions::{
    action_plan, keyboard_pane, moves_tab, palette_plan, switch_origin, Action, PaletteAction,
    PaletteContext, Step,
};
use crate::linux::window_layout::{
    focus_of, followed, plan_layout, plan_layouts, plan_panes, shown_tab, view_of,
};
use crate::linux::workspace_sidebar_model::WorkspaceView;
use crate::seqs::{lemma_first_where, lemma_no_first};
use crate::text_map::value_of;

verus! {

/// Each key that is bound does one thing, with the pane in front where it is
/// about a pane.
pub proof fn law_each_key_does_one_thing(pane: u32, last: Option<u32>, tab: u32)
    ensures
        action_plan(Action::SwitchTab1, pane, last).step == Step::SwitchTabNumber(1)
            && action_plan(Action::SwitchTab1, pane, last).refresh,
        action_plan(Action::SwitchTab2, pane, last).step == Step::SwitchTabNumber(2)
            && action_plan(Action::SwitchTab2, pane, last).refresh,
        action_plan(Action::SwitchTab3, pane, last).step == Step::SwitchTabNumber(3)
            && action_plan(Action::SwitchTab3, pane, last).refresh,
        action_plan(Action::SwitchTab4, pane, last).step == Step::SwitchTabNumber(4)
            && action_plan(Action::SwitchTab4, pane, last).refresh,
        action_plan(Action::SwitchTab5, pane, last).step == Step::SwitchTabNumber(5)
            && action_plan(Action::SwitchTab5, pane, last).refresh,
        action_plan(Action::SwitchTab6, pane, last).step == Step::SwitchTabNumber(6)
            && action_plan(Action::SwitchTab6, pane, last).refresh,
        action_plan(Action::SwitchTab7, pane, last).step == Step::SwitchTabNumber(7)
            && action_plan(Action::SwitchTab7, pane, last).refresh,
        action_plan(Action::SwitchTab8, pane, last).step == Step::SwitchTabNumber(8)
            && action_plan(Action::SwitchTab8, pane, last).refresh,
        action_plan(Action::SwitchTab9, pane, last).step == Step::SwitchTabNumber(9)
            && action_plan(Action::SwitchTab9, pane, last).refresh,
        action_plan(Action::SwitchWorkspace1, pane, last).step == Step::SwitchWorkspaceNumber(1)
            && action_plan(Action::SwitchWorkspace1, pane, last).refresh,
        action_plan(Action::SwitchWorkspace2, pane, last).step == Step::SwitchWorkspaceNumber(2)
            && action_plan(Action::SwitchWorkspace2, pane, last).refresh,
        action_plan(Action::SwitchWorkspace3, pane, last).step == Step::SwitchWorkspaceNumber(3)
            && action_plan(Action::SwitchWorkspace3, pane, last).refresh,
        action_plan(Action::SwitchWorkspace4, pane, last).step == Step::SwitchWorkspaceNumber(4)
            && action_plan(Action::SwitchWorkspace4, pane, last).refresh,
        action_plan(Action::SwitchWorkspace5, pane, last).step == Step::SwitchWorkspaceNumber(5)
            && action_plan(Action::SwitchWorkspace5, pane, last).refresh,
        action_plan(Action::SwitchWorkspace6, pane, last).step == Step::SwitchWorkspaceNumber(6)
            && action_plan(Action::SwitchWorkspace6, pane, last).refresh,
        action_plan(Action::SwitchWorkspace7, pane, last).step == Step::SwitchWorkspaceNumber(7)
            && action_plan(Action::SwitchWorkspace7, pane, last).refresh,
        action_plan(Action::SwitchWorkspace8, pane, last).step == Step::SwitchWorkspaceNumber(8)
            && action_plan(Action::SwitchWorkspace8, pane, last).refresh,
        action_plan(Action::SwitchWorkspace9, pane, last).step == Step::SwitchWorkspaceNumber(9)
            && action_plan(Action::SwitchWorkspace9, pane, last).refresh,
        action_plan(Action::SwitchWorkspaceLast, pane, last).step
            == Step::SwitchWorkspaceNumber(0)
                && action_plan(Action::SwitchWorkspaceLast, pane, last).refresh,
        action_plan(Action::NewTab, pane, last).step == Step::NewTab
            && !action_plan(Action::NewTab, pane, last).refresh,
        action_plan(Action::NewWindow, pane, last).step == Step::NewTab
            && !action_plan(Action::NewWindow, pane, last).refresh,
        action_plan(Action::NewPane, pane, last).step
            == Step::Task(ClientTask::SplitPane { pane_id: pane, horizontal: true })
                && !action_plan(Action::NewPane, pane, last).refresh,
        action_plan(Action::NewPaneVertical, pane, last).step
            == Step::Task(ClientTask::SplitPane { pane_id: pane, horizontal: false })
                && !action_plan(Action::NewPaneVertical, pane, last).refresh,
        action_plan(Action::SwitchPaneNext, pane, last).step
            == (Step::SwitchPane { forward: true })
                && action_plan(Action::SwitchPaneNext, pane, last).refresh,
        action_plan(Action::SwitchPanePrev, pane, last).step
            == (Step::SwitchPane { forward: false })
                && action_plan(Action::SwitchPanePrev, pane, last).refresh,
        action_plan(Action::CommandPalette, pane, last).step == Step::OpenPalette
            && !action_plan(Action::CommandPalette, pane, last).refresh,
        action_plan(Action::QuickConnect, pane, last).step == Step::Nothing
            && !action_plan(Action::QuickConnect, pane, last).refresh,
        action_plan(Action::Search, pane, last).step == Step::Nothing
            && action_plan(Action::Search, pane, last).refresh,
        action_plan(Action::Quit, pane, last).step == Step::CloseWindow
            && !action_plan(Action::Quit, pane, last).refresh,
        action_plan(Action::Copy, pane, last).step == Step::CopyPane(pane)
            && !action_plan(Action::Copy, pane, last).refresh,
        action_plan(Action::Paste, pane, last).step == Step::PastePane(pane)
            && !action_plan(Action::Paste, pane, last).refresh,
        action_plan(Action::IncreaseFontSize, pane, last).step
            == (Step::AdjustFont { larger: true })
                && action_plan(Action::IncreaseFontSize, pane, last).refresh,
        action_plan(Action::DecreaseFontSize, pane, last).step
            == (Step::AdjustFont { larger: false })
                && action_plan(Action::DecreaseFontSize, pane, last).refresh,
        action_plan(Action::ResetFontSize, pane, last).step == Step::ResetFont
            && action_plan(Action::ResetFontSize, pane, last).refresh,
        action_plan(Action::TogglePaneFullscreen, pane, last).step == Step::ToggleFullscreen
            && action_plan(Action::TogglePaneFullscreen, pane, last).refresh,
        action_plan(Action::SwitchTabLast, pane, Some(tab)).step == Step::SwitchTabId(tab),
        action_plan(Action::SwitchTabLast, pane, None).step == Step::Nothing,
        action_plan(Action::SwitchTabLast, pane, last).refresh,
        action_plan(Action::Unknown, pane, last).step == Step::Nothing,
{
}

/// Each command of the palette does one thing, with the pane or the tab in
/// front where it is about one.
pub proof fn law_each_command_of_the_palette_does_one_thing(c: PaletteContext, n: u32)
    ensures
        palette_plan(PaletteAction::Language, c).step == Step::ChooseLanguage
            && !palette_plan(PaletteAction::Language, c).refresh,
        palette_plan(PaletteAction::TmuxDetach, c).step == Step::CloseWorkspace
            && !palette_plan(PaletteAction::TmuxDetach, c).refresh,
        palette_plan(PaletteAction::QuickConnect, c).step == Step::OpenQuickConnect
            && !palette_plan(PaletteAction::QuickConnect, c).refresh,
        palette_plan(PaletteAction::ToggleTheme, c).step == Step::ToggleTheme
            && !palette_plan(PaletteAction::ToggleTheme, c).refresh,
        palette_plan(PaletteAction::ToggleStatusBarMode, c).step == Step::ToggleStatusMode
            && !palette_plan(PaletteAction::ToggleStatusBarMode, c).refresh,
        palette_plan(PaletteAction::TogglePaneFullscreen, c).step == Step::ToggleFullscreen
            && palette_plan(PaletteAction::TogglePaneFullscreen, c).refresh,
        palette_plan(PaletteAction::IncreaseFontSize, c).step
            == (Step::AdjustFont { larger: true })
                && !palette_plan(PaletteAction::IncreaseFontSize, c).refresh,
        palette_plan(PaletteAction::DecreaseFontSize, c).step
            == (Step::AdjustFont { larger: false })
                && !palette_plan(PaletteAction::DecreaseFontSize, c).refresh,
        palette_plan(PaletteAction::ResetFontSize, c).step == Step::ResetFont
            && !palette_plan(PaletteAction::ResetFontSize, c).refresh,
        palette_plan(PaletteAction::Quit, c).step == Step::QuitWindow
            && !palette_plan(PaletteAction::Quit, c).refresh,
        palette_plan(PaletteAction::NewTab, c).step == Step::NewTab
            && !palette_plan(PaletteAction::NewTab, c).refresh,
        palette_plan(PaletteAction::NewPane, c).step
            == Step::Task(ClientTask::SplitPane { pane_id: c.active_pane, horizontal: true })
                && !palette_plan(PaletteAction::NewPane, c).refresh,
        palette_plan(PaletteAction::NewPaneVertical, c).step
            == Step::Task(ClientTask::SplitPane { pane_id: c.active_pane, horizontal: false })
                && !palette_plan(PaletteAction::NewPaneVertical, c).refresh,
        palette_plan(PaletteAction::ClosePane, c).step
            == Step::Task(ClientTask::ClosePane { pane_id: c.active_pane })
                && palette_plan(PaletteAction::ClosePane, c).refresh,
        palette_plan(PaletteAction::CloseWindow, c).step == Step::CloseWindow
            && !palette_plan(PaletteAction::CloseWindow, c).refresh,
        palette_plan(PaletteAction::SwitchPaneNext, c).step
            == (Step::SwitchPane { forward: true })
                && palette_plan(PaletteAction::SwitchPaneNext, c).refresh,
        palette_plan(PaletteAction::SwitchPanePrev, c).step
            == (Step::SwitchPane { forward: false })
                && palette_plan(PaletteAction::SwitchPanePrev, c).refresh,
        palette_plan(PaletteAction::SwitchTab(n), c).step == Step::SwitchTabNumber(n)
            && !palette_plan(PaletteAction::SwitchTab(n), c).refresh,
        palette_plan(PaletteAction::TmuxAttach, c).step == (Step::OpenTmux { create: false })
            && !palette_plan(PaletteAction::TmuxAttach, c).refresh,
        palette_plan(PaletteAction::TmuxNew, c).step == (Step::OpenTmux { create: true })
            && !palette_plan(PaletteAction::TmuxNew, c).refresh,
        palette_plan(PaletteAction::SshConnect, c).step == Step::OpenSsh
            && !palette_plan(PaletteAction::SshConnect, c).refresh,
        palette_plan(PaletteAction::SearchPanes, c).step == Step::OpenSearch
            && !palette_plan(PaletteAction::SearchPanes, c).refresh,
        palette_plan(PaletteAction::RenamePane, c).step == Step::Nothing
            && !palette_plan(PaletteAction::RenamePane, c).refresh,
        palette_plan(PaletteAction::Preferences, c).step == Step::OpenPreferences
            && !palette_plan(PaletteAction::Preferences, c).refresh,
        palette_plan(PaletteAction::CheckUpdates, c).step == Step::CheckUpdates
            && !palette_plan(PaletteAction::CheckUpdates, c).refresh,
        palette_plan(PaletteAction::ReloadConfig, c).step == Step::Nothing
            && !palette_plan(PaletteAction::ReloadConfig, c).refresh,
        palette_plan(PaletteAction::OpenConfig, c).step == Step::Nothing
            && !palette_plan(PaletteAction::OpenConfig, c).refresh,
        c.uses_tmux ==> palette_plan(PaletteAction::SshDisconnect, c).step == Step::Task(
            ClientTask::Detach,
        ),
        !c.uses_tmux ==> palette_plan(PaletteAction::SshDisconnect, c).step == Step::Nothing,
        c.aggregate ==> palette_plan(PaletteAction::CloseTab, c).step == Step::CloseAggregateRow,
        !c.aggregate ==> palette_plan(PaletteAction::CloseTab, c).step == Step::CloseTab(
            c.active_tab,
        ) && palette_plan(PaletteAction::CloseTab, c).refresh,
{
}

/// Only a new tab, and closing the tab that is shown, move the core's tab.
pub proof fn law_what_moves_the_tab(tab_id: u32, active: u32, task: ClientTask)
    ensures
        moves_tab(ClientTask::NewTab, active),
        moves_tab((ClientTask::CloseTab { tab_id: active }), active),
        tab_id != active ==> !moves_tab((ClientTask::CloseTab { tab_id }), active),
        !(task is NewTab) && !(task is CloseTab) ==> !moves_tab(task, active),
{
}

/// A switch starts from the pane in front where the tab has it, else from the
/// one that is active, else from the one in front.
pub proof fn law_where_a_switch_starts(panes: Seq<ClientPane>, in_front: u32, k: int)
    ensures
        0 <= k < panes.len() && panes[k].id == in_front ==> switch_origin(panes, in_front)
            == in_front,
        (forall|j: int| 0 <= j < panes.len() ==> (#[trigger] panes[j]).id != in_front)
            && active_pane(
            panes,
        ) is Some ==> switch_origin(panes, in_front) == active_pane(panes)->0,
        active_pane(panes) is None ==> switch_origin(panes, in_front) == in_front,
{
    if 0 <= k < panes.len() && panes[k].id == in_front {
        assert(crate::linux::window_actions::lists_pane(panes, in_front));
    }
}

/// The keyboard is with the first pane of the tab that has it.
pub proof fn law_where_the_keyboard_is(panes: Seq<ClientPane>, focused: Seq<u32>)
    ensures
        match keyboard_pane(panes, focused) {
            Some(id) => exists|k: int|
                0 <= k < panes.len() && (#[trigger] panes[k]).id == id && focused.contains(id)
                    && forall|j: int|
                    0 <= j < k ==> !focused.contains((#[trigger] panes[j]).id),
            None => forall|j: int|
                0 <= j < panes.len() ==> !focused.contains((#[trigger] panes[j]).id),
        },
    decreases panes.len(),
{
    if panes.len() > 0 && !focused.contains(panes[0].id) {
        let rest = panes.drop_first();
        law_where_the_keyboard_is(rest, focused);
        match keyboard_pane(rest, focused) {
            Some(id) => {
                let k = choose|k: int|
                    0 <= k < rest.len() && (#[trigger] rest[k]).id == id && forall|j: int|
                        0 <= j < k ==> !focused.contains((#[trigger] rest[j]).id);
                assert(panes[k + 1].id == id);
                assert forall|j: int| 0 <= j < k + 1 implies !focused.contains(
                    (#[trigger] panes[j]).id,
                ) by {
                    if j > 0 {
                        assert(rest[j - 1] == panes[j]);
                    }
                }
            },
            None => {
                assert forall|j: int| 0 <= j < panes.len() implies !focused.contains(
                    (#[trigger] panes[j]).id,
                ) by {
                    if j > 0 {
                        assert(rest[j - 1] == panes[j]);
                    }
                }
            },
        }
    } else if panes.len() > 0 {
        assert(panes[0].id == panes[0].id);
    }
}

// ---------------------------------------------------------------------------
// Tabs and panes that are shown.
// ---------------------------------------------------------------------------

/// A view is found under its key: the first of that key.
pub proof fn law_a_view_is_found_by_its_key(views: Seq<WorkspaceView>, key: Seq<char>, k: int)
    ensures
        0 <= k < views.len() && views[k].key@ == key && (forall|j: int|
            0 <= j < k ==> (#[trigger] views[j]).key@ != key) ==> view_of(views, key) == Some(
            views[k],
        ),
        (forall|j: int| 0 <= j < views.len() ==> (#[trigger] views[j]).key@ != key) ==> view_of(
            views,
            key,
        ) is None,
{
    let f = |v: WorkspaceView| v.key@ == key;
    assert(f =~= crate::linux::window_layout::view_is(key));
    if 0 <= k < views.len() && views[k].key@ == key && (forall|j: int|
        0 <= j < k ==> (#[trigger] views[j]).key@ != key) {
        lemma_first_where(views, f, k);
    }
    if forall|j: int| 0 <= j < views.len() ==> (#[trigger] views[j]).key@ != key {
        lemma_no_first(views, f);
    }
}

/// The tab that is shown is the stored one where the workspace still has it,
/// else the active one, else the first.
pub proof fn law_which_tab_is_shown(tabs: Map<Seq<char>, u32>, view: WorkspaceView, k: int)
    ensures
        tabs.dom().contains(view.key@) && 0 <= k < view.tabs@.len() && view.tabs@[k].id
            == tabs[view.key@] ==> shown_tab(tabs, view) == Some(tabs[view.key@]),
        !tabs.dom().contains(view.key@) && active_tab(view.tabs@) is Some ==> shown_tab(tabs, view)
            == active_tab(view.tabs@),
        tabs.dom().contains(view.key@) && active_tab(view.tabs@) is Some && (forall|j: int|
            0 <= j < view.tabs@.len() ==> (#[trigger] view.tabs@[j]).id != tabs[view.key@])
            ==> shown_tab(tabs, view) == active_tab(view.tabs@),
        !tabs.dom().contains(view.key@) && active_tab(view.tabs@) is None && view.tabs@.len() > 0
            ==> shown_tab(tabs, view) == Some(view.tabs@[0].id),
        view.tabs@.len() == 0 ==> shown_tab(tabs, view) is None,
{
    if tabs.dom().contains(view.key@) && 0 <= k < view.tabs@.len() && view.tabs@[k].id
        == tabs[view.key@] {
        assert(crate::linux::window_layout::lists_tab(view.tabs@, tabs[view.key@]));
    }
    if view.tabs@.len() == 0 {
        lemma_no_first(view.tabs@, crate::client::snapshot::tab_active());
    }
}

/// The core's tab is followed exactly where an event reports another one and
/// the user has not chosen one here.
pub proof fn law_when_the_core_is_followed(
    tabs: Map<Seq<char>, u32>,
    overrides: Map<Seq<char>, bool>,
    views: Seq<WorkspaceView>,
    events: Seq<ClientWorkspaceEvent>,
    key: Seq<char>,
    k: int,
)
    ensures
        overrides.dom().contains(key) ==> followed(tabs, overrides, views, events, key) == value_of(
            tabs,
            key,
        ),
        (forall|j: int|
            0 <= j < events.len() ==> (#[trigger] events[j]).event.type_ != 7
                || events[j].workspace_id@ != key) ==> followed(tabs, overrides, views, events, key)
            == value_of(tabs, key),
        !overrides.dom().contains(key) && 0 <= k < events.len() && events[k].event.type_ == 7
            && events[k].workspace_id@ == key ==> followed(tabs, overrides, views, events, key) == (
        match view_of(views, key) {
            Some(v) => active_tab(v.tabs@),
            None => None,
        }),
{
    if 0 <= k < events.len() && events[k].event.type_ == 7 && events[k].workspace_id@ == key {
        assert(crate::linux::window_layout::tab_reported(events, key));
    }
}

/// A tab shows its layout, else its first pane alone, else nothing.
pub proof fn law_what_a_tab_shows(view: WorkspaceView, tab: u32)
    ensures
        layout_of(view.layouts@, tab) is Some ==> plan_layout(view, tab) == layout_of(
            view.layouts@,
            tab,
        ),
        layout_of(view.layouts@, tab) is None
            && panes_of(view.panes@, tab).len() > 0 ==> plan_layout(
            view,
            tab,
        ) == Some(ClientLayout::Leaf { pane_id: panes_of(view.panes@, tab)[0].id }),
        layout_of(view.layouts@, tab) is None && panes_of(view.panes@, tab).len() == 0
            ==> plan_layout(view, tab) is None,
{
}

/// Every tab with something to show is in the plan, under its number, and
/// nothing else is.
pub proof fn law_every_tab_is_laid_out(view: WorkspaceView, n: int, entry: (u32, ClientLayout))
    requires
        0 <= n <= view.tabs@.len(),
    ensures
        plan_layouts(view, n).contains(entry) <==> exists|i: int|
            0 <= i < n && (#[trigger] view.tabs@[i]).id == entry.0 && plan_layout(view, entry.0)
                == Some(entry.1),
    decreases n,
{
    if n > 0 {
        law_every_tab_is_laid_out(view, n - 1, entry);
        let rest = plan_layouts(view, n - 1);
        let all = plan_layouts(view, n);
        let tab = view.tabs@[n - 1].id;
        if all.contains(entry) {
            let i = choose|i: int| 0 <= i < all.len() && all[i] == entry;
            if i < rest.len() {
                assert(rest[i] == entry);
                assert(rest.contains(entry));
            } else {
                assert(view.tabs@[n - 1].id == entry.0);
            }
        }
        if rest.contains(entry) {
            let i = choose|i: int| 0 <= i < rest.len() && rest[i] == entry;
            assert(all[i] == entry);
        }
        if tab == entry.0 && plan_layout(view, entry.0) == Some(entry.1) {
            assert(all[all.len() - 1] == entry);
        }
    }
}

/// The panes of the shown tab are placed with their sizes.
pub proof fn law_the_panes_of_the_shown_tab(view: WorkspaceView, tab: u32, i: int)
    ensures
        plan_panes(view, None).len() == 0,
        plan_panes(view, Some(tab)).len() == panes_of(view.panes@, tab).len(),
        0 <= i < panes_of(view.panes@, tab).len() ==> ({
            let p = panes_of(view.panes@, tab)[i];
            let c = plan_panes(view, Some(tab))[i];
            c.0 == p.id && c.1 == p.cols && c.2 == p.rows && c.3 == p.is_active
        }),
{
}

/// The last active pane that has a surface gets the focus.
pub proof fn law_which_pane_gets_the_focus(
    panes: Seq<(u32, u16, u16, bool)>,
    resident: Seq<u32>,
    k: int,
)
    ensures
        0 <= k < panes.len() && panes[k].3 && resident.contains(panes[k].0) && (forall|j: int|
            k < j < panes.len() ==> !((#[trigger] panes[j]).3 && resident.contains(panes[j].0)))
            ==> focus_of(panes, resident) == Some(panes[k].0),
        (forall|j: int|
            0 <= j < panes.len() ==> !((#[trigger] panes[j]).3 && resident.contains(panes[j].0)))
            ==> focus_of(panes, resident) is None,
    decreases panes.len(),
{
    if panes.len() > 0 {
        let init = panes.drop_last();
        law_which_pane_gets_the_focus(init, resident, k);
        assert(panes.last() == panes[panes.len() - 1]);
        assert forall|j: int| 0 <= j < init.len() implies #[trigger] init[j] == panes[j] by {}
    }
}

} // verus!
