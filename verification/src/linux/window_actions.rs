//! What the window does on a key, a palette command or a menu entry.
//!
//! The functions decide; the window carries out the one step they name and
//! refreshes itself where they say so.
use vstd::prelude::*;
use vstd::string::*;

use crate::client::snapshot::{active_pane, find_active_pane};
use crate::client::types::{ClientPane, ClientTask};
use crate::linux::window_layout::VisibleTabs;
use crate::seqs::lists_number;

verus! {

/// What a key is bound to.
#[derive(Debug, Clone, Copy, PartialEq, Eq, Structural)]
pub enum Action {
    NewTab,
    NewWindow,
    NewPane,
    NewPaneVertical,
    SwitchTab1,
    SwitchTab2,
    SwitchTab3,
    SwitchTab4,
    SwitchTab5,
    SwitchTab6,
    SwitchTab7,
    SwitchTab8,
    SwitchTab9,
    SwitchTabLast,
    SwitchWorkspace1,
    SwitchWorkspace2,
    SwitchWorkspace3,
    SwitchWorkspace4,
    SwitchWorkspace5,
    SwitchWorkspace6,
    SwitchWorkspace7,
    SwitchWorkspace8,
    SwitchWorkspace9,
    SwitchWorkspaceLast,
    SwitchPaneNext,
    SwitchPanePrev,
    CommandPalette,
    Search,
    Unknown,
    QuickConnect,
    Quit,
    Copy,
    Paste,
    IncreaseFontSize,
    DecreaseFontSize,
    ResetFontSize,
    TogglePaneFullscreen,
}

/// A command of the palette.
#[derive(Debug, Clone, Copy, PartialEq, Eq, Structural)]
pub enum PaletteAction {
    Language,
    TmuxDetach,
    SshDisconnect,
    QuickConnect,
    ToggleTheme,
    ToggleStatusBarMode,
    TogglePaneFullscreen,
    IncreaseFontSize,
    DecreaseFontSize,
    ResetFontSize,
    Quit,
    NewTab,
    NewPane,
    NewPaneVertical,
    ClosePane,
    CloseTab,
    CloseWindow,
    SwitchPaneNext,
    SwitchPanePrev,
    SwitchTab(u32),
    TmuxAttach,
    TmuxNew,
    SshConnect,
    SearchPanes,
    RenamePane,
    Preferences,
    CheckUpdates,
    ReloadConfig,
    OpenConfig,
}

/// One step of the window.
#[derive(Debug, Clone, Copy, PartialEq, Eq)]
pub enum Step {
    Nothing,
    NewTab,
    Task(ClientTask),
    /// The tab at a position, counted from one.
    SwitchTabNumber(u32),
    SwitchTabId(u32),
    /// The workspace at a position, counted from one; zero is the last.
    SwitchWorkspaceNumber(u32),
    SwitchPane { forward: bool },
    OpenPalette,
    OpenQuickConnect,
    CloseWindow,
    /// Closes for good instead of hiding.
    QuitWindow,
    CopyPane(u32),
    PastePane(u32),
    AdjustFont { larger: bool },
    ResetFont,
    ToggleFullscreen,
    ChooseLanguage,
    CloseWorkspace,
    ToggleTheme,
    ToggleStatusMode,
    /// Closes the row that the shown tab has in the aggregate list, by
    /// `AggregateSelection::close_shown`.
    CloseAggregateRow,
    /// Closes a tab; what is stored of the shown tab is forgotten first.
    CloseTab(u32),
    OpenTmux { create: bool },
    OpenSsh,
    OpenSearch,
    OpenPreferences,
    CheckUpdates,
}

/// A step, and whether the window refreshes itself at once. Where the core
/// changes the layout, the window waits for its events instead.
#[derive(Debug, Clone, Copy, PartialEq, Eq)]
pub struct Plan {
    pub step: Step,
    pub refresh: bool,
}

/// A step with a refresh.
pub open spec fn refreshed(step: Step) -> Plan {
    Plan { step, refresh: true }
}

/// A step without a refresh.
pub open spec fn alone(step: Step) -> Plan {
    Plan { step, refresh: false }
}

/// The number of the tab that an action switches to.
pub open spec fn tab_number(action: Action) -> Option<u32> {
    match action {
        Action::SwitchTab1 => Some(1),
        Action::SwitchTab2 => Some(2),
        Action::SwitchTab3 => Some(3),
        Action::SwitchTab4 => Some(4),
        Action::SwitchTab5 => Some(5),
        Action::SwitchTab6 => Some(6),
        Action::SwitchTab7 => Some(7),
        Action::SwitchTab8 => Some(8),
        Action::SwitchTab9 => Some(9),
        _ => None,
    }
}

/// The number of the workspace that an action switches to.
pub open spec fn workspace_number(action: Action) -> Option<u32> {
    match action {
        Action::SwitchWorkspace1 => Some(1),
        Action::SwitchWorkspace2 => Some(2),
        Action::SwitchWorkspace3 => Some(3),
        Action::SwitchWorkspace4 => Some(4),
        Action::SwitchWorkspace5 => Some(5),
        Action::SwitchWorkspace6 => Some(6),
        Action::SwitchWorkspace7 => Some(7),
        Action::SwitchWorkspace8 => Some(8),
        Action::SwitchWorkspace9 => Some(9),
        Action::SwitchWorkspaceLast => Some(0),
        _ => None,
    }
}

/// What an action does in a window with the given active pane and last tab.
pub open spec fn action_plan(action: Action, pane: u32, last_tab: Option<u32>) -> Plan {
    if tab_number(action) is Some {
        refreshed(Step::SwitchTabNumber(tab_number(action)->0))
    } else if workspace_number(action) is Some {
        refreshed(Step::SwitchWorkspaceNumber(workspace_number(action)->0))
    } else {
        match action {
            Action::NewTab => alone(Step::NewTab),
            Action::NewWindow => alone(Step::NewTab),
            Action::NewPane => alone(
                Step::Task(ClientTask::SplitPane { pane_id: pane, horizontal: true }),
            ),
            Action::NewPaneVertical => alone(
                Step::Task(ClientTask::SplitPane { pane_id: pane, horizontal: false }),
            ),
            Action::SwitchTabLast => refreshed(
                match last_tab {
                    Some(tab) => Step::SwitchTabId(tab),
                    None => Step::Nothing,
                },
            ),
            Action::SwitchPaneNext => refreshed(Step::SwitchPane { forward: true }),
            Action::SwitchPanePrev => refreshed(Step::SwitchPane { forward: false }),
            Action::CommandPalette => alone(Step::OpenPalette),
            Action::QuickConnect => alone(Step::Nothing),
            Action::Quit => alone(Step::CloseWindow),
            Action::Copy => alone(Step::CopyPane(pane)),
            Action::Paste => alone(Step::PastePane(pane)),
            Action::IncreaseFontSize => refreshed(Step::AdjustFont { larger: true }),
            Action::DecreaseFontSize => refreshed(Step::AdjustFont { larger: false }),
            Action::ResetFontSize => refreshed(Step::ResetFont),
            Action::TogglePaneFullscreen => refreshed(Step::ToggleFullscreen),
            _ => refreshed(Step::Nothing),
        }
    }
}

fn plain(step: Step) -> (r: Plan)
    ensures
        r == alone(step),
{
    Plan { step, refresh: false }
}

fn with_refresh(step: Step) -> (r: Plan)
    ensures
        r == refreshed(step),
{
    Plan { step, refresh: true }
}

/// Returns what an action does. Quick connect is opened by the caller.
pub fn handle_action(action: Action, pane: u32, last_tab: Option<u32>) -> (r: Plan)
    ensures
        r == action_plan(action, pane, last_tab),
{
    match action {
        Action::NewTab | Action::NewWindow => plain(Step::NewTab),
        Action::NewPane => plain(
            Step::Task(ClientTask::SplitPane { pane_id: pane, horizontal: true }),
        ),
        Action::NewPaneVertical => plain(
            Step::Task(ClientTask::SplitPane { pane_id: pane, horizontal: false }),
        ),
        Action::SwitchTab1 => with_refresh(Step::SwitchTabNumber(1)),
        Action::SwitchTab2 => with_refresh(Step::SwitchTabNumber(2)),
        Action::SwitchTab3 => with_refresh(Step::SwitchTabNumber(3)),
        Action::SwitchTab4 => with_refresh(Step::SwitchTabNumber(4)),
        Action::SwitchTab5 => with_refresh(Step::SwitchTabNumber(5)),
        Action::SwitchTab6 => with_refresh(Step::SwitchTabNumber(6)),
        Action::SwitchTab7 => with_refresh(Step::SwitchTabNumber(7)),
        Action::SwitchTab8 => with_refresh(Step::SwitchTabNumber(8)),
        Action::SwitchTab9 => with_refresh(Step::SwitchTabNumber(9)),
        Action::SwitchTabLast => match last_tab {
            Some(tab) => with_refresh(Step::SwitchTabId(tab)),
            None => with_refresh(Step::Nothing),
        },
        Action::SwitchWorkspace1 => with_refresh(Step::SwitchWorkspaceNumber(1)),
        Action::SwitchWorkspace2 => with_refresh(Step::SwitchWorkspaceNumber(2)),
        Action::SwitchWorkspace3 => with_refresh(Step::SwitchWorkspaceNumber(3)),
        Action::SwitchWorkspace4 => with_refresh(Step::SwitchWorkspaceNumber(4)),
        Action::SwitchWorkspace5 => with_refresh(Step::SwitchWorkspaceNumber(5)),
        Action::SwitchWorkspace6 => with_refresh(Step::SwitchWorkspaceNumber(6)),
        Action::SwitchWorkspace7 => with_refresh(Step::SwitchWorkspaceNumber(7)),
        Action::SwitchWorkspace8 => with_refresh(Step::SwitchWorkspaceNumber(8)),
        Action::SwitchWorkspace9 => with_refresh(Step::SwitchWorkspaceNumber(9)),
        Action::SwitchWorkspaceLast => with_refresh(Step::SwitchWorkspaceNumber(0)),
        Action::SwitchPaneNext => with_refresh(Step::SwitchPane { forward: true }),
        Action::SwitchPanePrev => with_refresh(Step::SwitchPane { forward: false }),
        Action::CommandPalette => plain(Step::OpenPalette),
        Action::Search | Action::Unknown => with_refresh(Step::Nothing),
        Action::QuickConnect => plain(Step::Nothing),
        Action::Quit => plain(Step::CloseWindow),
        Action::Copy => plain(Step::CopyPane(pane)),
        Action::Paste => plain(Step::PastePane(pane)),
        Action::IncreaseFontSize => with_refresh(Step::AdjustFont { larger: true }),
        Action::DecreaseFontSize => with_refresh(Step::AdjustFont { larger: false }),
        Action::ResetFontSize => with_refresh(Step::ResetFont),
        Action::TogglePaneFullscreen => with_refresh(Step::ToggleFullscreen),
    }
}

/// What the palette needs to know of the window.
#[derive(Debug, Clone, Copy)]
pub struct PaletteContext {
    pub uses_tmux: bool,
    pub active_pane: u32,
    pub active_tab: u32,
    pub aggregate: bool,
}

/// What a command of the palette does.
pub open spec fn palette_plan(action: PaletteAction, context: PaletteContext) -> Plan {
    let pane = context.active_pane;
    match action {
        PaletteAction::Language => alone(Step::ChooseLanguage),
        PaletteAction::TmuxDetach => alone(Step::CloseWorkspace),
        PaletteAction::SshDisconnect => alone(
            if context.uses_tmux {
                Step::Task(ClientTask::Detach)
            } else {
                Step::Nothing
            },
        ),
        PaletteAction::QuickConnect => alone(Step::OpenQuickConnect),
        PaletteAction::ToggleTheme => alone(Step::ToggleTheme),
        PaletteAction::ToggleStatusBarMode => alone(Step::ToggleStatusMode),
        PaletteAction::TogglePaneFullscreen => refreshed(Step::ToggleFullscreen),
        PaletteAction::IncreaseFontSize => alone(Step::AdjustFont { larger: true }),
        PaletteAction::DecreaseFontSize => alone(Step::AdjustFont { larger: false }),
        PaletteAction::ResetFontSize => alone(Step::ResetFont),
        PaletteAction::Quit => alone(Step::QuitWindow),
        PaletteAction::NewTab => alone(Step::NewTab),
        PaletteAction::NewPane => alone(
            Step::Task(ClientTask::SplitPane { pane_id: pane, horizontal: true }),
        ),
        PaletteAction::NewPaneVertical => alone(
            Step::Task(ClientTask::SplitPane { pane_id: pane, horizontal: false }),
        ),
        PaletteAction::ClosePane => refreshed(Step::Task(ClientTask::ClosePane { pane_id: pane })),
        PaletteAction::CloseTab => if context.aggregate {
            alone(Step::CloseAggregateRow)
        } else {
            refreshed(Step::CloseTab(context.active_tab))
        },
        PaletteAction::CloseWindow => alone(Step::CloseWindow),
        PaletteAction::SwitchPaneNext => refreshed(Step::SwitchPane { forward: true }),
        PaletteAction::SwitchPanePrev => refreshed(Step::SwitchPane { forward: false }),
        PaletteAction::SwitchTab(n) => alone(Step::SwitchTabNumber(n)),
        PaletteAction::TmuxAttach => alone(Step::OpenTmux { create: false }),
        PaletteAction::TmuxNew => alone(Step::OpenTmux { create: true }),
        PaletteAction::SshConnect => alone(Step::OpenSsh),
        PaletteAction::SearchPanes => alone(Step::OpenSearch),
        PaletteAction::RenamePane => alone(Step::Nothing),
        PaletteAction::Preferences => alone(Step::OpenPreferences),
        PaletteAction::CheckUpdates => alone(Step::CheckUpdates),
        PaletteAction::ReloadConfig => alone(Step::Nothing),
        PaletteAction::OpenConfig => alone(Step::Nothing),
    }
}

/// Returns what a command of the palette does.
pub fn run_palette_command(action: PaletteAction, context: PaletteContext) -> (r: Plan)
    ensures
        r == palette_plan(action, context),
{
    let pane: u32 = context.active_pane;
    match action {
        PaletteAction::Language => plain(Step::ChooseLanguage),
        PaletteAction::TmuxDetach => plain(Step::CloseWorkspace),
        PaletteAction::SshDisconnect => {
            if context.uses_tmux {
                plain(Step::Task(ClientTask::Detach))
            } else {
                plain(Step::Nothing)
            }
        },
        PaletteAction::QuickConnect => plain(Step::OpenQuickConnect),
        PaletteAction::ToggleTheme => plain(Step::ToggleTheme),
        PaletteAction::ToggleStatusBarMode => plain(Step::ToggleStatusMode),
        PaletteAction::TogglePaneFullscreen => with_refresh(Step::ToggleFullscreen),
        PaletteAction::IncreaseFontSize => plain(Step::AdjustFont { larger: true }),
        PaletteAction::DecreaseFontSize => plain(Step::AdjustFont { larger: false }),
        PaletteAction::ResetFontSize => plain(Step::ResetFont),
        PaletteAction::Quit => plain(Step::QuitWindow),
        PaletteAction::NewTab => plain(Step::NewTab),
        PaletteAction::NewPane => plain(
            Step::Task(ClientTask::SplitPane { pane_id: pane, horizontal: true }),
        ),
        PaletteAction::NewPaneVertical => plain(
            Step::Task(ClientTask::SplitPane { pane_id: pane, horizontal: false }),
        ),
        PaletteAction::ClosePane => with_refresh(
            Step::Task(ClientTask::ClosePane { pane_id: pane }),
        ),
        PaletteAction::CloseTab => {
            if context.aggregate {
                plain(Step::CloseAggregateRow)
            } else {
                with_refresh(Step::CloseTab(context.active_tab))
            }
        },
        PaletteAction::CloseWindow => plain(Step::CloseWindow),
        PaletteAction::SwitchPaneNext => with_refresh(Step::SwitchPane { forward: true }),
        PaletteAction::SwitchPanePrev => with_refresh(Step::SwitchPane { forward: false }),
        PaletteAction::SwitchTab(n) => plain(Step::SwitchTabNumber(n)),
        PaletteAction::TmuxAttach => plain(Step::OpenTmux { create: false }),
        PaletteAction::TmuxNew => plain(Step::OpenTmux { create: true }),
        PaletteAction::SshConnect => plain(Step::OpenSsh),
        PaletteAction::SearchPanes => plain(Step::OpenSearch),
        PaletteAction::RenamePane => plain(Step::Nothing),
        PaletteAction::Preferences => plain(Step::OpenPreferences),
        PaletteAction::CheckUpdates => plain(Step::CheckUpdates),
        PaletteAction::ReloadConfig | PaletteAction::OpenConfig => plain(Step::Nothing),
    }
}

// ---------------------------------------------------------------------------
// Tabs and panes.
// ---------------------------------------------------------------------------

/// The task changes which tab the core shows of the workspace in front.
pub open spec fn moves_tab(task: ClientTask, active_tab: u32) -> bool {
    match task {
        ClientTask::NewTab => true,
        ClientTask::CloseTab { tab_id } => tab_id == active_tab,
        _ => false,
    }
}

/// Forgets the shown tab of a workspace before a task that moves it, so that
/// the core's next active tab is followed.
pub fn prepare_core_tab_mutation(
    visible: &mut VisibleTabs,
    key: &str,
    active_tab: u32,
    task: &ClientTask,
)
    ensures
        if moves_tab(*task, active_tab) {
            final(visible).tabs@ == old(visible).tabs@.remove(key@) && final(visible).overrides@
                == old(visible).overrides@.remove(key@)
        } else {
            *final(visible) == *old(visible)
        },
{
    let clear = match task {
        ClientTask::NewTab => true,
        ClientTask::CloseTab { tab_id } => *tab_id == active_tab,
        _ => false,
    };
    if clear {
        visible.tabs.remove(key);
        visible.overrides.remove(key);
    }
}

/// The pane is listed.
pub open spec fn lists_pane(panes: Seq<ClientPane>, id: u32) -> bool {
    exists|i: int| 0 <= i < panes.len() && (#[trigger] panes[i]).id == id
}

/// The pane that a switch starts from: the one in front if the tab has it,
/// else the one that the core calls active.
pub open spec fn switch_origin(panes: Seq<ClientPane>, in_front: u32) -> u32 {
    if lists_pane(panes, in_front) {
        in_front
    } else {
        match active_pane(panes) {
            Some(id) => id,
            None => in_front,
        }
    }
}

/// Returns the panes of the tab, in order, and the one that a switch starts
/// from.
pub fn switch_pane_offset(panes: &Vec<ClientPane>, in_front: u32) -> (r: (Vec<u32>, u32))
    ensures
        r.0@ == panes@.map_values(|p: ClientPane| p.id),
        r.1 == switch_origin(panes@, in_front),
{
    let mut ids: Vec<u32> = Vec::new();
    let mut listed = false;
    let ghost all = panes@.map_values(|p: ClientPane| p.id);
    let mut i: usize = 0;
    while i < panes.len()
        invariant
            i <= panes.len(),
            all == panes@.map_values(|p: ClientPane| p.id),
            ids@ == all.take(i as int),
            listed == (exists|j: int| 0 <= j < i && (#[trigger] panes@[j]).id == in_front),
        decreases panes.len() - i,
    {
        ids.push(panes[i].id);
        if panes[i].id == in_front {
            listed = true;
        }
        assert(all.take(i + 1) =~= all.take(i as int).push(all[i as int]));
        i += 1;
    }
    assert(all.take(i as int) =~= all);
    let origin: u32 = if listed {
        in_front
    } else {
        match find_active_pane(panes) {
            Some(id) => id,
            None => in_front,
        }
    };
    (ids, origin)
}

/// What a switch of panes does: the pane that comes to the front and gets the
/// keyboard, the pane that is then shown alone, and the task for the core.
#[derive(Debug, Clone, Copy, PartialEq, Eq)]
pub struct PaneSwitch {
    pub active_pane: u32,
    pub shown_alone: Option<u32>,
    pub task: ClientTask,
}

/// Returns what a switch to a pane does; nothing where there is no pane to
/// switch to. A pane is shown alone afterwards exactly where one was before.
pub fn switch_to_pane(target: Option<u32>, shown_alone: Option<u32>) -> (r: Option<PaneSwitch>)
    ensures
        r == match target {
            Some(t) => Some(
                PaneSwitch {
                    active_pane: t,
                    shown_alone: if shown_alone is Some {
                        Some(t)
                    } else {
                        None
                    },
                    task: ClientTask::SwitchPane { pane_id: t },
                },
            ),
            None => None,
        },
{
    match target {
        Some(t) => {
            let alone: Option<u32> = match shown_alone {
                Some(_) => Some(t),
                None => None,
            };
            Some(
                PaneSwitch {
                    active_pane: t,
                    shown_alone: alone,
                    task: ClientTask::SwitchPane { pane_id: t },
                },
            )
        },
        None => None,
    }
}

/// The first pane of the tab that has the keyboard.
pub open spec fn keyboard_pane(panes: Seq<ClientPane>, focused: Seq<u32>) -> Option<u32>
    decreases panes.len(),
{
    if panes.len() == 0 {
        None
    } else if focused.contains(panes[0].id) {
        Some(panes[0].id)
    } else {
        keyboard_pane(panes.drop_first(), focused)
    }
}

/// Returns the pane that the keyboard has moved to without the window knowing:
/// `focused` holds the panes whose surface has the keyboard.
pub fn sync_focused_pane(panes: &Vec<ClientPane>, focused: &Vec<u32>, in_front: u32) -> (r: Option<
    u32,
>)
    ensures
        r == (match keyboard_pane(panes@, focused@) {
            Some(id) => if id != in_front {
                Some(id)
            } else {
                None
            },
            None => None,
        }),
{
    let mut i: usize = 0;
    assert(panes@.skip(0) =~= panes@);
    while i < panes.len()
        invariant
            i <= panes.len(),
            keyboard_pane(panes@, focused@) == keyboard_pane(panes@.skip(i as int), focused@),
        decreases panes.len() - i,
    {
        assert(panes@.skip(i as int).drop_first() =~= panes@.skip(i + 1));
        let id: u32 = panes[i].id;
        if lists_number(focused, id) {
            return if id != in_front {
                Some(id)
            } else {
                None
            };
        }
        i += 1;
    }
    None
}

/// How a pane fills the tab: the runtime does it, or the window shows the
/// given pane alone.
#[derive(Debug, Clone, Copy, PartialEq, Eq)]
pub enum Fullscreen {
    Runtime(ClientTask),
    Window(Option<u32>),
}

/// Returns how the pane in front starts or stops filling the tab.
pub fn toggle_fullscreen(uses_tmux: bool, shown_alone: Option<u32>, pane: u32) -> (r: Fullscreen)
    ensures
        r == if uses_tmux {
            Fullscreen::Runtime(ClientTask::TogglePaneFullscreen { pane_id: pane })
        } else if shown_alone == Some(pane) {
            Fullscreen::Window(None)
        } else {
            Fullscreen::Window(Some(pane))
        },
{
    if uses_tmux {
        Fullscreen::Runtime(ClientTask::TogglePaneFullscreen { pane_id: pane })
    } else {
        match shown_alone {
            Some(id) => {
                if id == pane {
                    Fullscreen::Window(None)
                } else {
                    Fullscreen::Window(Some(pane))
                }
            },
            None => Fullscreen::Window(Some(pane)),
        }
    }
}

/// An entry of a pane's menu.
#[derive(Debug, Clone, Copy, PartialEq, Eq, Structural)]
pub enum PaneMenuAction {
    Break,
    Close,
    Copy,
    Paste,
    SplitVertical,
    SplitHorizontal,
}

/// Returns what an entry of a pane's menu does. A pane can become a tab only
/// outside the aggregate lists and where the runtime shares one client.
pub fn handle_pane_menu_action(
    pane: u32,
    action: PaneMenuAction,
    aggregate: bool,
    shared_client: bool,
) -> (r: Step)
    ensures
        r == (match action {
            PaneMenuAction::Break => if !aggregate && shared_client {
                Step::Task(ClientTask::BreakPane { pane_id: pane })
            } else {
                Step::Nothing
            },
            PaneMenuAction::Close => Step::Task(ClientTask::ClosePane { pane_id: pane }),
            PaneMenuAction::Copy => Step::CopyPane(pane),
            PaneMenuAction::Paste => Step::PastePane(pane),
            PaneMenuAction::SplitVertical => Step::Task(
                ClientTask::SplitPane { pane_id: pane, horizontal: false },
            ),
            PaneMenuAction::SplitHorizontal => Step::Task(
                ClientTask::SplitPane { pane_id: pane, horizontal: true },
            ),
        }),
{
    match action {
        PaneMenuAction::Break => {
            if !aggregate && shared_client {
                Step::Task(ClientTask::BreakPane { pane_id: pane })
            } else {
                Step::Nothing
            }
        },
        PaneMenuAction::Close => Step::Task(ClientTask::ClosePane { pane_id: pane }),
        PaneMenuAction::Copy => Step::CopyPane(pane),
        PaneMenuAction::Paste => Step::PastePane(pane),
        PaneMenuAction::SplitVertical => split_pane_from_menu(pane, true),
        PaneMenuAction::SplitHorizontal => split_pane_from_menu(pane, false),
    }
}

/// Returns the step that splits a pane.
pub fn split_pane_from_menu(pane: u32, vertical: bool) -> (r: Step)
    ensures
        r == Step::Task(ClientTask::SplitPane { pane_id: pane, horizontal: !vertical }),
{
    Step::Task(ClientTask::SplitPane { pane_id: pane, horizontal: !vertical })
}

} // verus!
