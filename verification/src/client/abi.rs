//! The numbers by which this library names events, tasks, directions and
//! states of the core.
//!
//! They are the library's own. Whoever implements the C interface maps them to
//! the constants of the core's header, and those back.
use vstd::prelude::*;

verus! {

// Kinds of events.
pub const STATE_PANE_OUTPUT: u32 = 1;

pub const STATE_TAB_ADDED: u32 = 2;

pub const STATE_TAB_CLOSED: u32 = 3;

pub const STATE_LAYOUT_CHANGED: u32 = 4;

pub const STATE_PANE_ADDED: u32 = 5;

pub const STATE_PANE_CLOSED: u32 = 6;

pub const STATE_ACTIVE_TAB_CHANGED: u32 = 7;

pub const STATE_ACTIVE_PANE_CHANGED: u32 = 8;

pub const STATE_TAB_RENAMED: u32 = 9;

pub const STATE_PANE_RESIZED: u32 = 10;

pub const STATE_BACKEND_STATUS: u32 = 11;

pub const STATE_STATUS_SUBSCRIPTION: u32 = 12;

pub const STATE_WORKSPACE_RENAMED: u32 = 13;

pub const STATE_POOL_CHANGED: u32 = 14;

pub const STATE_PANE_SNAPSHOT: u32 = 15;

pub const STATE_PANE_FRAME: u32 = 16;

pub const STATE_PANE_HISTORY: u32 = 17;

pub const STATE_PANE_AGENT_CHANGED: u32 = 18;

pub const STATE_MUTATION_SETTLED: u32 = 19;

pub const STATE_TAB_ORDER_CHANGED: u32 = 20;

pub const STATE_OTHER: u32 = 21;

// Kinds of tasks.
pub const TASK_NEW_TAB: u32 = 1;

pub const TASK_SWITCH_TAB: u32 = 2;

pub const TASK_CLOSE_PANE: u32 = 3;

pub const TASK_CLOSE_TAB: u32 = 4;

pub const TASK_SPLIT_PANE: u32 = 5;

pub const TASK_NEXT_PANE: u32 = 6;

pub const TASK_PREV_PANE: u32 = 7;

pub const TASK_SWITCH_PANE: u32 = 8;

pub const TASK_TOGGLE_PANE_FULLSCREEN: u32 = 9;

pub const TASK_BREAK_PANE: u32 = 10;

pub const TASK_REFRESH_TABS: u32 = 11;

pub const TASK_REQUEST_PANE_SNAPSHOT: u32 = 12;

pub const TASK_DETACH: u32 = 13;

pub const TASK_SHUTDOWN: u32 = 14;

pub const TASK_RENAME_TAB: u32 = 15;

pub const TASK_RENAME_WORKSPACE: u32 = 16;

// Split and resize directions.
pub const DIR_HORIZONTAL: u32 = 1;

pub const DIR_VERTICAL: u32 = 2;

// States of a backend.
pub const BACKEND_STATUS_DISCONNECTED: u32 = 0;

pub const BACKEND_STATUS_CONNECTING: u32 = 1;

pub const BACKEND_STATUS_CONNECTED: u32 = 2;

pub const BACKEND_STATUS_ERROR: u32 = 3;

pub const BACKEND_STATUS_EXITED: u32 = 4;

// Kinds of layout nodes.
pub const LAYOUT_LEAF: u32 = 1;

pub const LAYOUT_SPLIT_H: u32 = 2;

pub const LAYOUT_SPLIT_V: u32 = 3;

} // verus!
