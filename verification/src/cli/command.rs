//! The commands of the command line.
use vstd::prelude::*;

verus! {

/// How a query is printed.
#[derive(Debug, Clone, Copy, PartialEq, Eq, Structural)]
pub enum OutputFormat {
    Json,
    Text,
}

/// One command of the command line; panes and tabs are named by number.
#[derive(Debug, Clone, PartialEq, Eq)]
pub enum CliCommand {
    Config { args: Vec<String> },
    NewWorkspace { socket: Option<String> },
    AttachWorkspace { target: String },
    ListWorkspaces,
    ListTabs,
    ListPanes { tab: Option<u32> },
    ListLayout,
    CapturePane { target: Option<u32>, lines: Option<usize> },
    DisplayMessage { target: u32, format: String },
    PollEvents,
    CloseWorkspace,
    Detach,
    RenameWorkspace { new_name: String },
    NewTab { name: Option<String> },
    KillTab { target: Option<u32> },
    SelectTab { target: u32 },
    RenameTab { new_name: String },
    SplitPane { horizontal: bool, target: Option<u32> },
    KillPane { target: Option<u32> },
    SelectPane { target: u32 },
    ResizePane { target: u32, width: Option<u16>, height: Option<u16> },
    ResizeClient { width: u16, height: u16 },
    SendKeys { target: Option<u32>, text: String },
    WriteRaw { target: Option<u32>, data: Vec<u8> },
}

} // verus!
