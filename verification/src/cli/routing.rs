//! Where a command goes and which call it makes.
use vstd::prelude::*;
use vstd::string::*;
use vstd::utf8::*;

use crate::cli::command::CliCommand;
use crate::client::call::{
    c_text, copy_bytes, direction, ffi_task, CTaskView, CoreCall, CoreCallView, FfiClient,
};
use crate::client::event::{kind_of, ClientEventKind};
use crate::client::abi::{TASK_NEW_TAB, TASK_RENAME_TAB, TASK_RENAME_WORKSPACE};
use crate::client::types::{
    ClientResizeAxis, ClientTask, ClientWorkspace, ClientWorkspaceEvent, TmuxSessionEntry,
};
use crate::seqs::{find, first_where, lemma_first_where, lemma_no_first};
use crate::text::number::{signed_decimal, signed_decimal_string};
use crate::text::{clone_opt, concat3, opt_view, same};

verus! {

// ---------------------------------------------------------------------------
// Arguments.
// ---------------------------------------------------------------------------

pub open spec fn arg_is(flag: Seq<char>) -> spec_fn(String) -> bool {
    |a: String| a@ == flag
}

/// The argument behind the first `flag`.
pub open spec fn flag_value(args: Seq<String>, flag: Seq<char>) -> Option<Seq<char>> {
    match first_where(args, arg_is(flag)) {
        Some(i) => if i + 1 < args.len() {
            Some(args[i + 1]@)
        } else {
            None
        },
        None => None,
    }
}

fn value_of_flag(args: &Vec<String>, flag: &str) -> (r: Option<String>)
    ensures
        opt_view(r) == flag_value(args@, flag@),
{
    let mut i: usize = 0;
    while i < args.len()
        invariant
            i <= args.len(),
            forall|j: int| 0 <= j < i ==> (#[trigger] args@[j])@ != flag@,
        decreases args.len() - i,
    {
        if same(args[i].as_str(), flag) {
            proof {
                lemma_first_where(args@, arg_is(flag@), i as int);
            }
            if i + 1 < args.len() {
                return Some(args[i + 1].clone());
            }
            return None;
        }
        i += 1;
    }
    proof {
        lemma_no_first(args@, arg_is(flag@));
    }
    None
}

/// Returns the socket named by `-L`.
pub fn extract_socket_arg(args: &Vec<String>) -> (r: Option<String>)
    ensures
        opt_view(r) == flag_value(args@, "-L"@),
{
    value_of_flag(args, "-L")
}

/// The session that a command is for: the socket of a new workspace, else
/// what `-s` names.
pub open spec fn session_name_of(cmd: CliCommand, args: Seq<String>) -> Option<Seq<char>> {
    match cmd {
        CliCommand::NewWorkspace { socket: Some(s) } => Some(s@),
        _ => flag_value(args, "-s"@),
    }
}

/// Returns the session that a command is for.
pub fn extract_session_name(cmd: &CliCommand, args: &Vec<String>) -> (r: Option<String>)
    ensures
        opt_view(r) == session_name_of(*cmd, args@),
{
    if let CliCommand::NewWorkspace { socket } = cmd {
        if let Some(s) = socket {
            return Some(s.clone());
        }
    }
    value_of_flag(args, "-s")
}

// ---------------------------------------------------------------------------
// The route.
// ---------------------------------------------------------------------------

/// Who handles a command.
#[derive(Debug, Clone, PartialEq, Eq)]
pub enum CliRoute {
    /// The configuration commands.
    Config,
    /// The daemon of a session.
    Daemon { name: String, tmux_socket: Option<String> },
    /// A tmux server.
    Tmux { socket: String },
    /// A shell that lives for this command only.
    Ephemeral,
}

/// Tells whether the arguments are for the structured tmux commands.
pub fn is_tmux_cli(args: &Vec<String>) -> (r: bool)
    ensures
        r == (args@.len() > 0 && args@[0]@ == "tmux"@),
{
    args.len() > 0 && same(args[0].as_str(), "tmux")
}

/// Decides who handles a command.
pub fn route(cmd: &CliCommand, args: &Vec<String>) -> (r: CliRoute)
    ensures
        match r {
            CliRoute::Config => *cmd is Config,
            CliRoute::Daemon { name, tmux_socket } => *cmd !is Config && session_name_of(*cmd, args@)
                == Some(name@) && opt_view(tmux_socket) == flag_value(args@, "-L"@),
            CliRoute::Tmux { socket } => *cmd !is Config && session_name_of(*cmd, args@) is None
                && flag_value(args@, "-L"@) == Some(socket@),
            CliRoute::Ephemeral => *cmd !is Config && session_name_of(*cmd, args@) is None
                && flag_value(args@, "-L"@) is None,
        },
{
    if let CliCommand::Config { .. } = cmd {
        return CliRoute::Config;
    }
    let socket = extract_socket_arg(args);
    match extract_session_name(cmd, args) {
        Some(name) => CliRoute::Daemon { name, tmux_socket: socket },
        None => match socket {
            Some(socket) => CliRoute::Tmux { socket },
            None => CliRoute::Ephemeral,
        },
    }
}

// ---------------------------------------------------------------------------
// Connecting.
// ---------------------------------------------------------------------------

/// A short-lived connection for one command.
#[derive(Debug, Clone, PartialEq, Eq)]
pub struct FfiCliSession {
    pub workspace_id: String,
}

pub open spec fn workspace_active() -> spec_fn(ClientWorkspace) -> bool {
    |w: ClientWorkspace| w.active
}

pub open spec fn session_named(name: Seq<char>) -> spec_fn(TmuxSessionEntry) -> bool {
    |s: TmuxSessionEntry| s.name@ == name
}

/// The workspace that a command is for: the active one, else the first.
pub open spec fn chosen_workspace(workspaces: Seq<ClientWorkspace>) -> Option<ClientWorkspace> {
    match find(workspaces, workspace_active()) {
        Some(w) => Some(w),
        None => if workspaces.len() > 0 {
            Some(workspaces[0])
        } else {
            None
        },
    }
}

/// The directory in which a runtime starts; only a local shell is given one.
pub fn start_directory(runtime: &str) -> (r: Option<&'static str>)
    ensures
        r is Some <==> runtime@ == "local"@,
        r matches Some(d) ==> d@ == ""@,
{
    if same(runtime, "local") {
        Some("")
    } else {
        None
    }
}

/// The session that a tmux command attaches to, where it names one.
pub open spec fn attach_target(cmd: CliCommand, session_name: Option<Seq<char>>) -> Option<
    Seq<char>,
> {
    match cmd {
        CliCommand::AttachWorkspace { target } => Some(target@),
        _ => session_name,
    }
}

/// What to do before a tmux client connects.
#[derive(Debug, Clone, PartialEq, Eq)]
pub struct TmuxSelection {
    /// The session to connect to.
    pub session: Option<String>,
    /// The session has to be made first.
    pub create: bool,
}

/// Chooses the tmux session for a command: the one that it names, which is
/// made where it is missing and the command does not just attach, else the
/// first of the server.
pub fn select_tmux_session(
    cmd: &CliCommand,
    session_name: &Option<String>,
    sessions: &Vec<TmuxSessionEntry>,
) -> (r: TmuxSelection)
    ensures
        match attach_target(*cmd, opt_view(*session_name)) {
            Some(target) => {
                &&& opt_view(r.session) == Some(target)
                &&& r.create == (find(sessions@, session_named(target)) is None && *cmd
                    !is AttachWorkspace)
            },
            None => {
                &&& opt_view(r.session) == if sessions@.len() > 0 {
                    Some(sessions@[0].name@)
                } else {
                    None
                }
                &&& !r.create
            },
        },
{
    let (target, attach_only): (Option<String>, bool) = match cmd {
        CliCommand::AttachWorkspace { target } => (Some(target.clone()), true),
        _ => (clone_opt(session_name), false),
    };
    match target {
        Some(target) => {
            let found = has_session(sessions, target.as_str());
            TmuxSelection { session: Some(target), create: !found && !attach_only }
        },
        None => {
            let first = if sessions.len() > 0 {
                Some(sessions[0].name.clone())
            } else {
                None
            };
            TmuxSelection { session: first, create: false }
        },
    }
}

fn has_session(sessions: &Vec<TmuxSessionEntry>, name: &str) -> (r: bool)
    ensures
        r == (find(sessions@, session_named(name@)) is Some),
{
    let mut i: usize = 0;
    while i < sessions.len()
        invariant
            i <= sessions.len(),
            forall|j: int| 0 <= j < i ==> (#[trigger] sessions@[j]).name@ != name@,
        decreases sessions.len() - i,
    {
        if same(sessions[i].name.as_str(), name) {
            proof {
                lemma_first_where(sessions@, session_named(name@), i as int);
            }
            return true;
        }
        i += 1;
    }
    proof {
        lemma_no_first(sessions@, session_named(name@));
    }
    false
}

/// Tells whether a snapshot of a pane is among the events.
pub fn has_pane_snapshot(events: &Vec<ClientWorkspaceEvent>, pane_id: u32) -> (r: bool)
    ensures
        r == exists|i: int|
            0 <= i < events@.len() && (#[trigger] events@[i]).event.pane_id == pane_id && kind_of(
                events@[i].event.type_,
            ) is PaneSnapshot,
{
    let mut i: usize = 0;
    while i < events.len()
        invariant
            i <= events.len(),
            forall|j: int|
                0 <= j < i ==> !((#[trigger] events@[j]).event.pane_id == pane_id && kind_of(
                    events@[j].event.type_,
                ) is PaneSnapshot),
        decreases events.len() - i,
    {
        if events[i].event.pane_id == pane_id {
            match events[i].event.kind() {
                ClientEventKind::PaneSnapshot => {
                    return true;
                },
                _ => {},
            }
        }
        i += 1;
    }
    false
}

// ---------------------------------------------------------------------------
// Running.
// ---------------------------------------------------------------------------

/// What a command does once it is connected.
#[derive(Debug, Clone, PartialEq, Eq)]
pub enum CommandPlan {
    /// Nothing: the command only queries.
    Done,
    /// One call; `operation` names it in an error.
    Call { operation: &'static str, call: CoreCall },
    /// The command cannot run.
    Fail(&'static str),
}

/// The view of a [`CommandPlan`].
pub enum CommandPlanView {
    Done,
    Call { operation: Seq<char>, call: CoreCallView },
    Fail(Seq<char>),
}

impl View for CommandPlan {
    type V = CommandPlanView;

    open spec fn view(&self) -> CommandPlanView {
        match *self {
            CommandPlan::Done => CommandPlanView::Done,
            CommandPlan::Call { operation, call } => CommandPlanView::Call {
                operation: operation@,
                call: call@,
            },
            CommandPlan::Fail(message) => CommandPlanView::Fail(message@),
        }
    }
}

/// Either of two.
pub open spec fn or_else(a: Option<u32>, b: Option<u32>) -> Option<u32> {
    match a {
        Some(x) => Some(x),
        None => b,
    }
}

fn either(a: Option<u32>, b: Option<u32>) -> (r: Option<u32>)
    ensures
        r == or_else(a, b),
{
    match a {
        Some(x) => Some(x),
        None => b,
    }
}

/// A task for the workspace.
pub open spec fn task_plan(workspace: Seq<char>, task: ClientTask) -> CommandPlanView {
    CommandPlanView::Call {
        operation: "task"@,
        call: CoreCallView::ExecuteWorkspace {
            workspace_id: c_text(workspace),
            task: ffi_task(task),
        },
    }
}

/// Input for a pane of the workspace; empty input calls nothing.
pub open spec fn input_plan(
    operation: Seq<char>,
    workspace: Seq<char>,
    pane: u32,
    data: Seq<u8>,
) -> CommandPlanView {
    CommandPlanView::Call {
        operation,
        call: if data.len() == 0 {
            CoreCallView::Nothing
        } else {
            CoreCallView::WorkspaceSendInput { workspace_id: c_text(workspace), pane_id: pane, data }
        },
    }
}

/// What a command does, given the active tab and pane of its workspace.
pub open spec fn plan_of(
    cmd: CliCommand,
    workspace: Seq<char>,
    active_tab: Option<u32>,
    active_pane: Option<u32>,
) -> CommandPlanView {
    let no_tab = CommandPlanView::Fail("Core returned no active tab"@);
    let no_pane = CommandPlanView::Fail("Core returned no active pane"@);
    match cmd {
        CliCommand::CloseWorkspace => task_plan(workspace, ClientTask::Shutdown),
        CliCommand::Detach => task_plan(workspace, ClientTask::Detach),
        CliCommand::RenameWorkspace { new_name } => CommandPlanView::Call {
            operation: "rename workspace"@,
            call: CoreCallView::ExecuteWorkspace {
                workspace_id: c_text(workspace),
                task: CTaskView {
                    type_: TASK_RENAME_WORKSPACE,
                    target_pane: 0,
                    target_tab: 0,
                    dir: 0,
                    name: Some(c_text(new_name@)),
                },
            },
        },
        CliCommand::NewTab { name } => CommandPlanView::Call {
            operation: "new tab"@,
            call: CoreCallView::ExecuteWorkspace {
                workspace_id: c_text(workspace),
                task: CTaskView {
                    type_: TASK_NEW_TAB,
                    target_pane: 0,
                    target_tab: 0,
                    dir: 0,
                    name: match name {
                        Some(n) => Some(c_text(n@)),
                        None => None,
                    },
                },
            },
        },
        CliCommand::KillTab { target } => match or_else(target, active_tab) {
            Some(tab_id) => task_plan(workspace, ClientTask::CloseTab { tab_id }),
            None => no_tab,
        },
        CliCommand::SelectTab { target } => task_plan(
            workspace,
            ClientTask::SwitchTab { tab_id: target },
        ),
        CliCommand::RenameTab { new_name } => match active_tab {
            Some(tab_id) => CommandPlanView::Call {
                operation: "rename tab"@,
                call: CoreCallView::ExecuteWorkspace {
                    workspace_id: c_text(workspace),
                    task: CTaskView {
                        type_: TASK_RENAME_TAB,
                        target_pane: 0,
                        target_tab: tab_id,
                        dir: 0,
                        name: Some(c_text(new_name@)),
                    },
                },
            },
            None => no_tab,
        },
        CliCommand::SplitPane { horizontal, target } => match or_else(target, active_pane) {
            Some(pane_id) => task_plan(workspace, ClientTask::SplitPane { pane_id, horizontal }),
            None => no_pane,
        },
        CliCommand::KillPane { target } => match or_else(target, active_pane) {
            Some(pane_id) => task_plan(workspace, ClientTask::ClosePane { pane_id }),
            None => no_pane,
        },
        CliCommand::SelectPane { target } => task_plan(
            workspace,
            ClientTask::SwitchPane { pane_id: target },
        ),
        CliCommand::ResizePane { target, width: Some(cols), height: Some(rows) } =>
            CommandPlanView::Call {
            operation: "resize pane"@,
            call: CoreCallView::WorkspaceResizePane {
                workspace_id: c_text(workspace),
                pane_id: target,
                cols,
                rows,
            },
        },
        CliCommand::ResizePane { target, width: Some(size), height: None } =>
            CommandPlanView::Call {
            operation: "resize pane axis"@,
            call: CoreCallView::WorkspaceResizePaneAxis {
                workspace_id: c_text(workspace),
                pane_id: target,
                axis: direction(true),
                size,
            },
        },
        CliCommand::ResizePane { target, width: None, height: Some(size) } =>
            CommandPlanView::Call {
            operation: "resize pane axis"@,
            call: CoreCallView::WorkspaceResizePaneAxis {
                workspace_id: c_text(workspace),
                pane_id: target,
                axis: direction(false),
                size,
            },
        },
        CliCommand::ResizePane { target, width: None, height: None } => CommandPlanView::Fail(
            "resize pane requires a size"@,
        ),
        CliCommand::ResizeClient { width, height } => CommandPlanView::Call {
            operation: "resize client"@,
            call: CoreCallView::WorkspaceResizeClient {
                workspace_id: c_text(workspace),
                cols: width,
                rows: height,
            },
        },
        CliCommand::SendKeys { target, text } => match or_else(target, active_pane) {
            Some(pane) => input_plan("send keys"@, workspace, pane, encode_utf8(text@)),
            None => no_pane,
        },
        CliCommand::WriteRaw { target, data } => match or_else(target, active_pane) {
            Some(pane) => input_plan("write raw"@, workspace, pane, data@),
            None => no_pane,
        },
        _ => CommandPlanView::Done,
    }
}

/// The command only asks; it changes nothing.
pub open spec fn only_queries(cmd: CliCommand) -> bool {
    ||| cmd is Config
    ||| cmd is NewWorkspace
    ||| cmd is AttachWorkspace
    ||| cmd is ListWorkspaces
    ||| cmd is ListTabs
    ||| cmd is ListPanes
    ||| cmd is ListLayout
    ||| cmd is CapturePane
    ||| cmd is DisplayMessage
    ||| cmd is PollEvents
}

impl FfiCliSession {
    /// Chooses the workspace: the active one, else the first. Without any
    /// there is an error.
    pub fn connect(workspaces: &Vec<ClientWorkspace>) -> (r: Result<FfiCliSession, &'static str>)
        ensures
            match chosen_workspace(workspaces@) {
                Some(w) => r matches Ok(s) && s.workspace_id == w.id,
                None => r matches Err(e) && e@ == "Core returned no CLI workspace"@,
            },
    {
        let mut i: usize = 0;
        while i < workspaces.len()
            invariant
                i <= workspaces.len(),
                forall|j: int| 0 <= j < i ==> !(#[trigger] workspaces@[j]).active,
            decreases workspaces.len() - i,
        {
            if workspaces[i].active {
                proof {
                    lemma_first_where(workspaces@, workspace_active(), i as int);
                }
                return Ok(FfiCliSession { workspace_id: workspaces[i].id.clone() });
            }
            i += 1;
        }
        proof {
            lemma_no_first(workspaces@, workspace_active());
        }
        if workspaces.len() > 0 {
            Ok(FfiCliSession { workspace_id: workspaces[0].id.clone() })
        } else {
            Err("Core returned no CLI workspace")
        }
    }

    /// The pane whose snapshot a command has to wait for, where it reads or
    /// writes one.
    pub fn prepare_for_command(cmd: &CliCommand, active_pane: Option<u32>) -> (r: Option<u32>)
        ensures
            r == match *cmd {
                CliCommand::SendKeys { target, .. } => or_else(target, active_pane),
                CliCommand::WriteRaw { target, .. } => or_else(target, active_pane),
                CliCommand::CapturePane { target, .. } => or_else(target, active_pane),
                _ => None,
            },
    {
        match cmd {
            CliCommand::SendKeys { target, .. } => either(*target, active_pane),
            CliCommand::WriteRaw { target, .. } => either(*target, active_pane),
            CliCommand::CapturePane { target, .. } => either(*target, active_pane),
            _ => None,
        }
    }

    /// Runs a task in the workspace.
    pub fn execute(&self, task: ClientTask) -> (r: CommandPlan)
        ensures
            r@ == task_plan(self.workspace_id@, task),
    {
        CommandPlan::Call {
            operation: "task",
            call: FfiClient::execute_workspace_task(self.workspace_id.as_str(), task),
        }
    }

    /// Turns the answer to a call into success or an error that names it.
    pub fn check_code(operation: &str, code: i32) -> (r: Result<(), String>)
        ensures
            r is Ok <==> code == 0,
            r matches Err(e) ==> e@ == "Core FFI "@ + operation@ + " failed with code "@
                + signed_decimal(code as int),
    {
        if code == 0 {
            Ok(())
        } else {
            let mut message = concat3("Core FFI ", operation, " failed with code ");
            message.append(signed_decimal_string(code).as_str());
            Err(message)
        }
    }

    /// Decides what a command does.
    pub fn execute_command(
        &self,
        cmd: &CliCommand,
        active_tab: Option<u32>,
        active_pane: Option<u32>,
    ) -> (r: CommandPlan)
        ensures
            r@ == plan_of(*cmd, self.workspace_id@, active_tab, active_pane),
    {
        let workspace = self.workspace_id.as_str();
        match cmd {
            CliCommand::CloseWorkspace => self.execute(ClientTask::Shutdown),
            CliCommand::Detach => self.execute(ClientTask::Detach),
            CliCommand::RenameWorkspace { new_name } => CommandPlan::Call {
                operation: "rename workspace",
                call: FfiClient::rename_workspace(workspace, new_name.as_str()),
            },
            CliCommand::NewTab { name } => {
                let name: Option<&str> = match name {
                    Some(n) => Some(n.as_str()),
                    None => None,
                };
                CommandPlan::Call {
                    operation: "new tab",
                    call: FfiClient::new_workspace_tab(workspace, name),
                }
            },
            CliCommand::KillTab { target } => match either(*target, active_tab) {
                Some(tab_id) => self.execute(ClientTask::CloseTab { tab_id }),
                None => CommandPlan::Fail("Core returned no active tab"),
            },
            CliCommand::SelectTab { target } => self.execute(
                ClientTask::SwitchTab { tab_id: *target },
            ),
            CliCommand::RenameTab { new_name } => match active_tab {
                Some(tab_id) => CommandPlan::Call {
                    operation: "rename tab",
                    call: FfiClient::rename_workspace_tab(workspace, tab_id, new_name.as_str()),
                },
                None => CommandPlan::Fail("Core returned no active tab"),
            },
            CliCommand::SplitPane { horizontal, target } => match either(*target, active_pane) {
                Some(pane_id) => self.execute(
                    ClientTask::SplitPane { pane_id, horizontal: *horizontal },
                ),
                None => CommandPlan::Fail("Core returned no active pane"),
            },
            CliCommand::KillPane { target } => match either(*target, active_pane) {
                Some(pane_id) => self.execute(ClientTask::ClosePane { pane_id }),
                None => CommandPlan::Fail("Core returned no active pane"),
            },
            CliCommand::SelectPane { target } => self.execute(
                ClientTask::SwitchPane { pane_id: *target },
            ),
            CliCommand::ResizePane { target, width, height } => match (*width, *height) {
                (Some(cols), Some(rows)) => CommandPlan::Call {
                    operation: "resize pane",
                    call: FfiClient::resize_workspace_pane(workspace, *target, cols, rows),
                },
                (Some(size), None) => CommandPlan::Call {
                    operation: "resize pane axis",
                    call: FfiClient::resize_workspace_pane_axis(
                        workspace,
                        *target,
                        ClientResizeAxis::Horizontal,
                        size,
                    ),
                },
                (None, Some(size)) => CommandPlan::Call {
                    operation: "resize pane axis",
                    call: FfiClient::resize_workspace_pane_axis(
                        workspace,
                        *target,
                        ClientResizeAxis::Vertical,
                        size,
                    ),
                },
                (None, None) => CommandPlan::Fail("resize pane requires a size"),
            },
            CliCommand::ResizeClient { width, height } => CommandPlan::Call {
                operation: "resize client",
                call: FfiClient::resize_workspace_client(workspace, *width, *height),
            },
            CliCommand::SendKeys { target, text } => match either(*target, active_pane) {
                Some(pane_id) => {
                    let data = text.as_str().as_bytes_vec();
                    CommandPlan::Call {
                        operation: "send keys",
                        call: FfiClient::send_workspace_input(workspace, pane_id, data),
                    }
                },
                None => CommandPlan::Fail("Core returned no active pane"),
            },
            CliCommand::WriteRaw { target, data } => match either(*target, active_pane) {
                Some(pane_id) => CommandPlan::Call {
                    operation: "write raw",
                    call: FfiClient::send_workspace_input(workspace, pane_id, copy_bytes(data)),
                },
                None => CommandPlan::Fail("Core returned no active pane"),
            },
            _ => CommandPlan::Done,
        }
    }
}

/// How long the core is left to settle after a command, in milliseconds.
pub fn command_settle_duration(cmd: &CliCommand) -> (r: u64)
    ensures
        r == if *cmd is SendKeys || *cmd is WriteRaw {
            2000u64
        } else {
            500u64
        },
{
    match cmd {
        CliCommand::SendKeys { .. } => 2000,
        CliCommand::WriteRaw { .. } => 2000,
        _ => 500,
    }
}

/// How long a daemon is left to settle: not at all once its workspace closes.
pub fn daemon_settle_duration(cmd: &CliCommand) -> (r: Option<u64>)
    ensures
        r == if *cmd is CloseWorkspace {
            None
        } else if *cmd is SendKeys || *cmd is WriteRaw {
            Some(2000u64)
        } else {
            Some(500u64)
        },
{
    match cmd {
        CliCommand::CloseWorkspace => None,
        _ => Some(command_settle_duration(cmd)),
    }
}

/// What happens to the socket file of a daemon.
#[derive(Debug, Clone, Copy, PartialEq, Eq, Structural)]
pub enum DaemonStart {
    /// A daemon is there.
    Keep,
    /// A stale file is removed, then a daemon is started.
    Replace,
    /// A daemon is started.
    Start,
}

/// Decides what a new workspace needs, given whether the socket file exists
/// and whether something answers on it.
pub fn ensure_daemon(present: bool, alive: bool) -> (r: DaemonStart)
    ensures
        r == if !present {
            DaemonStart::Start
        } else if alive {
            DaemonStart::Keep
        } else {
            DaemonStart::Replace
        },
{
    if !present {
        DaemonStart::Start
    } else if alive {
        DaemonStart::Keep
    } else {
        DaemonStart::Replace
    }
}

/// The error for a session that has no daemon.
pub fn missing_session(name: &str, socket: &str) -> (r: String)
    ensures
        r@ == "session '"@ + name@ + "' 不存在（socket: "@ + socket@
            + "）。用 `muxterm new-session -s "@ + name@ + "` 创建。"@,
{
    let mut out = concat3("session '", name, "' 不存在（socket: ");
    out.append(socket);
    out.append("）。用 `muxterm new-session -s ");
    out.append(name);
    out.append("` 创建。");
    out
}

/// A command makes no call exactly when it only queries, or fails.
pub proof fn law_queries_change_nothing(
    cmd: CliCommand,
    workspace: Seq<char>,
    active_tab: Option<u32>,
    active_pane: Option<u32>,
)
    ensures
        plan_of(cmd, workspace, active_tab, active_pane) is Done <==> only_queries(cmd),
{
}

/// The command resizes a pane but names no size.
pub open spec fn resizes_to_nothing(cmd: CliCommand) -> bool {
    match cmd {
        CliCommand::ResizePane { target, width, height } => width is None && height is None,
        _ => false,
    }
}

/// With an active tab and an active pane the only command that fails is one
/// that resizes a pane to no size.
pub proof fn law_only_a_missing_size_fails(
    cmd: CliCommand,
    workspace: Seq<char>,
    tab: u32,
    pane: u32,
)
    ensures
        plan_of(cmd, workspace, Some(tab), Some(pane)) is Fail <==> resizes_to_nothing(cmd),
{
}

/// A command that names its pane or tab does not depend on the active ones.
pub proof fn law_named_target_wins(
    workspace: Seq<char>,
    target: u32,
    tab: Option<u32>,
    pane: Option<u32>,
    horizontal: bool,
    data: Vec<u8>,
)
    ensures
        plan_of((CliCommand::KillTab { target: Some(target) }), workspace, tab, pane) == task_plan(
            workspace,
            (ClientTask::CloseTab { tab_id: target }),
        ),
        plan_of((CliCommand::KillPane { target: Some(target) }), workspace, tab, pane) == task_plan(
            workspace,
            (ClientTask::ClosePane { pane_id: target }),
        ),
        plan_of(
            (CliCommand::SplitPane { horizontal, target: Some(target) }),
            workspace,
            tab,
            pane,
        ) == task_plan(workspace, (ClientTask::SplitPane { pane_id: target, horizontal })),
        plan_of((CliCommand::WriteRaw { target: Some(target), data }), workspace, tab, pane)
            == input_plan("write raw"@, workspace, target, data@),
{
}

} // verus!
