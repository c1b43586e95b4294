//! Commands waiting for the core.
//!
//! Event handlers put owned commands into the queue and return at once. The
//! event loop flushes one batch; navigation and resizing that follow one
//! another are merged, while input keeps its order.
use std::collections::VecDeque;

use vstd::prelude::*;

use crate::client::call::{
    c_text, ffi_task, CoreCall, CoreCallView, FfiClient,
};
use crate::client::types::ClientTask;
use crate::text::{opt_view, same_opt};

verus! {

/// One command waiting for the next flush.
#[derive(Debug, Clone, PartialEq, Eq)]
pub enum ClientCommand {
    Task { workspace_id: Option<String>, task: ClientTask },
    Input { workspace_id: Option<String>, pane_id: u32, data: Vec<u8>, quiet: bool },
    Resize { workspace_id: Option<String>, pane_id: Option<u32>, cols: u16, rows: u16 },
    ActivateWorkspace(String),
    CloseWorkspace(String),
}

/// The commands that wait for the next flush.
#[derive(Debug)]
pub struct CommandQueue {
    pending: VecDeque<ClientCommand>,
}

/// `next` takes the place of `previous`: both switch the tab of one
/// workspace, both activate a workspace, or both resize the same thing.
pub open spec fn merges(previous: ClientCommand, next: ClientCommand) -> bool {
    match (previous, next) {
        (
            ClientCommand::Task { workspace_id: a, task: ClientTask::SwitchTab { .. } },
            ClientCommand::Task { workspace_id: b, task: ClientTask::SwitchTab { .. } },
        ) => opt_view(a) == opt_view(b),
        (ClientCommand::ActivateWorkspace(_), ClientCommand::ActivateWorkspace(_)) => true,
        (
            ClientCommand::Resize { workspace_id: a, pane_id: p, .. },
            ClientCommand::Resize { workspace_id: b, pane_id: q, .. },
        ) => opt_view(a) == opt_view(b) && p == q,
        _ => false,
    }
}

/// The queue after one more command.
pub open spec fn pushed(queue: Seq<ClientCommand>, command: ClientCommand) -> Seq<ClientCommand> {
    if queue.len() > 0 && merges(queue.last(), command) {
        queue.drop_last().push(command)
    } else {
        queue.push(command)
    }
}

/// The queue after a series of commands.
pub open spec fn queue_of(commands: Seq<ClientCommand>) -> Seq<ClientCommand>
    decreases commands.len(),
{
    if commands.len() == 0 {
        Seq::<ClientCommand>::empty()
    } else {
        pushed(queue_of(commands.drop_last()), commands.last())
    }
}

/// The command writes input.
pub open spec fn is_input(command: ClientCommand) -> bool {
    command is Input
}

/// The call that a command makes.
pub open spec fn call_of(command: ClientCommand) -> CoreCallView {
    match command {
        ClientCommand::Task { workspace_id: None, task } => CoreCallView::Execute {
            task: ffi_task(task),
        },
        ClientCommand::Task { workspace_id: Some(w), task } => CoreCallView::ExecuteWorkspace {
            workspace_id: c_text(w@),
            task: ffi_task(task),
        },
        ClientCommand::Input { workspace_id, pane_id, data, quiet } => if data@.len() == 0 {
            CoreCallView::Nothing
        } else {
            match (workspace_id, quiet) {
                (Some(w), true) => CoreCallView::WorkspaceSendInputQuiet {
                    workspace_id: c_text(w@),
                    pane_id,
                    data: data@,
                },
                (Some(w), false) => CoreCallView::WorkspaceSendInput {
                    workspace_id: c_text(w@),
                    pane_id,
                    data: data@,
                },
                (None, true) => CoreCallView::SendInputQuiet { pane_id, data: data@ },
                (None, false) => CoreCallView::SendInput { pane_id, data: data@ },
            }
        },
        ClientCommand::Resize { workspace_id: Some(w), pane_id: Some(p), cols, rows } =>
            CoreCallView::WorkspaceResizePane {
            workspace_id: c_text(w@),
            pane_id: p,
            cols,
            rows,
        },
        ClientCommand::Resize { workspace_id: Some(w), pane_id: None, cols, rows } =>
            CoreCallView::WorkspaceResizeClient { workspace_id: c_text(w@), cols, rows },
        ClientCommand::Resize { workspace_id: None, pane_id: Some(p), cols, rows } =>
            CoreCallView::ResizePane { pane_id: p, cols, rows },
        ClientCommand::Resize { workspace_id: None, pane_id: None, cols, rows } =>
            CoreCallView::ResizeClient { cols, rows },
        ClientCommand::ActivateWorkspace(w) => CoreCallView::WorkspaceActivate {
            workspace_id: c_text(w@),
        },
        ClientCommand::CloseWorkspace(w) => CoreCallView::WorkspaceClose {
            workspace_id: c_text(w@),
        },
    }
}

impl View for CommandQueue {
    type V = Seq<ClientCommand>;

    closed spec fn view(&self) -> Seq<ClientCommand> {
        self.pending@
    }
}

impl Default for CommandQueue {
    fn default() -> (r: Self)
        ensures
            r@ == Seq::<ClientCommand>::empty(),
    {
        CommandQueue { pending: VecDeque::new() }
    }
}

impl CommandQueue {
    /// Adds a command; it takes the place of the last one where the two merge.
    pub fn push(&mut self, command: ClientCommand)
        ensures
            final(self)@ == pushed(old(self)@, command),
    {
        if let Some(last) = self.pending.pop_back() {
            if !coalesces(&last, &command) {
                self.pending.push_back(last);
                assert(self.pending@ =~= old(self)@);
            }
        }
        self.pending.push_back(command);
    }

    /// Tells whether no command waits.
    pub fn is_empty(&self) -> (r: bool)
        ensures
            r == (self@.len() == 0),
    {
        self.pending.len() == 0
    }

    /// Returns how many commands wait.
    pub fn len(&self) -> (r: usize)
        ensures
            r == self@.len(),
    {
        self.pending.len()
    }

    /// Takes out all commands in order.
    pub fn drain(&mut self) -> (r: Vec<ClientCommand>)
        ensures
            r@ == old(self)@,
            final(self)@ == Seq::<ClientCommand>::empty(),
    {
        let mut out: Vec<ClientCommand> = Vec::new();
        let ghost all = self.pending@;
        let n: usize = self.pending.len();
        let mut i: usize = 0;
        while i < n
            invariant
                i <= n,
                n == all.len(),
                self.pending@ == all.skip(i as int),
                out@ == all.take(i as int),
            decreases n - i,
        {
            if let Some(command) = self.pending.pop_front() {
                out.push(command);
            }
            assert(self.pending@ =~= all.skip(i + 1));
            assert(out@ =~= all.take(i + 1));
            i += 1;
        }
        assert(out@ =~= all);
        assert(self.pending@ =~= Seq::<ClientCommand>::empty());
        out
    }

    /// Takes out the batch as the calls to make, one for each command.
    pub fn flush(&mut self) -> (r: Vec<CoreCall>)
        ensures
            final(self)@ == Seq::<ClientCommand>::empty(),
            r.len() == old(self)@.len(),
            forall|i: int| 0 <= i < r.len() ==> (#[trigger] r@[i])@ == call_of(old(self)@[i]),
    {
        let ghost all = self.pending@;
        let mut out: Vec<CoreCall> = Vec::new();
        let n: usize = self.pending.len();
        let mut i: usize = 0;
        while i < n
            invariant
                i <= n,
                n == all.len(),
                self.pending@ == all.skip(i as int),
                out.len() == i,
                forall|j: int| 0 <= j < i ==> (#[trigger] out@[j])@ == call_of(all[j]),
            decreases n - i,
        {
            if let Some(command) = self.pending.pop_front() {
                assert(command == all[i as int]);
                out.push(dispatch(command));
            }
            assert(self.pending@ =~= all.skip(i + 1));
            i += 1;
        }
        assert(self.pending@ =~= Seq::<ClientCommand>::empty());
        out
    }
}

/// Tells whether `next` takes the place of `previous`.
fn coalesces(previous: &ClientCommand, next: &ClientCommand) -> (r: bool)
    ensures
        r == merges(*previous, *next),
{
    match (previous, next) {
        (
            ClientCommand::Task { workspace_id: a, task: ClientTask::SwitchTab { .. } },
            ClientCommand::Task { workspace_id: b, task: ClientTask::SwitchTab { .. } },
        ) => same_opt(a, b),
        (ClientCommand::ActivateWorkspace(_), ClientCommand::ActivateWorkspace(_)) => true,
        (
            ClientCommand::Resize { workspace_id: a, pane_id: p, .. },
            ClientCommand::Resize { workspace_id: b, pane_id: q, .. },
        ) => {
            let same_pane = match (p, q) {
                (Some(x), Some(y)) => *x == *y,
                (None, None) => true,
                _ => false,
            };
            same_opt(a, b) && same_pane
        },
        _ => false,
    }
}

/// Turns a command into the call that it makes.
pub fn dispatch(command: ClientCommand) -> (r: CoreCall)
    ensures
        r@ == call_of(command),
{
    match command {
        ClientCommand::Task { workspace_id, task } => match workspace_id {
            None => FfiClient::execute_task(task),
            Some(w) => FfiClient::execute_workspace_task(w.as_str(), task),
        },
        ClientCommand::Input { workspace_id, pane_id, data, quiet } => match workspace_id {
            Some(w) => if quiet {
                FfiClient::send_workspace_input_quiet(w.as_str(), pane_id, data)
            } else {
                FfiClient::send_workspace_input(w.as_str(), pane_id, data)
            },
            None => if quiet {
                FfiClient::send_input_quiet(pane_id, data)
            } else {
                FfiClient::send_input(pane_id, data)
            },
        },
        ClientCommand::Resize { workspace_id, pane_id, cols, rows } => match (
            workspace_id,
            pane_id,
        ) {
            (Some(w), Some(p)) => FfiClient::resize_workspace_pane(w.as_str(), p, cols, rows),
            (Some(w), None) => FfiClient::resize_workspace_client(w.as_str(), cols, rows),
            (None, Some(p)) => FfiClient::resize_pane(p, cols, rows),
            (None, None) => FfiClient::resize_client(cols, rows),
        },
        ClientCommand::ActivateWorkspace(w) => FfiClient::activate_workspace(w.as_str()),
        ClientCommand::CloseWorkspace(w) => FfiClient::close_workspace(w.as_str()),
    }
}

/// The code kept for a call that was answered with `code`: activating and
/// closing a workspace only tell success from failure.
pub fn result_code(call: &CoreCall, code: i32) -> (r: i32)
    ensures
        r == match *call {
            CoreCall::Nothing => 0,
            CoreCall::WorkspaceActivate { .. } | CoreCall::WorkspaceClose { .. } => if code == 0 {
                0
            } else {
                -1
            },
            _ => code as int,
        },
{
    match call {
        CoreCall::Nothing => 0,
        CoreCall::WorkspaceActivate { .. } => if code == 0 {
            0
        } else {
            -1
        },
        CoreCall::WorkspaceClose { .. } => if code == 0 {
            0
        } else {
            -1
        },
        _ => code,
    }
}

/// Whatever is put into the queue, the input commands come out complete and
/// in the order in which they went in.
pub proof fn law_input_keeps_order(commands: Seq<ClientCommand>)
    ensures
        queue_of(commands).filter(|c: ClientCommand| is_input(c)) == commands.filter(
            |c: ClientCommand| is_input(c),
        ),
    decreases commands.len(),
{
    reveal(Seq::filter);
    if commands.len() > 0 {
        let f = |c: ClientCommand| is_input(c);
        let init = commands.drop_last();
        let c = commands.last();
        let q = queue_of(init);
        law_input_keeps_order(init);
        let r = pushed(q, c);
        assert(r.last() == c);
        if q.len() > 0 && merges(q.last(), c) {
            assert(r.drop_last() =~= q.drop_last());
            assert(!f(q.last()) && !f(c));
            assert(q.filter(f) == q.drop_last().filter(f));
            assert(r.filter(f) == r.drop_last().filter(f));
        } else {
            assert(r.drop_last() =~= q);
        }
    }
}

/// The command put in last stands last in the queue.
pub proof fn law_last_command_stays(commands: Seq<ClientCommand>)
    requires
        commands.len() > 0,
    ensures
        queue_of(commands).len() > 0,
        queue_of(commands).last() == commands.last(),
{
}

/// No two neighbours in the queue could still be merged.
pub proof fn law_queue_is_merged(commands: Seq<ClientCommand>, i: int)
    requires
        0 <= i < queue_of(commands).len() - 1,
    ensures
        !merges(queue_of(commands)[i], queue_of(commands)[i + 1]),
    decreases commands.len(),
{
    let init = commands.drop_last();
    let c = commands.last();
    let q = queue_of(init);
    if q.len() > 0 && merges(q.last(), c) {
        if i < q.len() - 2 {
            law_queue_is_merged(init, i);
        } else {
            law_queue_is_merged(init, i);
            lemma_merge_keeps_neighbours(q[i], q.last(), c);
        }
    } else if i < q.len() - 1 {
        law_queue_is_merged(init, i);
    }
}

proof fn lemma_merge_keeps_neighbours(a: ClientCommand, b: ClientCommand, c: ClientCommand)
    requires
        !merges(a, b),
        merges(b, c),
    ensures
        !merges(a, c),
{
}

/// Merging never makes the queue longer than what was put in.
pub proof fn law_queue_not_longer(commands: Seq<ClientCommand>)
    ensures
        queue_of(commands).len() <= commands.len(),
    decreases commands.len(),
{
    if commands.len() > 0 {
        law_queue_not_longer(commands.drop_last());
    }
}

/// Two switches of the tab of one workspace leave only the second.
pub proof fn law_last_switch_wins(
    queue: Seq<ClientCommand>,
    workspace: Option<String>,
    a: u32,
    b: u32,
)
    ensures
        ({
            let first = ClientCommand::Task {
                workspace_id: workspace,
                task: ClientTask::SwitchTab { tab_id: a },
            };
            let second = ClientCommand::Task {
                workspace_id: workspace,
                task: ClientTask::SwitchTab { tab_id: b },
            };
            pushed(pushed(queue, first), second) == pushed(queue, second)
        }),
{
    let first = ClientCommand::Task {
        workspace_id: workspace,
        task: ClientTask::SwitchTab { tab_id: a },
    };
    let second = ClientCommand::Task {
        workspace_id: workspace,
        task: ClientTask::SwitchTab { tab_id: b },
    };
    assert(merges(first, second));
    assert(pushed(queue, first).last() == first);
    if queue.len() > 0 && merges(queue.last(), first) {
        assert(merges(queue.last(), second));
    }
    assert(pushed(pushed(queue, first), second) =~= pushed(queue, second));
}

} // verus!
