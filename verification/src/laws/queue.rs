//! Batching: what the queue keeps of the commands that were put in.
use vstd::prelude::*;

use crate::client::call::{ffi_task, CoreCallView};
use crate::client::types::ClientTask;
use crate::command_queue::{call_of, merges, pushed, queue_of, ClientCommand};
use crate::text::opt_view;

verus! {

/// The last command for which `p` holds.
pub open spec fn last_where(
    s: Seq<ClientCommand>,
    p: spec_fn(ClientCommand) -> bool,
) -> Option<ClientCommand>
    decreases s.len(),
{
    if s.len() == 0 {
        None
    } else if p(s.last()) {
        Some(s.last())
    } else {
        last_where(s.drop_last(), p)
    }
}

/// A size for a pane of a workspace, or for the whole of it.
pub open spec fn resizes(workspace: Option<Seq<char>>, pane: Option<u32>) -> spec_fn(
    ClientCommand,
) -> bool {
    |c: ClientCommand|
        c matches ClientCommand::Resize { workspace_id, pane_id, .. } && opt_view(workspace_id)
            == workspace && pane_id == pane
}

/// A switch of the tab of a workspace.
pub open spec fn switches(workspace: Option<Seq<char>>) -> spec_fn(ClientCommand) -> bool {
    |c: ClientCommand|
        c matches ClientCommand::Task { workspace_id, task: ClientTask::SwitchTab { .. } }
            && opt_view(workspace_id) == workspace
}

/// A switch to a workspace.
pub open spec fn activates() -> spec_fn(ClientCommand) -> bool {
    |c: ClientCommand| c is ActivateWorkspace
}

/// A command that nothing takes the place of: input, closing a workspace, and
/// every task but a switch of tabs.
pub open spec fn stays() -> spec_fn(ClientCommand) -> bool {
    |c: ClientCommand|
        match c {
            ClientCommand::Input { .. } => true,
            ClientCommand::CloseWorkspace(_) => true,
            ClientCommand::Task { task, .. } => !(task is SwitchTab),
            _ => false,
        }
}

proof fn lemma_last_of_queue(commands: Seq<ClientCommand>, p: spec_fn(ClientCommand) -> bool)
    requires
        forall|a: ClientCommand, b: ClientCommand| #[trigger] merges(a, b) && p(a) ==> p(b),
    ensures
        last_where(queue_of(commands), p) == last_where(commands, p),
    decreases commands.len(),
{
    if commands.len() > 0 {
        let init = commands.drop_last();
        let c = commands.last();
        let q = queue_of(init);
        lemma_last_of_queue(init, p);
        let r = pushed(q, c);
        assert(r.last() == c);
        if q.len() > 0 && merges(q.last(), c) {
            assert(r.drop_last() =~= q.drop_last());
        } else {
            assert(r.drop_last() =~= q);
        }
    }
}

/// For every pane of every workspace, and for every workspace as a whole, the
/// last size in the queue is the last size that was put in; there is one in the
/// queue exactly where one was put in.
pub proof fn law_every_target_gets_its_last_size(
    commands: Seq<ClientCommand>,
    workspace: Option<Seq<char>>,
    pane: Option<u32>,
)
    ensures
        last_where(queue_of(commands), resizes(workspace, pane)) == last_where(
            commands,
            resizes(workspace, pane),
        ),
{
    lemma_last_of_queue(commands, resizes(workspace, pane));
}

/// For every workspace the last switch of tabs in the queue is the last one
/// that was put in.
pub proof fn law_every_workspace_gets_its_last_tab(
    commands: Seq<ClientCommand>,
    workspace: Option<Seq<char>>,
)
    ensures
        last_where(queue_of(commands), switches(workspace)) == last_where(
            commands,
            switches(workspace),
        ),
{
    lemma_last_of_queue(commands, switches(workspace));
}

/// The last workspace to switch to is the last one that was put in.
pub proof fn law_the_last_workspace_is_activated(commands: Seq<ClientCommand>)
    ensures
        last_where(queue_of(commands), activates()) == last_where(commands, activates()),
{
    lemma_last_of_queue(commands, activates());
}

/// Input, closings and all tasks but switches of tabs are all kept, in their
/// order.
pub proof fn law_what_cannot_be_superseded_is_kept(commands: Seq<ClientCommand>)
    ensures
        queue_of(commands).filter(stays()) == commands.filter(stays()),
    decreases commands.len(),
{
    reveal(Seq::filter);
    if commands.len() > 0 {
        let f = stays();
        let init = commands.drop_last();
        let c = commands.last();
        let q = queue_of(init);
        law_what_cannot_be_superseded_is_kept(init);
        let r = pushed(q, c);
        assert(r.last() == c);
        if q.len() > 0 && merges(q.last(), c) {
            assert(r.drop_last() =~= q.drop_last());
            assert(!f(q.last()) && !f(c));
            assert(q.filter(f) == q.drop_last().filter(f));
            assert(r.filter(f) == r.drop_last().filter(f));
        } else {
            assert(r.drop_last() =~= q);
        }
    }
}

/// Two sizes for different panes, or in different workspaces, both stay; two
/// for the same one leave the second.
pub proof fn law_two_sizes(
    queue: Seq<ClientCommand>,
    v: Option<String>,
    w: Option<String>,
    p: Option<u32>,
    q: Option<u32>,
    cols: u16,
    rows: u16,
    c: u16,
    r: u16,
)
    ensures
        ({
            let first = ClientCommand::Resize { workspace_id: v, pane_id: p, cols, rows };
            let second = ClientCommand::Resize { workspace_id: w, pane_id: q, cols: c, rows: r };
            let both = pushed(pushed(queue, first), second);
            let n = both.len() as int;
            &&& n >= 1 && both[n - 1] == second
            &&& opt_view(v) != opt_view(w) || p != q ==> n >= 2 && both[n - 2] == first && n
                == pushed(queue, first).len() + 1
            &&& opt_view(v) == opt_view(w) && p == q ==> n == pushed(queue, first).len()
        }),
{
}

/// Two switches of tabs: of different workspaces both stay, of the same one
/// the second.
pub proof fn law_two_switches(
    queue: Seq<ClientCommand>,
    v: Option<String>,
    w: Option<String>,
    a: u32,
    b: u32,
)
    ensures
        ({
            let first = ClientCommand::Task {
                workspace_id: v,
                task: ClientTask::SwitchTab { tab_id: a },
            };
            let second = ClientCommand::Task {
                workspace_id: w,
                task: ClientTask::SwitchTab { tab_id: b },
            };
            let both = pushed(pushed(queue, first), second);
            let n = both.len() as int;
            &&& n >= 1 && both[n - 1] == second
            &&& opt_view(v) != opt_view(w) ==> n >= 2 && both[n - 2] == first
            &&& opt_view(v) == opt_view(w) ==> n == pushed(queue, first).len()
        }),
{
}

/// Of two activations in a row only the second stays, whatever they activate.
pub proof fn law_two_activations(queue: Seq<ClientCommand>, a: String, b: String)
    ensures
        ({
            let first = ClientCommand::ActivateWorkspace(a);
            let second = ClientCommand::ActivateWorkspace(b);
            let one = pushed(queue, first);
            let both = pushed(one, second);
            &&& both.len() == one.len()
            &&& both.last() == second
            &&& both.drop_last() == one.drop_last()
        }),
{
    let first = ClientCommand::ActivateWorkspace(a);
    let second = ClientCommand::ActivateWorkspace(b);
    let one = pushed(queue, first);
    assert(pushed(one, second).drop_last() =~= one.drop_last());
}

/// A command of another kind than the last one is put behind it.
pub proof fn law_different_kinds_stay_apart(
    queue: Seq<ClientCommand>,
    a: ClientCommand,
    b: ClientCommand,
)
    requires
        queue.len() > 0,
        queue.last() == a,
        a is Resize ==> !(b is Resize),
        a is ActivateWorkspace ==> !(b is ActivateWorkspace),
        a is Task ==> !(b is Task) || !(a->task is SwitchTab) || !(b->task is SwitchTab),
    ensures
        pushed(queue, b) == queue.push(b),
{
}

/// What is in the queue was put in, in the same order: `at` are the places of
/// the commands that are left.
pub proof fn law_the_queue_is_a_selection(commands: Seq<ClientCommand>) -> (at: Seq<int>)
    ensures
        at.len() == queue_of(commands).len(),
        forall|i: int|
            0 <= i < at.len() ==> 0 <= #[trigger] at[i] < commands.len() && commands[at[i]]
                == queue_of(commands)[i],
        forall|i: int, j: int| 0 <= i < j < at.len() ==> #[trigger] at[i] < #[trigger] at[j],
    decreases commands.len(),
{
    if commands.len() == 0 {
        Seq::<int>::empty()
    } else {
        let init = commands.drop_last();
        let c = commands.last();
        let q = queue_of(init);
        let p = law_the_queue_is_a_selection(init);
        let r = queue_of(commands);
        let kept = if q.len() > 0 && merges(q.last(), c) {
            p.drop_last()
        } else {
            p
        };
        let at = kept.push(commands.len() - 1);
        assert forall|i: int| 0 <= i < at.len() implies 0 <= #[trigger] at[i] < commands.len()
            && commands[at[i]] == r[i] by {
            if i < kept.len() {
                assert(at[i] == p[i]);
                assert(init[p[i]] == q[i]);
                assert(r[i] == q[i]);
            } else {
                assert(r[i] == c);
            }
        }
        assert forall|i: int, j: int| 0 <= i < j < at.len() implies #[trigger] at[i]
            < #[trigger] at[j] by {
            assert(at[i] == p[i]);
            if j < kept.len() {
                assert(at[j] == p[j]);
            }
        }
        at
    }
}

/// Each command becomes the call of its kind, for the workspace and the pane
/// that it names, with the bytes or the size that it holds.
pub proof fn law_a_command_becomes_its_call(
    w: String,
    pane: u32,
    data: Vec<u8>,
    cols: u16,
    rows: u16,
    task: ClientTask,
)
    requires
        !w@.contains('\0'),
        data@.len() > 0,
    ensures
        call_of(
            (ClientCommand::Input { workspace_id: Some(w), pane_id: pane, data, quiet: false }),
        ) == (CoreCallView::WorkspaceSendInput { workspace_id: w@, pane_id: pane, data: data@ }),
        call_of(
            (ClientCommand::Input { workspace_id: Some(w), pane_id: pane, data, quiet: true }),
        ) == (CoreCallView::WorkspaceSendInputQuiet {
            workspace_id: w@,
            pane_id: pane,
            data: data@,
        }),
        call_of(
            (ClientCommand::Input { workspace_id: None, pane_id: pane, data, quiet: false }),
        ) == (CoreCallView::SendInput { pane_id: pane, data: data@ }),
        call_of(
            (ClientCommand::Input { workspace_id: None, pane_id: pane, data, quiet: true }),
        ) == (CoreCallView::SendInputQuiet { pane_id: pane, data: data@ }),
        call_of(
            (ClientCommand::Resize { workspace_id: Some(w), pane_id: Some(pane), cols, rows }),
        ) == (CoreCallView::WorkspaceResizePane { workspace_id: w@, pane_id: pane, cols, rows }),
        call_of((ClientCommand::Resize { workspace_id: Some(w), pane_id: None, cols, rows })) == (
        CoreCallView::WorkspaceResizeClient { workspace_id: w@, cols, rows }),
        call_of((ClientCommand::Resize { workspace_id: None, pane_id: Some(pane), cols, rows }))
            == (CoreCallView::ResizePane { pane_id: pane, cols, rows }),
        call_of((ClientCommand::Resize { workspace_id: None, pane_id: None, cols, rows })) == (
        CoreCallView::ResizeClient { cols, rows }),
        call_of(ClientCommand::ActivateWorkspace(w)) == (CoreCallView::WorkspaceActivate {
            workspace_id: w@,
        }),
        call_of(ClientCommand::CloseWorkspace(w)) == (CoreCallView::WorkspaceClose {
            workspace_id: w@,
        }),
        call_of((ClientCommand::Task { workspace_id: Some(w), task })) == (
        CoreCallView::ExecuteWorkspace { workspace_id: w@, task: ffi_task(task) }),
        call_of((ClientCommand::Task { workspace_id: None, task })) == (CoreCallView::Execute {
            task: ffi_task(task),
        }),
{
}

/// Input without bytes makes no call.
pub proof fn law_empty_input_makes_no_call(w: Option<String>, pane: u32, data: Vec<u8>, quiet: bool)
    requires
        data@.len() == 0,
    ensures
        call_of((ClientCommand::Input { workspace_id: w, pane_id: pane, data, quiet }))
            is Nothing,
{
}

} // verus!
