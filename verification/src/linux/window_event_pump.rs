//! Input that the surfaces collected on its way to the core.
use vstd::prelude::*;

use crate::client::call::copy_bytes;
use crate::command_queue::{ClientCommand, CommandQueue};
use crate::linux::connection::same_id;
use crate::linux::window_render::enqueue_workspace_input;
use crate::workspace_id::{id_text, WorkspaceId, WorkspaceIdView};

verus! {

/// Bytes that a surface took in, with the pane they belong to. A surface may
/// report late, so the owner is fixed when it is built and never looked up.
#[derive(Debug, PartialEq, Eq)]
pub struct SurfaceInput {
    pub workspace: WorkspaceId,
    pub pane: u32,
    pub data: Vec<u8>,
}

/// The view of a [`SurfaceInput`].
pub struct SurfaceInputView {
    pub workspace: WorkspaceIdView,
    pub pane: u32,
    pub data: Seq<u8>,
}

impl View for SurfaceInput {
    type V = SurfaceInputView;

    open spec fn view(&self) -> SurfaceInputView {
        SurfaceInputView { workspace: self.workspace@, pane: self.pane, data: self.data@ }
    }
}

/// The views of a series of inputs.
pub open spec fn input_views(s: Seq<SurfaceInput>) -> Seq<SurfaceInputView> {
    Seq::new(s.len(), |i: int| s[i]@)
}

/// Two inputs belong to the same pane.
pub open spec fn one_owner(a: SurfaceInputView, b: SurfaceInputView) -> bool {
    a.workspace == b.workspace && a.pane == b.pane
}

/// Adjacent inputs of one pane put together, in order.
pub open spec fn grouped(inputs: Seq<SurfaceInputView>) -> Seq<SurfaceInputView>
    decreases inputs.len(),
{
    if inputs.len() == 0 {
        Seq::<SurfaceInputView>::empty()
    } else {
        let rest = grouped(inputs.drop_last());
        let next = inputs.last();
        if rest.len() > 0 && one_owner(rest.last(), next) {
            rest.drop_last().push(
                SurfaceInputView { data: rest.last().data + next.data, ..next },
            )
        } else {
            rest.push(next)
        }
    }
}

/// The command writes the input of one group.
pub open spec fn writes(command: ClientCommand, group: SurfaceInputView) -> bool {
    command matches ClientCommand::Input { workspace_id: Some(w), pane_id, data, quiet } && w@
        == id_text(group.workspace) && pane_id == group.pane && data@ == group.data && !quiet
}

/// The commands write the groups, one by one.
pub open spec fn all_written(
    commands: Seq<ClientCommand>,
    groups: Seq<SurfaceInputView>,
) -> bool {
    commands.len() == groups.len() && forall|i: int|
        0 <= i < groups.len() ==> writes(#[trigger] commands[i], groups[i])
}

/// Takes everything that waits in the queue.
pub fn take_surface_input(queue: &mut Vec<SurfaceInput>) -> (r: Vec<SurfaceInput>)
    ensures
        r@ == old(queue)@,
        final(queue)@ == Seq::<SurfaceInput>::empty(),
{
    let mut taken: Vec<SurfaceInput> = Vec::new();
    taken.append(queue);
    assert(taken@ =~= old(queue)@);
    taken
}

fn group_inputs(pending: Vec<SurfaceInput>) -> (r: Vec<SurfaceInput>)
    ensures
        input_views(r@) == grouped(input_views(pending@)),
{
    let ghost all = input_views(pending@);
    let mut rest = pending;
    let mut groups: Vec<SurfaceInput> = Vec::new();
    let ghost mut i: int = 0;
    assert(input_views(groups@) =~= grouped(all.take(0)));
    assert(input_views(rest@) =~= all.skip(0));
    while rest.len() > 0
        invariant
            0 <= i <= all.len(),
            input_views(rest@) == all.skip(i),
            input_views(groups@) == grouped(all.take(i)),
        decreases rest.len(),
    {
        let ghost before = input_views(groups@);
        let ghost waiting = rest@;
        assert(input_views(waiting).len() == all.len() - i);
        assert(input_views(waiting)[0] == all.skip(i)[0]);
        let mut next = rest.remove(0);
        proof {
            assert(next@ == all[i]);
            assert(all.take(i + 1).drop_last() =~= all.take(i));
            assert(all.take(i + 1).last() == next@);
            assert(input_views(rest@) =~= all.skip(i + 1)) by {
                assert forall|k: int| 0 <= k < rest@.len() implies rest@[k]@ == all[i + 1 + k] by {
                    assert(rest@[k] == waiting[k + 1]);
                    assert(input_views(waiting)[k + 1] == all.skip(i)[k + 1]);
                }
            }
        }
        let n: usize = groups.len();
        if n > 0 && groups[n - 1].pane == next.pane && same_id(
            &groups[n - 1].workspace,
            &next.workspace,
        ) {
            let mut last = match groups.pop() {
                Some(last) => last,
                None => {
                    return groups;
                },
            };
            let ghost joined = last.data@ + next.data@;
            last.data.append(&mut next.data);
            groups.push(SurfaceInput { workspace: next.workspace, pane: next.pane, data: last.data });
            proof {
                assert(groups@.last()@.data =~= joined);
                assert(input_views(groups@) =~= grouped(all.take(i + 1)));
            }
        } else {
            assert(before.len() > 0 ==> before.last() == groups@[n - 1]@);
            groups.push(next);
            assert(input_views(groups@) =~= before.push(groups@.last()@));
        }
        proof {
            i = i + 1;
        }
    }
    assert(all.take(i) =~= all);
    groups
}

/// Queues the input that the surfaces collected: adjacent input of one pane
/// goes out as one write. Returns what was written last.
pub fn drain_surface_input(pending: Vec<SurfaceInput>, queue: &mut CommandQueue) -> (r: Option<
    Vec<u8>,
>)
    ensures
        exists|commands: Seq<ClientCommand>|
            final(queue)@ == old(queue)@ + commands && #[trigger] all_written(
                commands,
                grouped(input_views(pending@)),
            ),
        match r {
            Some(last) => pending@.len() > 0 && last@ == grouped(input_views(pending@)).last().data,
            None => pending@.len() == 0,
        },
{
    let ghost wanted = grouped(input_views(pending@));
    proof {
        lemma_groups_nonempty(input_views(pending@));
        assert(input_views(pending@).len() == pending@.len());
    }
    let groups = group_inputs(pending);
    let ghost start = queue@;
    let ghost mut commands = Seq::<ClientCommand>::empty();
    let mut last: Option<Vec<u8>> = None;
    let mut i: usize = 0;
    assert(start + commands =~= start);
    while i < groups.len()
        invariant
            i <= groups.len(),
            wanted == input_views(groups@),
            queue@ == start + commands,
            commands.len() == i,
            forall|k: int| 0 <= k < i ==> writes(#[trigger] commands[k], wanted[k]),
            match last {
                Some(data) => i > 0 && data@ == wanted[i - 1].data,
                None => i == 0,
            },
        decreases groups.len() - i,
    {
        let group = &groups[i];
        let key = group.workspace.as_str();
        let data = copy_bytes(&group.data);
        last = Some(copy_bytes(&group.data));
        let ghost before = queue@;
        enqueue_workspace_input(queue, key.as_str(), group.pane, data, false);
        proof {
            let added = queue@.last();
            assert(queue@ =~= before.push(added));
            assert(queue@ =~= start + commands.push(added));
            commands = commands.push(added);
        }
        i += 1;
    }
    assert(all_written(commands, wanted));
    last
}

proof fn lemma_groups_nonempty(inputs: Seq<SurfaceInputView>)
    ensures
        grouped(inputs).len() == 0 <==> inputs.len() == 0,
{
}

/// The bytes that belong to the pane of `owner`, in order.
pub open spec fn bytes_for(inputs: Seq<SurfaceInputView>, owner: SurfaceInputView) -> Seq<u8>
    decreases inputs.len(),
{
    if inputs.len() == 0 {
        Seq::<u8>::empty()
    } else {
        bytes_for(inputs.drop_last(), owner) + (if one_owner(inputs.last(), owner) {
            inputs.last().data
        } else {
            Seq::<u8>::empty()
        })
    }
}

/// Putting inputs together loses no byte, moves none to another pane and
/// keeps the order within each pane.
pub proof fn law_grouping_keeps_bytes(inputs: Seq<SurfaceInputView>, owner: SurfaceInputView)
    ensures
        bytes_for(grouped(inputs), owner) == bytes_for(inputs, owner),
    decreases inputs.len(),
{
    if inputs.len() > 0 {
        let rest = grouped(inputs.drop_last());
        let next = inputs.last();
        let all = grouped(inputs);
        law_grouping_keeps_bytes(inputs.drop_last(), owner);
        if rest.len() > 0 && one_owner(rest.last(), next) {
            assert(all.drop_last() =~= rest.drop_last());
            assert(bytes_for(all, owner) =~= bytes_for(rest, owner) + (if one_owner(next, owner) {
                next.data
            } else {
                Seq::<u8>::empty()
            }));
        } else {
            assert(all.drop_last() =~= rest);
        }
    }
}

/// No two neighbouring writes go to the same pane.
pub proof fn law_neighbours_have_different_owners(inputs: Seq<SurfaceInputView>, i: int)
    requires
        0 <= i < grouped(inputs).len() - 1,
    ensures
        !one_owner(grouped(inputs)[i], grouped(inputs)[i + 1]),
    decreases inputs.len(),
{
    let rest = grouped(inputs.drop_last());
    let next = inputs.last();
    let all = grouped(inputs);
    if i + 1 < rest.len() {
        law_neighbours_have_different_owners(inputs.drop_last(), i);
        if rest.len() > 0 && one_owner(rest.last(), next) {
            assert(all[i] == rest[i]);
            if i + 1 < rest.len() - 1 {
                assert(all[i + 1] == rest[i + 1]);
            } else {
                assert(one_owner(all[i + 1], rest[i + 1]));
            }
        } else {
            assert(all[i] == rest[i]);
            assert(all[i + 1] == rest[i + 1]);
        }
    } else {
        assert(all =~= rest.push(next));
        assert(all[i] == rest.last());
    }
}

} // verus!
