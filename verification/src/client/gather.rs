//! Putting a workspace together from what the core answers, call by call.
use vstd::prelude::*;

use crate::client::call::{FfiClient, PANE_CAPACITY, PANE_OUTPUT_CAPACITY};
use crate::client::query::{text_arg, CArgView, CCall, CCallView, CFunction};
use crate::client::snapshot::{
    all_panes, find_workspace, flat_panes, workspace_is, FfiWorkspaceSnapshot,
};
use crate::client::types::{ClientLayout, ClientPane, ClientTab, ClientWorkspace};
use crate::seqs::{find, lemma_first_where};

verus! {

/// The call for the panes of a tab.
pub open spec fn panes_call(workspace_id: Seq<char>, tab: u32) -> CCallView {
    CCallView {
        function: CFunction::WorkspaceGetPanes,
        args: seq![
            text_arg(workspace_id),
            CArgView::Number(tab as u64),
            CArgView::Number(PANE_CAPACITY as u64),
        ],
    }
}

/// The call for the layout of a tab.
pub open spec fn layout_call(workspace_id: Seq<char>, tab: u32) -> CCallView {
    CCallView {
        function: CFunction::WorkspaceGetLayout,
        args: seq![text_arg(workspace_id), CArgView::Number(tab as u64)],
    }
}

/// The call for the output of a pane.
pub open spec fn output_call(workspace_id: Seq<char>, pane: u32) -> CCallView {
    CCallView {
        function: CFunction::WorkspaceGetPaneOutput,
        args: seq![
            text_arg(workspace_id),
            CArgView::Number(pane as u64),
            CArgView::Number(PANE_OUTPUT_CAPACITY as u64),
        ],
    }
}

/// Returns the calls for the panes of each tab.
pub fn pane_calls(workspace_id: &str, tabs: &Vec<ClientTab>) -> (r: Vec<CCall>)
    ensures
        r@.len() == tabs@.len(),
        forall|i: int|
            0 <= i < tabs@.len() ==> (#[trigger] r@[i])@ == panes_call(workspace_id@, tabs@[i].id),
{
    let mut out: Vec<CCall> = Vec::new();
    let mut i: usize = 0;
    while i < tabs.len()
        invariant
            i <= tabs.len(),
            out@.len() == i,
            forall|j: int|
                0 <= j < i ==> (#[trigger] out@[j])@ == panes_call(workspace_id@, tabs@[j].id),
        decreases tabs.len() - i,
    {
        out.push(FfiClient::get_workspace_panes(workspace_id, tabs[i].id));
        i += 1;
    }
    out
}

/// Returns the calls for the layout of each tab.
pub fn layout_calls(workspace_id: &str, tabs: &Vec<ClientTab>) -> (r: Vec<CCall>)
    ensures
        r@.len() == tabs@.len(),
        forall|i: int|
            0 <= i < tabs@.len() ==> (#[trigger] r@[i])@ == layout_call(workspace_id@, tabs@[i].id),
{
    let mut out: Vec<CCall> = Vec::new();
    let mut i: usize = 0;
    while i < tabs.len()
        invariant
            i <= tabs.len(),
            out@.len() == i,
            forall|j: int|
                0 <= j < i ==> (#[trigger] out@[j])@ == layout_call(workspace_id@, tabs@[j].id),
        decreases tabs.len() - i,
    {
        out.push(FfiClient::get_workspace_layout(workspace_id, tabs[i].id));
        i += 1;
    }
    out
}

/// Returns the calls for the output of each pane, tab by tab.
pub fn output_calls(workspace_id: &str, panes: &Vec<(u32, Vec<ClientPane>)>) -> (r: Vec<CCall>)
    ensures
        r@.len() == all_panes(panes@).len(),
        forall|i: int|
            0 <= i < r@.len() ==> (#[trigger] r@[i])@ == output_call(
                workspace_id@,
                all_panes(panes@)[i].id,
            ),
{
    let all = flat_panes(panes);
    let mut out: Vec<CCall> = Vec::new();
    let mut i: usize = 0;
    while i < all.len()
        invariant
            i <= all.len(),
            all@ == all_panes(panes@),
            out@.len() == i,
            forall|j: int|
                0 <= j < i ==> (#[trigger] out@[j])@ == output_call(workspace_id@, all@[j].id),
        decreases all.len() - i,
    {
        out.push(FfiClient::get_workspace_pane_output(workspace_id, all[i].id));
        i += 1;
    }
    out
}

/// Answers with the numbers that they were asked for.
pub open spec fn numbered<T>(numbers: Seq<u32>, answers: Seq<T>) -> Seq<(u32, T)> {
    Seq::new(numbers.len(), |i: int| (numbers[i], answers[i]))
}

/// Puts each answer beside the number that it was asked for.
pub fn with_numbers<T>(numbers: &Vec<u32>, answers: Vec<T>) -> (r: Vec<(u32, T)>)
    requires
        numbers@.len() == answers@.len(),
    ensures
        r@ == numbered(numbers@, answers@),
{
    let ghost all = answers@;
    let mut rest = answers;
    let mut out: Vec<(u32, T)> = Vec::new();
    let mut i: usize = 0;
    assert(all.skip(0) =~= all);
    while i < numbers.len()
        invariant
            i <= numbers.len(),
            all.len() == numbers@.len(),
            rest@ == all.skip(i as int),
            out@ == numbered(numbers@, all).take(i as int),
        decreases numbers.len() - i,
    {
        let answer = rest.remove(0);
        assert(rest@ =~= all.skip(i + 1));
        assert(numbered(numbers@, all).take(i + 1) =~= numbered(numbers@, all).take(i as int).push(
            (numbers@[i as int], all[i as int]),
        ));
        out.push((numbers[i], answer));
        i += 1;
    }
    assert(out@ =~= numbered(numbers@, all));
    out
}

/// The numbers of tabs.
pub open spec fn tab_numbers(tabs: Seq<ClientTab>) -> Seq<u32> {
    tabs.map_values(|t: ClientTab| t.id)
}

/// The numbers of panes.
pub open spec fn pane_numbers(panes: Seq<ClientPane>) -> Seq<u32> {
    panes.map_values(|p: ClientPane| p.id)
}

fn numbers_of_tabs(tabs: &Vec<ClientTab>) -> (r: Vec<u32>)
    ensures
        r@ == tab_numbers(tabs@),
{
    let mut out: Vec<u32> = Vec::new();
    let mut i: usize = 0;
    while i < tabs.len()
        invariant
            i <= tabs.len(),
            out@ == tab_numbers(tabs@).take(i as int),
        decreases tabs.len() - i,
    {
        out.push(tabs[i].id);
        assert(tab_numbers(tabs@).take(i + 1) =~= tab_numbers(tabs@).take(i as int).push(
            tabs@[i as int].id,
        ));
        i += 1;
    }
    assert(out@ =~= tab_numbers(tabs@));
    out
}

fn numbers_of_panes(panes: &Vec<ClientPane>) -> (r: Vec<u32>)
    ensures
        r@ == pane_numbers(panes@),
{
    let mut out: Vec<u32> = Vec::new();
    let mut i: usize = 0;
    while i < panes.len()
        invariant
            i <= panes.len(),
            out@ == pane_numbers(panes@).take(i as int),
        decreases panes.len() - i,
    {
        out.push(panes[i].id);
        assert(pane_numbers(panes@).take(i + 1) =~= pane_numbers(panes@).take(i as int).push(
            panes@[i as int].id,
        ));
        i += 1;
    }
    assert(out@ =~= pane_numbers(panes@));
    out
}

/// The panes of each tab by the answers to the calls for them.
pub fn panes_by_tab(tabs: &Vec<ClientTab>, answers: Vec<Vec<ClientPane>>) -> (r: Vec<
    (u32, Vec<ClientPane>),
>)
    requires
        answers@.len() == tabs@.len(),
    ensures
        r@ == numbered(tab_numbers(tabs@), answers@),
{
    with_numbers(&numbers_of_tabs(tabs), answers)
}

/// Puts a workspace together: `layouts` and `outputs` are the answers to the
/// calls for them, in order. A workspace that the core does not list is an
/// error.
pub fn ffi_workspace_snapshot(
    workspaces: &Vec<ClientWorkspace>,
    workspace_id: &str,
    tabs: Vec<ClientTab>,
    panes: Vec<(u32, Vec<ClientPane>)>,
    layouts: Vec<Option<ClientLayout>>,
    outputs: Vec<Vec<u8>>,
) -> (r: Result<FfiWorkspaceSnapshot, String>)
    requires
        layouts@.len() == tabs@.len(),
        outputs@.len() == all_panes(panes@).len(),
    ensures
        match (r, find(workspaces@, workspace_is(workspace_id@))) {
            (Ok(s), Some(w)) => {
                &&& s.workspace == w
                &&& s.tabs == tabs
                &&& s.panes == panes
                &&& s.layouts@ == numbered(tab_numbers(tabs@), layouts@)
                &&& s.outputs@ == numbered(pane_numbers(all_panes(panes@)), outputs@)
            },
            (Err(text), None) => text@ == "Core workspace not found: "@ + workspace_id@,
            _ => false,
        },
{
    match find_workspace(workspaces, workspace_id) {
        Ok(workspace) => {
            let layouts = with_numbers(&numbers_of_tabs(&tabs), layouts);
            let ids = numbers_of_panes(&flat_panes(&panes));
            let outputs = with_numbers(&ids, outputs);
            Ok(FfiWorkspaceSnapshot { workspace, tabs, panes, layouts, outputs })
        },
        Err(text) => Err(text),
    }
}

/// The entry has the given number.
pub open spec fn entry_is<T>(number: u32) -> spec_fn((u32, T)) -> bool {
    |e: (u32, T)| e.0 == number
}

/// Each answer is found by the number that it was asked for, where no number
/// was asked for twice.
pub proof fn law_answer_is_found_by_its_number<T>(numbers: Seq<u32>, answers: Seq<T>, i: int)
    requires
        numbers.no_duplicates(),
        answers.len() == numbers.len(),
        0 <= i < numbers.len(),
    ensures
        find(numbered(numbers, answers), entry_is::<T>(numbers[i])) == Some(
            (numbers[i], answers[i]),
        ),
{
    let entries = numbered(numbers, answers);
    assert forall|j: int| 0 <= j < i implies !entry_is::<T>(numbers[i])(#[trigger] entries[j]) by {
        assert(numbers[j] != numbers[i]);
    }
    lemma_first_where(entries, entry_is::<T>(numbers[i]), i);
}

} // verus!
