//! Selections: which row of the panel is meant, when it is built again, what
//! is typed into which pane, and how the command line is routed.
use vstd::prelude::*;

use crate::cli::command::CliCommand;
use crate::cli::routing::{
    command_settle_duration, daemon_settle_duration, ensure_daemon, flag_value, is_tmux_cli, route,
    select_tmux_session, session_name_of, start_directory, CliRoute, DaemonStart, FfiCliSession,
    TmuxSelection,
};
use crate::client::types::{ClientSearchHit, ClientWorkspace, TmuxSessionEntry};
use crate::command_queue::ClientCommand;
use crate::linux::panel_model::PanelItemView;
use crate::linux::panel_rows::{
    filtered_items, in_scope, item_scores, ranked, search_hits, tab_number, PanelTab, SearchRow,
    SearchScope,
};
use crate::linux::quickconnect_panel::{
    closes_panel, fired, fires, first_selected, flushed, named_pane, pane_meant, requested,
    tab_parts, ListRowView, RebuildView, TabParts, VisibleAction,
};
use crate::linux::window_event_pump::{grouped, writes, SurfaceInputView};
use crate::seqs::{lemma_first_where, lemma_no_first};
use crate::text::number::decimal;
use crate::text::{all_white, opt_view};
use crate::workspace_id::id_text;

verus! {

// ---------------------------------------------------------------------------
// The panel.
// ---------------------------------------------------------------------------

/// The tabs of the panel in their order.
pub proof fn law_the_order_of_the_tabs()
    ensures
        tab_number(PanelTab::Workspaces) == 0,
        tab_number(PanelTab::Attention) == 1,
        tab_number(PanelTab::Search) == 2,
{
}

/// The parts of the panel that a tab shows.
pub proof fn law_parts_of_a_tab(tab: PanelTab, placeholder: bool, r: TabParts)
    requires
        call_ensures(tab_parts, (tab, placeholder), r),
    ensures
        r.search_status <==> tab == PanelTab::Search && placeholder,
        r.scope_bar <==> tab == PanelTab::Search,
        r.attention_actions <==> tab == PanelTab::Attention,
{
}

/// A row of attention is named after its pane, and any other name means none.
pub proof fn law_which_pane_a_name_means(workspace: Seq<char>, pane: u32, name: Seq<char>)
    ensures
        named_pane("muxterm-attention-"@ + workspace + "-"@ + decimal(pane as nat)) == Some(
            (workspace, pane),
        ),
        name.len() < 18 ==> named_pane(name) is None,
        name.len() >= 18 && name.take(18) != "muxterm-attention-"@ ==> named_pane(name) is None,
{
    reveal_strlit("muxterm-attention-");
    reveal_strlit("-");
    assert("-"@ =~= seq!['-']);
    crate::linux::quickconnect_panel::law_attention_row_names_its_pane(workspace, pane);
}

/// A selection that means a pane changes which one is meant; any other one
/// leaves it.
pub proof fn law_a_selection_changes_the_pane(
    before: Option<(Seq<char>, u32)>,
    name: Seq<char>,
)
    ensures
        named_pane(name) is Some ==> pane_meant(before, Some(name)) == named_pane(name),
        named_pane(name) is None ==> pane_meant(before, Some(name)) == before,
        pane_meant(before, None) == before,
{
}

/// The first row that leads to a pane is selected among those of attention,
/// and the first row elsewhere.
pub proof fn law_which_row_is_selected_first(tab: PanelTab, rows: Seq<ListRowView>, k: int)
    ensures
        tab != PanelTab::Attention && rows.len() > 0 ==> first_selected(tab, rows) == Some(0int),
        tab == PanelTab::Attention && 0 <= k < rows.len() && rows[k].action is Jump && (forall|
            j: int,
        |
            0 <= j < k ==> !((#[trigger] rows[j]).action is Jump)) ==> first_selected(tab, rows)
            == Some(k),
        tab == PanelTab::Attention && (forall|j: int|
            0 <= j < rows.len() ==> !((#[trigger] rows[j]).action is Jump)) ==> first_selected(
            tab,
            rows,
        ) is None,
{
    let f = crate::linux::quickconnect_panel::selectable(tab);
    if tab != PanelTab::Attention && rows.len() > 0 {
        lemma_first_where(rows, f, 0);
    }
    if tab == PanelTab::Attention && 0 <= k < rows.len() && rows[k].action is Jump && (forall|
        j: int,
    |
        0 <= j < k ==> !((#[trigger] rows[j]).action is Jump)) {
        lemma_first_where(rows, f, k);
    }
    if tab == PanelTab::Attention && (forall|j: int|
        0 <= j < rows.len() ==> !((#[trigger] rows[j]).action is Jump)) {
        lemma_no_first(rows, f);
    }
}

/// A panel that is open builds its list once for each request that no later
/// one has replaced; a closed one builds nothing.
pub proof fn law_when_the_list_is_built(s: RebuildView, token: u64)
    ensures
        fires(s, token) <==> !s.finished && s.pending is Some && s.pending->0 == token,
        !s.finished ==> requested(s).pending is Some && requested(s).pending->0 == requested(
            s,
        ).generation && requested(s).generation != s.generation && !requested(s).finished,
        s.finished ==> requested(s) == s && flushed(s) == s,
        fires(s, token) ==> fired(s, token).pending is None && fired(s, token).generation
            == s.generation && fired(s, token).finished == s.finished,
        !fires(s, token) ==> fired(s, token) == s,
        !s.finished && s.pending is Some ==> flushed(s).pending is None && flushed(s).generation
            != s.generation,
        s.pending is None ==> flushed(s) == s,
{
}

/// Without a query the items stay as they are; with one only those with a
/// score are left, and the better come first.
pub proof fn law_how_items_are_filtered(
    items: Seq<PanelItemView>,
    query: Seq<char>,
    given: Seq<Option<u32>>,
    new_project: Seq<char>,
    i: int,
)
    requires
        items.len() == given.len(),
        items.len() <= usize::MAX,
    ensures
        all_white(query) ==> filtered_items(items, query, given, new_project) == items,
        !all_white(query) ==> ({
            let scores = item_scores(items, query, given, new_project);
            &&& scores.len() == items.len()
            &&& filtered_items(items, query, given, new_project).len() == ranked(scores).len()
            &&& 0 <= i < ranked(scores).len() ==> filtered_items(
                items,
                query,
                given,
                new_project,
            )[i] == items[ranked(scores)[i].0 as int]
            &&& 0 <= i < items.len() ==> scores[i] == crate::linux::panel_rows::item_score(
                items[i],
                crate::text::lowercase_of(crate::text::trimmed(query)),
                given[i],
                new_project,
            )
        }),
{
}

// ---------------------------------------------------------------------------
// Input.
// ---------------------------------------------------------------------------

/// Input for the pane of the last group is appended to it; input for another
/// pane, or for another workspace, starts a group of its own.
pub proof fn law_how_input_is_grouped(inputs: Seq<SurfaceInputView>, next: SurfaceInputView)
    ensures
        grouped(Seq::<SurfaceInputView>::empty()).len() == 0,
        ({
            let before = grouped(inputs);
            let after = grouped(inputs.push(next));
            &&& before.len() > 0 && before.last().workspace == next.workspace && before.last().pane
                == next.pane ==> after.len() == before.len() && after.drop_last()
                == before.drop_last() && after.last().workspace == next.workspace
                && after.last().pane == next.pane && after.last().data == before.last().data
                + next.data
            &&& before.len() == 0 || before.last().workspace != next.workspace
                || before.last().pane != next.pane ==> after == before.push(next)
        }),
{
    assert(inputs.push(next).drop_last() =~= inputs);
    let before = grouped(inputs);
    let after = grouped(inputs.push(next));
    if before.len() > 0 && before.last().workspace == next.workspace && before.last().pane
        == next.pane {
        assert(after.drop_last() =~= before.drop_last());
    }
}

/// A group is written to its workspace and its pane, with all its bytes.
pub proof fn law_where_a_group_is_written(command: ClientCommand, group: SurfaceInputView)
    requires
        writes(command, group),
    ensures
        command matches ClientCommand::Input { workspace_id, pane_id, data, quiet }
            && workspace_id is Some && workspace_id->0@ == id_text(group.workspace) && pane_id
            == group.pane && data@ == group.data && !quiet,
{
}

// ---------------------------------------------------------------------------
// The command line.
// ---------------------------------------------------------------------------

/// A command about the settings stays here. Any other one goes to the daemon
/// of the session that is named, else to tmux where a socket is given, else to
/// a core of its own.
pub proof fn law_where_a_command_goes(cmd: CliCommand, args: Vec<String>, r: CliRoute)
    requires
        call_ensures(route, (&cmd, &args), r),
    ensures
        r is Config <==> cmd is Config,
        !(cmd is Config) && session_name_of(cmd, args@) is Some ==> (r matches CliRoute::Daemon {
            name,
            tmux_socket,
        } && name@ == session_name_of(cmd, args@)->0 && opt_view(tmux_socket) == flag_value(
            args@,
            "-L"@,
        )),
        !(cmd is Config) && session_name_of(cmd, args@) is None && flag_value(args@, "-L"@) is Some
            ==> (r matches CliRoute::Tmux { socket } && socket@ == flag_value(args@, "-L"@)->0),
        !(cmd is Config) && session_name_of(cmd, args@) is None && flag_value(args@, "-L"@) is None
            ==> r is Ephemeral,
{
}

/// Small decisions of the command line: whether it is meant for tmux, how long
/// it waits, and whether the daemon is started.
pub proof fn law_small_decisions_of_the_command_line(
    args: Vec<String>,
    cmd: CliCommand,
    tmux: bool,
    settle: u64,
    daemon: Option<u64>,
    absent: DaemonStart,
    alive: DaemonStart,
    dead: DaemonStart,
    other: bool,
    directory: Option<&'static str>,
    runtime: &str,
)
    requires
        call_ensures(is_tmux_cli, (&args,), tmux),
        call_ensures(command_settle_duration, (&cmd,), settle),
        call_ensures(daemon_settle_duration, (&cmd,), daemon),
        call_ensures(ensure_daemon, (false, other), absent),
        call_ensures(ensure_daemon, (true, true), alive),
        call_ensures(ensure_daemon, (true, false), dead),
        call_ensures(start_directory, (runtime,), directory),
    ensures
        tmux <==> args@.len() > 0 && args@[0]@ == "tmux"@,
        cmd is SendKeys || cmd is WriteRaw ==> settle == 2000 && daemon == Some(2000u64),
        !(cmd is SendKeys) && !(cmd is WriteRaw) ==> settle == 500,
        cmd is CloseWorkspace ==> daemon is None,
        !(cmd is SendKeys) && !(cmd is WriteRaw) && !(cmd is CloseWorkspace) ==> daemon == Some(
            500u64,
        ),
        absent == DaemonStart::Start,
        alive == DaemonStart::Keep,
        dead == DaemonStart::Replace,
        runtime@ == "local"@ ==> directory is Some && (directory->0)@ == ""@,
        runtime@ != "local"@ ==> directory is None,
{
}

/// The session that is attached to is the one that is named, and is made where
/// it does not run, unless it was asked for by attaching. Without a name it is
/// the first that runs.
pub proof fn law_which_session_is_attached_to(
    target: String,
    cmd: CliCommand,
    name: String,
    sessions: Vec<TmuxSessionEntry>,
    attached: TmuxSelection,
    named: TmuxSelection,
    unnamed: TmuxSelection,
    k: int,
)
    requires
        !(cmd is AttachWorkspace),
        call_ensures(
            select_tmux_session,
            (&(CliCommand::AttachWorkspace { target }), &Some(name), &sessions),
            attached,
        ),
        call_ensures(select_tmux_session, (&cmd, &Some(name), &sessions), named),
        call_ensures(select_tmux_session, (&cmd, &None, &sessions), unnamed),
    ensures
        opt_view(attached.session) == Some(target@) && !attached.create,
        opt_view(named.session) == Some(name@),
        0 <= k < sessions@.len() && sessions@[k].name@ == name@ && (forall|j: int|
            0 <= j < k ==> (#[trigger] sessions@[j]).name@ != name@) ==> !named.create,
        (forall|j: int| 0 <= j < sessions@.len() ==> (#[trigger] sessions@[j]).name@ != name@)
            ==> named.create,
        !unnamed.create,
        sessions@.len() > 0 ==> opt_view(unnamed.session) == Some(sessions@[0].name@),
        sessions@.len() == 0 ==> unnamed.session is None,
{
    let f = crate::cli::routing::session_named(name@);
    if 0 <= k < sessions@.len() && sessions@[k].name@ == name@ && (forall|j: int|
        0 <= j < k ==> (#[trigger] sessions@[j]).name@ != name@) {
        lemma_first_where(sessions@, f, k);
    }
    if forall|j: int| 0 <= j < sessions@.len() ==> (#[trigger] sessions@[j]).name@ != name@ {
        lemma_no_first(sessions@, f);
    }
}

/// The workspace of a session is its first active one, else its first; a
/// session without one is refused.
pub proof fn law_a_session_needs_a_workspace(
    workspaces: Vec<ClientWorkspace>,
    r: Result<FfiCliSession, &'static str>,
    k: int,
)
    requires
        call_ensures(FfiCliSession::connect, (&workspaces,), r),
    ensures
        workspaces@.len() == 0 ==> (r matches Err(e) && e@ == "Core returned no CLI workspace"@),
        0 <= k < workspaces@.len() && workspaces@[k].active && (forall|j: int|
            0 <= j < k ==> !(#[trigger] workspaces@[j]).active) ==> (r matches Ok(s)
            && s.workspace_id == workspaces@[k].id),
        workspaces@.len() > 0 && (forall|j: int|
            0 <= j < workspaces@.len() ==> !(#[trigger] workspaces@[j]).active) ==> (r matches Ok(s)
            && s.workspace_id == workspaces@[0].id),
{
    let f = crate::cli::routing::workspace_active();
    if 0 <= k < workspaces@.len() && workspaces@[k].active && (forall|j: int|
        0 <= j < k ==> !(#[trigger] workspaces@[j]).active) {
        lemma_first_where(workspaces@, f, k);
    }
    if forall|j: int| 0 <= j < workspaces@.len() ==> !(#[trigger] workspaces@[j]).active {
        lemma_no_first(workspaces@, f);
    }
}

/// A pane is waited for by the commands that read or write one: the pane that
/// is named, else the active one.
pub proof fn law_which_pane_is_waited_for(
    pane: Option<u32>,
    active: Option<u32>,
    lines: Option<usize>,
    other: CliCommand,
    captured: Option<u32>,
    none: Option<u32>,
)
    requires
        call_ensures(
            FfiCliSession::prepare_for_command,
            (&(CliCommand::CapturePane { target: pane, lines }), active),
            captured,
        ),
        call_ensures(FfiCliSession::prepare_for_command, (&other, active), none),
        !(other is SendKeys) && !(other is WriteRaw) && !(other is CapturePane),
    ensures
        pane is Some ==> captured == pane,
        pane is None ==> captured == active,
        none is None,
{
}

// ---------------------------------------------------------------------------
// Hits and actions.
// ---------------------------------------------------------------------------

/// A hit is in the scope of its pane, of its workspace, or of everything.
pub proof fn law_which_hits_are_in_scope(hit: ClientSearchHit, workspace: Seq<char>, pane: u32)
    ensures
        in_scope(SearchScope::All, workspace, pane)(hit),
        in_scope(SearchScope::Workspace, workspace, pane)(hit) <==> hit.workspace_id@ == workspace,
        in_scope(SearchScope::Pane, workspace, pane)(hit) <==> hit.workspace_id@ == workspace
            && hit.pane_id == pane,
{
}

/// A search without a query has no rows. With one it has a row for each hit in
/// scope, with the fields of the hit.
pub proof fn law_rows_of_a_search(
    query: &str,
    scope: SearchScope,
    workspace: &str,
    pane: u32,
    hits: Vec<ClientSearchHit>,
    r: Vec<SearchRow>,
    i: int,
)
    requires
        call_ensures(search_hits, (query, scope, workspace, pane, &hits), r),
    ensures
        all_white(query@) ==> r@.len() == 0,
        !all_white(query@) ==> ({
            let kept = hits@.filter(in_scope(scope, workspace@, pane));
            &&& r@.len() == kept.len()
            &&& 0 <= i < kept.len() ==> r@[i].workspace_id == kept[i].workspace_id && r@[i].tab_id
                == kept[i].tab_id && r@[i].pane_id == kept[i].pane_id && r@[i].seq == kept[i].seq
                && r@[i].line == kept[i].line
        }),
{
}

/// What opens or makes something closes the panel; looking around in it and
/// jumping do not.
pub proof fn law_what_closes_the_panel(action: VisibleAction)
    ensures
        action is Connect || action is ExistingConnect || action is NewProject ==> closes_panel(
            action,
        ),
        action is Navigate || action is Jump || action is Nothing ==> !closes_panel(action),
{
}

} // verus!
