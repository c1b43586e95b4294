//! Events and answers of the core: what their numbers mean, and how they are
//! handed on.
use vstd::prelude::*;
use vstd::string::*;

use crate::client::error::{
    answer_of, checked, envelope, optional_text, ClientErrorView, ReplyErrorView,
};
use crate::client::event::{
    kind_of, resize_of, status_name, topology_event, utf8_lossy, wire_kind_of, wire_members,
        ClientEventKind,
};
use crate::client::runtime::{
    capability_name, filled, status_after, ClientRuntimeCapability,
};
use crate::client::types::ClientEvent;
use crate::json::read::{field_of, json_parsed, json_string_of, member_of};
use crate::json::{json_bytes, json_member, json_object, json_string};
use crate::laws::json::{lemma_record, record};
use crate::seqs::{lemma_first_where, lemma_no_first};
use crate::text::number::decimal;

verus! {

/// Each number of an event has its word; any other number has none.
pub proof fn law_words_of_events(t: u32)
    ensures
        wire_kind_of(1) == "pane_output"@,
        wire_kind_of(2) == "tab_added"@,
        wire_kind_of(3) == "tab_closed"@,
        wire_kind_of(4) == "layout_changed"@,
        wire_kind_of(5) == "pane_added"@,
        wire_kind_of(6) == "pane_closed"@,
        wire_kind_of(7) == "active_tab_changed"@,
        wire_kind_of(8) == "active_pane_changed"@,
        wire_kind_of(9) == "tab_renamed"@,
        wire_kind_of(10) == "pane_resized"@,
        wire_kind_of(11) == "backend_status"@,
        wire_kind_of(12) == "status_subscription"@,
        wire_kind_of(13) == "workspace_renamed"@,
        wire_kind_of(14) == "pool_changed"@,
        wire_kind_of(15) == "pane_snapshot"@,
        wire_kind_of(16) == "pane_frame"@,
        wire_kind_of(17) == "pane_history"@,
        wire_kind_of(18) == "pane_agent_changed"@,
        wire_kind_of(19) == "mutation_settled"@,
        wire_kind_of(20) == "tab_order_changed"@,
        wire_kind_of(21) == "other"@,
        t == 0 || t > 21 ==> wire_kind_of(t) == "unknown"@,
{
}

/// The events that carry the content or the end of a pane; every other one
/// keeps its number.
pub proof fn law_kinds_of_events(t: u32)
    ensures
        kind_of(1) is PaneOutput,
        kind_of(16) is PaneFrame,
        kind_of(15) is PaneSnapshot,
        kind_of(17) is PaneHistory,
        kind_of(6) is PaneClosed,
        kind_of(10) is PaneResized,
        t != 1 && t != 16 && t != 15 && t != 17 && t != 6 && t != 10 ==> kind_of(t)
            == ClientEventKind::Other(t),
{
}

/// The events after which the topology is to be read anew: tabs and panes that
/// come, go, are named, sized, ordered or activated, layouts, names of
/// workspaces and the pool.
pub proof fn law_events_of_the_topology(t: u32)
    ensures
        topology_event(t) <==> t == 2 || t == 3 || t == 4 || t == 5 || t == 6 || t == 7 || t == 8
            || t == 9 || t == 10 || t == 13 || t == 14 || t == 20,
{
}

/// A new size is two numbers of two bytes each, the low byte first: the width,
/// then the height.
pub proof fn law_sizes_are_read_from_bytes(data: Seq<u8>, cols: u16, rows: u16)
    ensures
        data.len() < 4 ==> resize_of(data) is None,
        data.len() >= 4 && cols == data[0] + 256 * data[1] && rows == data[2] + 256 * data[3]
            ==> resize_of(data) == Some((cols, rows)),
{
}

/// Each state of the connection has its word.
pub proof fn law_words_of_connection_states(n: u32)
    ensures
        status_name(0) == "disconnected"@,
        status_name(1) == "connecting"@,
        status_name(2) == "connected"@,
        status_name(3) == "error"@,
        status_name(4) == "exited"@,
        n > 4 ==> status_name(n) == "unknown"@,
{
}

/// Each capability is known by its own name.
pub proof fn law_words_of_capabilities()
    ensures
        capability_name(ClientRuntimeCapability::PersistDetach) == "PersistDetach"@,
        capability_name(ClientRuntimeCapability::Discover) == "Discover"@,
        capability_name(ClientRuntimeCapability::MultiTab) == "MultiTab"@,
        capability_name(ClientRuntimeCapability::SplitPane) == "SplitPane"@,
        capability_name(ClientRuntimeCapability::SharedClientResize) == "SharedClientResize"@,
        capability_name(ClientRuntimeCapability::WorktreeList) == "WorktreeList"@,
        capability_name(ClientRuntimeCapability::WorktreeCreate) == "WorktreeCreate"@,
        capability_name(ClientRuntimeCapability::WorktreeOpen) == "WorktreeOpen"@,
        capability_name(ClientRuntimeCapability::WorktreeRemove) == "WorktreeRemove"@,
{
}

/// The connection is in the state that the last event of its kind reports, and
/// stays as it was where there was none.
pub proof fn law_the_last_state_counts(before: u32, events: Seq<ClientEvent>, k: int)
    ensures
        0 <= k < events.len() && events[k].type_ == 11 && (forall|j: int|
            k < j < events.len() ==> (#[trigger] events[j]).type_ != 11) ==> status_after(
            before,
            events,
        ) == events[k].pane_id,
        (forall|j: int| 0 <= j < events.len() ==> (#[trigger] events[j]).type_ != 11)
            ==> status_after(before, events) == before,
    decreases events.len(),
{
    if events.len() > 0 {
        let init = events.drop_last();
        law_the_last_state_counts(before, init, k);
        assert(events.last() == events[events.len() - 1]);
        assert forall|j: int| 0 <= j < init.len() implies #[trigger] init[j] == events[j] by {}
    }
}

/// As many values are taken from a buffer as were written into it.
pub proof fn law_a_buffer_is_read_as_far_as_it_was_filled(count: i32, capacity: int)
    requires
        0 < capacity,
    ensures
        count <= 0 ==> filled(count, capacity) == 0,
        0 < count <= capacity ==> filled(count, capacity) == count,
        count > capacity ==> filled(count, capacity) == capacity,
{
}

// ---------------------------------------------------------------------------
// Events as JSON.
// ---------------------------------------------------------------------------

/// An event as JSON has its raw fields and the word of its kind.
pub proof fn law_json_of_an_event(
    event: ClientEvent,
    id: Seq<char>,
    payload: Option<Seq<char>>,
)
    requires
        event.type_ != 10 && event.type_ != 11 && event.type_ != 12,
        (event.type_ != 18 && event.type_ != 19) || payload is None,
    ensures
        json_object(wire_members(event, id, payload)) == record(
            seq![
                ("data"@, json_bytes(event.data@)),
                ("kind"@, json_string(wire_kind_of(event.type_))),
                ("name"@, json_string(event.name@)),
                ("pane_id"@, decimal(event.pane_id as nat)),
                ("tab_id"@, decimal(event.tab_id as nat)),
                ("type"@, decimal(event.type_ as nat)),
                ("window_id"@, decimal(event.window_id as nat)),
                ("workspace_id"@, json_string(id)),
            ],
        ),
{
    let members = seq![
        json_member("data"@, json_bytes(event.data@)),
        json_member("kind"@, json_string(wire_kind_of(event.type_))),
        json_member("name"@, json_string(event.name@)),
        json_member("pane_id"@, decimal(event.pane_id as nat)),
        json_member("tab_id"@, decimal(event.tab_id as nat)),
        json_member("type"@, decimal(event.type_ as nat)),
        json_member("window_id"@, decimal(event.window_id as nat)),
        json_member("workspace_id"@, json_string(id)),
    ];
    let fields = seq![
        ("data"@, json_bytes(event.data@)),
        ("kind"@, json_string(wire_kind_of(event.type_))),
        ("name"@, json_string(event.name@)),
        ("pane_id"@, decimal(event.pane_id as nat)),
        ("tab_id"@, decimal(event.tab_id as nat)),
        ("type"@, decimal(event.type_ as nat)),
        ("window_id"@, decimal(event.window_id as nat)),
        ("workspace_id"@, json_string(id)),
    ];
    assert(wire_members(event, id, payload) =~= members);
    lemma_record(members, fields);
}

/// A new size adds the width and the height.
pub proof fn law_json_of_a_new_size(
    event: ClientEvent,
    id: Seq<char>,
    payload: Option<Seq<char>>,
    cols: u16,
    rows: u16,
)
    requires
        event.type_ == 10,
        event.data@.len() >= 4,
        cols == event.data@[0] + 256 * event.data@[1],
        rows == event.data@[2] + 256 * event.data@[3],
    ensures
        json_object(wire_members(event, id, payload)) == record(
            seq![
                ("cols"@, decimal(cols as nat)),
                ("data"@, json_bytes(event.data@)),
                ("kind"@, json_string(wire_kind_of(event.type_))),
                ("name"@, json_string(event.name@)),
                ("pane_id"@, decimal(event.pane_id as nat)),
                ("rows"@, decimal(rows as nat)),
                ("tab_id"@, decimal(event.tab_id as nat)),
                ("type"@, decimal(event.type_ as nat)),
                ("window_id"@, decimal(event.window_id as nat)),
                ("workspace_id"@, json_string(id)),
            ],
        ),
{
    law_sizes_are_read_from_bytes(event.data@, cols, rows);
    let members = seq![
        json_member("cols"@, decimal(cols as nat)),
        json_member("data"@, json_bytes(event.data@)),
        json_member("kind"@, json_string(wire_kind_of(event.type_))),
        json_member("name"@, json_string(event.name@)),
        json_member("pane_id"@, decimal(event.pane_id as nat)),
        json_member("rows"@, decimal(rows as nat)),
        json_member("tab_id"@, decimal(event.tab_id as nat)),
        json_member("type"@, decimal(event.type_ as nat)),
        json_member("window_id"@, decimal(event.window_id as nat)),
        json_member("workspace_id"@, json_string(id)),
    ];
    let fields = seq![
        ("cols"@, decimal(cols as nat)),
        ("data"@, json_bytes(event.data@)),
        ("kind"@, json_string(wire_kind_of(event.type_))),
        ("name"@, json_string(event.name@)),
        ("pane_id"@, decimal(event.pane_id as nat)),
        ("rows"@, decimal(rows as nat)),
        ("tab_id"@, decimal(event.tab_id as nat)),
        ("type"@, decimal(event.type_ as nat)),
        ("window_id"@, decimal(event.window_id as nat)),
        ("workspace_id"@, json_string(id)),
    ];
    assert(wire_members(event, id, payload) =~= members);
    lemma_record(members, fields);
}

/// A state of the connection adds its word.
pub proof fn law_json_of_a_connection_state(
    event: ClientEvent,
    id: Seq<char>,
    payload: Option<Seq<char>>,
)
    requires
        event.type_ == 11,
    ensures
        json_object(wire_members(event, id, payload)) == record(
            seq![
                ("data"@, json_bytes(event.data@)),
                ("kind"@, json_string(wire_kind_of(event.type_))),
                ("name"@, json_string(event.name@)),
                ("pane_id"@, decimal(event.pane_id as nat)),
                ("status"@, json_string(status_name(event.pane_id))),
                ("tab_id"@, decimal(event.tab_id as nat)),
                ("type"@, decimal(event.type_ as nat)),
                ("window_id"@, decimal(event.window_id as nat)),
                ("workspace_id"@, json_string(id)),
            ],
        ),
{
    let members = seq![
        json_member("data"@, json_bytes(event.data@)),
        json_member("kind"@, json_string(wire_kind_of(event.type_))),
        json_member("name"@, json_string(event.name@)),
        json_member("pane_id"@, decimal(event.pane_id as nat)),
        json_member("status"@, json_string(status_name(event.pane_id))),
        json_member("tab_id"@, decimal(event.tab_id as nat)),
        json_member("type"@, decimal(event.type_ as nat)),
        json_member("window_id"@, decimal(event.window_id as nat)),
        json_member("workspace_id"@, json_string(id)),
    ];
    let fields = seq![
        ("data"@, json_bytes(event.data@)),
        ("kind"@, json_string(wire_kind_of(event.type_))),
        ("name"@, json_string(event.name@)),
        ("pane_id"@, decimal(event.pane_id as nat)),
        ("status"@, json_string(status_name(event.pane_id))),
        ("tab_id"@, decimal(event.tab_id as nat)),
        ("type"@, decimal(event.type_ as nat)),
        ("window_id"@, decimal(event.window_id as nat)),
        ("workspace_id"@, json_string(id)),
    ];
    assert(wire_members(event, id, payload) =~= members);
    lemma_record(members, fields);
}

/// A subscription adds its text.
pub proof fn law_json_of_a_subscription(
    event: ClientEvent,
    id: Seq<char>,
    payload: Option<Seq<char>>,
)
    requires
        event.type_ == 12,
    ensures
        json_object(wire_members(event, id, payload)) == record(
            seq![
                ("data"@, json_bytes(event.data@)),
                ("kind"@, json_string(wire_kind_of(event.type_))),
                ("name"@, json_string(event.name@)),
                ("pane_id"@, decimal(event.pane_id as nat)),
                ("tab_id"@, decimal(event.tab_id as nat)),
                ("type"@, decimal(event.type_ as nat)),
                ("value"@, json_string(utf8_lossy(event.data@))),
                ("window_id"@, decimal(event.window_id as nat)),
                ("workspace_id"@, json_string(id)),
            ],
        ),
{
    let members = seq![
        json_member("data"@, json_bytes(event.data@)),
        json_member("kind"@, json_string(wire_kind_of(event.type_))),
        json_member("name"@, json_string(event.name@)),
        json_member("pane_id"@, decimal(event.pane_id as nat)),
        json_member("tab_id"@, decimal(event.tab_id as nat)),
        json_member("type"@, decimal(event.type_ as nat)),
        json_member("value"@, json_string(utf8_lossy(event.data@))),
        json_member("window_id"@, decimal(event.window_id as nat)),
        json_member("workspace_id"@, json_string(id)),
    ];
    let fields = seq![
        ("data"@, json_bytes(event.data@)),
        ("kind"@, json_string(wire_kind_of(event.type_))),
        ("name"@, json_string(event.name@)),
        ("pane_id"@, decimal(event.pane_id as nat)),
        ("tab_id"@, decimal(event.tab_id as nat)),
        ("type"@, decimal(event.type_ as nat)),
        ("value"@, json_string(utf8_lossy(event.data@))),
        ("window_id"@, decimal(event.window_id as nat)),
        ("workspace_id"@, json_string(id)),
    ];
    assert(wire_members(event, id, payload) =~= members);
    lemma_record(members, fields);
}

/// A change of agents and a settled change add their data as JSON.
pub proof fn law_json_of_a_payload(
    event: ClientEvent,
    id: Seq<char>,
    payload: Option<Seq<char>>,
    text: Seq<char>,
)
    requires
        event.type_ == 18 || event.type_ == 19,
        payload == Some(text),
    ensures
        json_object(wire_members(event, id, payload)) == record(
            seq![
                ("data"@, json_bytes(event.data@)),
                ("kind"@, json_string(wire_kind_of(event.type_))),
                ("name"@, json_string(event.name@)),
                ("pane_id"@, decimal(event.pane_id as nat)),
                ("payload"@, text),
                ("tab_id"@, decimal(event.tab_id as nat)),
                ("type"@, decimal(event.type_ as nat)),
                ("window_id"@, decimal(event.window_id as nat)),
                ("workspace_id"@, json_string(id)),
            ],
        ),
{
    let members = seq![
        json_member("data"@, json_bytes(event.data@)),
        json_member("kind"@, json_string(wire_kind_of(event.type_))),
        json_member("name"@, json_string(event.name@)),
        json_member("pane_id"@, decimal(event.pane_id as nat)),
        json_member("payload"@, text),
        json_member("tab_id"@, decimal(event.tab_id as nat)),
        json_member("type"@, decimal(event.type_ as nat)),
        json_member("window_id"@, decimal(event.window_id as nat)),
        json_member("workspace_id"@, json_string(id)),
    ];
    let fields = seq![
        ("data"@, json_bytes(event.data@)),
        ("kind"@, json_string(wire_kind_of(event.type_))),
        ("name"@, json_string(event.name@)),
        ("pane_id"@, decimal(event.pane_id as nat)),
        ("payload"@, text),
        ("tab_id"@, decimal(event.tab_id as nat)),
        ("type"@, decimal(event.type_ as nat)),
        ("window_id"@, decimal(event.window_id as nat)),
        ("workspace_id"@, json_string(id)),
    ];
    assert(wire_members(event, id, payload) =~= members);
    lemma_record(members, fields);
}

// ---------------------------------------------------------------------------
// Answers.
// ---------------------------------------------------------------------------

/// An answer counts as a success exactly where its `ok` is true; it is then
/// handed on whole, and else its error is.
pub proof fn law_only_ok_is_a_success(
    value: Seq<char>,
    ok: Option<Seq<char>>,
    error: Option<ClientErrorView>,
)
    ensures
        ok == Some("true"@) ==> checked(value, ok, error) == Ok::<Seq<char>, ReplyErrorView>(value),
        ok != Some("true"@) && error is Some ==> checked(value, ok, error) == Err::<
            Seq<char>,
            ReplyErrorView,
        >(ReplyErrorView::Core(error->0)),
        ok != Some("true"@) && error is None ==> (checked(value, ok, error) matches Err(
            ReplyErrorView::Core(e),
        ) && e.message == "unknown Core discovery error"@ && e.code is None && e.stage is None
            && e.details.len() == 0),
{
}

/// No answer and an answer that is no JSON are told apart from a refusal.
pub proof fn law_a_broken_answer_is_no_refusal(text: &str)
    ensures
        answer_of(None) == Err::<Seq<char>, ReplyErrorView>(
            ReplyErrorView::Transport("Core discovery returned no response"@),
        ),
        json_parsed(text@) matches Err(reason) ==> answer_of(Some(text)) == Err::<
            Seq<char>,
            ReplyErrorView,
        >(ReplyErrorView::Transport("Core discovery returned invalid JSON: "@ + reason)),
        json_parsed(text@) matches Ok(value) ==> (field_of(value, "ok"@) == Some("true"@)
            ==> answer_of(Some(text)) == Ok::<Seq<char>, ReplyErrorView>(value)),
{
}

/// An error has the code, the stage and the message that it was given, and
/// everything else as details; one without a message is none.
pub proof fn law_an_error_has_its_fields(
    code: Option<Seq<char>>,
    stage: Option<Seq<char>>,
    message: Seq<char>,
    details: Seq<(Seq<char>, Seq<char>)>,
    reason: Seq<char>,
)
    ensures
        envelope(Ok(code), Some(Ok(message)), Ok(stage), details) == Ok::<
            ClientErrorView,
            Seq<char>,
        >(ClientErrorView { code, stage, message, details }),
        envelope(Ok(code), None, Ok(stage), details) == Err::<ClientErrorView, Seq<char>>(
            "missing field `message`"@,
        ),
        envelope(Err(reason), None, Ok(stage), details) == Err::<ClientErrorView, Seq<char>>(
            reason,
        ),
        envelope(Ok(code), Some(Err(reason)), Ok(stage), details) == Err::<
            ClientErrorView,
            Seq<char>,
        >(reason),
        envelope(Ok(code), Some(Ok(message)), Err(reason), details) == Err::<
            ClientErrorView,
            Seq<char>,
        >(reason),
{
}

/// A field that may be missing is none where it is absent or null, and else its
/// text.
pub proof fn law_a_missing_field_is_none(v: Seq<char>)
    ensures
        optional_text(None) == Ok::<Option<Seq<char>>, Seq<char>>(None),
        v == "null"@ ==> optional_text(Some(v)) == Ok::<Option<Seq<char>>, Seq<char>>(None),
        v != "null"@ ==> (json_string_of(v) matches Ok(text) ==> optional_text(Some(v)) == Ok::<
            Option<Seq<char>>,
            Seq<char>,
        >(Some(text))),
{
}

/// A member is found under its name: the first of that name.
pub proof fn law_a_member_is_found_by_its_name(
    members: Seq<(Seq<char>, Seq<char>)>,
    name: Seq<char>,
    k: int,
)
    ensures
        0 <= k < members.len() && members[k].0 == name && (forall|j: int|
            0 <= j < k ==> (#[trigger] members[j]).0 != name) ==> member_of(members, name) == Some(
            members[k].1,
        ),
        (forall|j: int| 0 <= j < members.len() ==> (#[trigger] members[j]).0 != name) ==> member_of(
            members,
            name,
        ) is None,
{
    let f = |m: (Seq<char>, Seq<char>)| m.0 == name;
    assert(f =~= crate::json::read::member_is(name));
    if 0 <= k < members.len() && members[k].0 == name && (forall|j: int|
        0 <= j < k ==> (#[trigger] members[j]).0 != name) {
        lemma_first_where(members, f, k);
    }
    if forall|j: int| 0 <= j < members.len() ==> (#[trigger] members[j]).0 != name {
        lemma_no_first(members, f);
    }
}

} // verus!
