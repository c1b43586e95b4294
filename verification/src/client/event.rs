//! Events of the core.
use vstd::prelude::*;
use vstd::utf8::*;

use crate::client::abi::{BACKEND_STATUS_CONNECTED, BACKEND_STATUS_CONNECTING, BACKEND_STATUS_DISCONNECTED, BACKEND_STATUS_ERROR, BACKEND_STATUS_EXITED, STATE_ACTIVE_PANE_CHANGED, STATE_ACTIVE_TAB_CHANGED, STATE_BACKEND_STATUS, STATE_LAYOUT_CHANGED, STATE_MUTATION_SETTLED, STATE_OTHER, STATE_PANE_ADDED, STATE_PANE_AGENT_CHANGED, STATE_PANE_CLOSED, STATE_PANE_FRAME, STATE_PANE_HISTORY, STATE_PANE_OUTPUT, STATE_PANE_RESIZED, STATE_PANE_SNAPSHOT, STATE_POOL_CHANGED, STATE_STATUS_SUBSCRIPTION, STATE_TAB_ADDED, STATE_TAB_CLOSED, STATE_TAB_ORDER_CHANGED, STATE_TAB_RENAMED, STATE_WORKSPACE_RENAMED};
use crate::client::types::{ClientEvent, ClientWorkspaceEvent};
use crate::json::{
    bytes_text, json_bytes, json_member, json_object, json_quote, json_reparsed, json_string,
    member_text, object_text, reparse,
};
use crate::text::number::{decimal, decimal_string};
use crate::text::views;

verus! {

/// The kinds of events that the frontend tells apart.
#[derive(Debug, Clone, Copy, PartialEq, Eq, Structural)]
pub enum ClientEventKind {
    PaneOutput,
    PaneFrame,
    PaneSnapshot,
    PaneHistory,
    PaneClosed,
    PaneResized,
    Other(u32),
}

/// What `String::from_utf8_lossy` makes of bytes.
pub uninterp spec fn utf8_lossy(bytes: Seq<u8>) -> Seq<char>;

/// `String::from_utf8_lossy`: bytes as a string, with replacement characters
/// for what is no UTF-8. What is valid UTF-8 is taken as it is; where the
/// replacement characters go is only named.
#[verifier::external_body]
pub(crate) fn from_utf8_lossy(bytes: &Vec<u8>) -> (r: String)
    ensures
        r@ == utf8_lossy(bytes@),
        valid_utf8(bytes@) ==> r@ == decode_utf8(bytes@),
{
    String::from_utf8_lossy(bytes).into_owned()
}

/// The name of an event on the wire.
pub open spec fn wire_kind_of(type_: u32) -> Seq<char> {
    if type_ == STATE_PANE_OUTPUT {
        "pane_output"@
    } else if type_ == STATE_TAB_ADDED {
        "tab_added"@
    } else if type_ == STATE_TAB_CLOSED {
        "tab_closed"@
    } else if type_ == STATE_LAYOUT_CHANGED {
        "layout_changed"@
    } else if type_ == STATE_PANE_ADDED {
        "pane_added"@
    } else if type_ == STATE_PANE_CLOSED {
        "pane_closed"@
    } else if type_ == STATE_ACTIVE_TAB_CHANGED {
        "active_tab_changed"@
    } else if type_ == STATE_ACTIVE_PANE_CHANGED {
        "active_pane_changed"@
    } else if type_ == STATE_TAB_RENAMED {
        "tab_renamed"@
    } else if type_ == STATE_PANE_RESIZED {
        "pane_resized"@
    } else if type_ == STATE_BACKEND_STATUS {
        "backend_status"@
    } else if type_ == STATE_STATUS_SUBSCRIPTION {
        "status_subscription"@
    } else if type_ == STATE_WORKSPACE_RENAMED {
        "workspace_renamed"@
    } else if type_ == STATE_POOL_CHANGED {
        "pool_changed"@
    } else if type_ == STATE_PANE_SNAPSHOT {
        "pane_snapshot"@
    } else if type_ == STATE_PANE_FRAME {
        "pane_frame"@
    } else if type_ == STATE_PANE_HISTORY {
        "pane_history"@
    } else if type_ == STATE_PANE_AGENT_CHANGED {
        "pane_agent_changed"@
    } else if type_ == STATE_MUTATION_SETTLED {
        "mutation_settled"@
    } else if type_ == STATE_TAB_ORDER_CHANGED {
        "tab_order_changed"@
    } else if type_ == STATE_OTHER {
        "other"@
    } else {
        "unknown"@
    }
}

/// The kind of an event.
pub open spec fn kind_of(type_: u32) -> ClientEventKind {
    if type_ == STATE_PANE_OUTPUT {
        ClientEventKind::PaneOutput
    } else if type_ == STATE_PANE_FRAME {
        ClientEventKind::PaneFrame
    } else if type_ == STATE_PANE_SNAPSHOT {
        ClientEventKind::PaneSnapshot
    } else if type_ == STATE_PANE_HISTORY {
        ClientEventKind::PaneHistory
    } else if type_ == STATE_PANE_CLOSED {
        ClientEventKind::PaneClosed
    } else if type_ == STATE_PANE_RESIZED {
        ClientEventKind::PaneResized
    } else {
        ClientEventKind::Other(type_)
    }
}

/// The event changes tabs, panes, their order or their sizes.
pub open spec fn topology_event(type_: u32) -> bool {
    ||| type_ == STATE_TAB_ADDED
    ||| type_ == STATE_TAB_CLOSED
    ||| type_ == STATE_LAYOUT_CHANGED
    ||| type_ == STATE_PANE_ADDED
    ||| type_ == STATE_PANE_CLOSED
    ||| type_ == STATE_ACTIVE_TAB_CHANGED
    ||| type_ == STATE_ACTIVE_PANE_CHANGED
    ||| type_ == STATE_TAB_RENAMED
    ||| type_ == STATE_PANE_RESIZED
    ||| type_ == STATE_WORKSPACE_RENAMED
    ||| type_ == STATE_POOL_CHANGED
    ||| type_ == STATE_TAB_ORDER_CHANGED
}

/// Two little-endian numbers of two bytes each, where there are four bytes.
pub open spec fn resize_of(data: Seq<u8>) -> Option<(u16, u16)> {
    if data.len() < 4 {
        None
    } else {
        Some(((data[0] + 256 * data[1]) as u16, (data[2] + 256 * data[3]) as u16))
    }
}

/// The name of a backend state on the wire.
pub open spec fn status_name(status: u32) -> Seq<char> {
    if status == BACKEND_STATUS_DISCONNECTED {
        "disconnected"@
    } else if status == BACKEND_STATUS_CONNECTING {
        "connecting"@
    } else if status == BACKEND_STATUS_CONNECTED {
        "connected"@
    } else if status == BACKEND_STATUS_ERROR {
        "error"@
    } else if status == BACKEND_STATUS_EXITED {
        "exited"@
    } else {
        "unknown"@
    }
}

/// One member, or none.
pub open spec fn optional_member(name: Seq<char>, value: Option<Seq<char>>) -> Seq<Seq<char>> {
    match value {
        Some(v) => seq![json_member(name, v)],
        None => Seq::<Seq<char>>::empty(),
    }
}

/// The size that a resize event tells, as JSON.
pub open spec fn resize_value(type_: u32, data: Seq<u8>, cols: bool) -> Option<Seq<char>> {
    if type_ == STATE_PANE_RESIZED {
        match resize_of(data) {
            Some(size) => Some(decimal((if cols { size.0 } else { size.1 }) as nat)),
            None => None,
        }
    } else {
        None
    }
}

/// The members of an event on the wire, in the order of their names.
/// `payload` is the event's data as JSON where it is a JSON document.
pub open spec fn wire_members(
    event: ClientEvent,
    workspace_id: Seq<char>,
    payload: Option<Seq<char>>,
) -> Seq<Seq<char>> {
    optional_member("cols"@, resize_value(event.type_, event.data@, true)) + seq![
        json_member("data"@, json_bytes(event.data@)),
        json_member("kind"@, json_string(wire_kind_of(event.type_))),
        json_member("name"@, json_string(event.name@)),
        json_member("pane_id"@, decimal(event.pane_id as nat)),
    ] + optional_member(
        "payload"@,
        if event.type_ == STATE_PANE_AGENT_CHANGED || event.type_ == STATE_MUTATION_SETTLED {
            payload
        } else {
            None
        },
    ) + optional_member("rows"@, resize_value(event.type_, event.data@, false)) + optional_member(
        "status"@,
        if event.type_ == STATE_BACKEND_STATUS {
            Some(json_string(status_name(event.pane_id)))
        } else {
            None
        },
    ) + seq![
        json_member("tab_id"@, decimal(event.tab_id as nat)),
        json_member("type"@, decimal(event.type_ as nat)),
    ] + optional_member(
        "value"@,
        if event.type_ == STATE_STATUS_SUBSCRIPTION {
            Some(json_string(utf8_lossy(event.data@)))
        } else {
            None
        },
    ) + seq![
        json_member("window_id"@, decimal(event.window_id as nat)),
        json_member("workspace_id"@, json_string(workspace_id)),
    ]
}

fn push_optional(members: &mut Vec<String>, name: &str, value: &Option<String>)
    ensures
        views(final(members)@) == views(old(members)@) + optional_member(
            name@,
            crate::text::opt_view(*value),
        ),
{
    match value {
        Some(v) => {
            members.push(member_text(name, v.as_str()));
        },
        None => {},
    }
    assert(views(members@) =~= views(old(members)@) + optional_member(
        name@,
        crate::text::opt_view(*value),
    ));
}

fn push_member(members: &mut Vec<String>, name: &str, value: &str)
    ensures
        views(final(members)@) == views(old(members)@).push(json_member(name@, value@)),
{
    members.push(member_text(name, value));
    assert(views(members@) =~= views(old(members)@).push(json_member(name@, value@)));
}

/// Reads the size that a resize event tells.
pub fn decode_resize_data(data: &Vec<u8>) -> (r: Option<(u16, u16)>)
    ensures
        r == resize_of(data@),
{
    if data.len() < 4 {
        return None;
    }
    let cols: u16 = (data[0] as u16) + 256 * (data[1] as u16);
    let rows: u16 = (data[2] as u16) + 256 * (data[3] as u16);
    Some((cols, rows))
}

/// Returns the name of a backend state on the wire.
pub fn backend_status_wire_name(status: u32) -> (r: &'static str)
    ensures
        r@ == status_name(status),
{
    if status == BACKEND_STATUS_DISCONNECTED {
        "disconnected"
    } else if status == BACKEND_STATUS_CONNECTING {
        "connecting"
    } else if status == BACKEND_STATUS_CONNECTED {
        "connected"
    } else if status == BACKEND_STATUS_ERROR {
        "error"
    } else if status == BACKEND_STATUS_EXITED {
        "exited"
    } else {
        "unknown"
    }
}

impl ClientEvent {
    /// Returns the name of the event on the wire.
    pub fn wire_kind(&self) -> (r: &'static str)
        ensures
            r@ == wire_kind_of(self.type_),
    {
        if self.type_ == STATE_PANE_OUTPUT {
            "pane_output"
        } else if self.type_ == STATE_TAB_ADDED {
            "tab_added"
        } else if self.type_ == STATE_TAB_CLOSED {
            "tab_closed"
        } else if self.type_ == STATE_LAYOUT_CHANGED {
            "layout_changed"
        } else if self.type_ == STATE_PANE_ADDED {
            "pane_added"
        } else if self.type_ == STATE_PANE_CLOSED {
            "pane_closed"
        } else if self.type_ == STATE_ACTIVE_TAB_CHANGED {
            "active_tab_changed"
        } else if self.type_ == STATE_ACTIVE_PANE_CHANGED {
            "active_pane_changed"
        } else if self.type_ == STATE_TAB_RENAMED {
            "tab_renamed"
        } else if self.type_ == STATE_PANE_RESIZED {
            "pane_resized"
        } else if self.type_ == STATE_BACKEND_STATUS {
            "backend_status"
        } else if self.type_ == STATE_STATUS_SUBSCRIPTION {
            "status_subscription"
        } else if self.type_ == STATE_WORKSPACE_RENAMED {
            "workspace_renamed"
        } else if self.type_ == STATE_POOL_CHANGED {
            "pool_changed"
        } else if self.type_ == STATE_PANE_SNAPSHOT {
            "pane_snapshot"
        } else if self.type_ == STATE_PANE_FRAME {
            "pane_frame"
        } else if self.type_ == STATE_PANE_HISTORY {
            "pane_history"
        } else if self.type_ == STATE_PANE_AGENT_CHANGED {
            "pane_agent_changed"
        } else if self.type_ == STATE_MUTATION_SETTLED {
            "mutation_settled"
        } else if self.type_ == STATE_TAB_ORDER_CHANGED {
            "tab_order_changed"
        } else if self.type_ == STATE_OTHER {
            "other"
        } else {
            "unknown"
        }
    }

    /// Returns the kind of the event.
    pub fn kind(&self) -> (r: ClientEventKind)
        ensures
            r == kind_of(self.type_),
    {
        if self.type_ == STATE_PANE_OUTPUT {
            ClientEventKind::PaneOutput
        } else if self.type_ == STATE_PANE_FRAME {
            ClientEventKind::PaneFrame
        } else if self.type_ == STATE_PANE_SNAPSHOT {
            ClientEventKind::PaneSnapshot
        } else if self.type_ == STATE_PANE_HISTORY {
            ClientEventKind::PaneHistory
        } else if self.type_ == STATE_PANE_CLOSED {
            ClientEventKind::PaneClosed
        } else if self.type_ == STATE_PANE_RESIZED {
            ClientEventKind::PaneResized
        } else {
            ClientEventKind::Other(self.type_)
        }
    }

    /// Tells whether the event asks for a fresh snapshot of the topology.
    pub fn is_topology(&self) -> (r: bool)
        ensures
            r == topology_event(self.type_),
    {
        let t: u32 = self.type_;
        t == STATE_TAB_ADDED
            || t == STATE_TAB_CLOSED
            || t == STATE_LAYOUT_CHANGED
            || t == STATE_PANE_ADDED
            || t == STATE_PANE_CLOSED
            || t == STATE_ACTIVE_TAB_CHANGED
            || t == STATE_ACTIVE_PANE_CHANGED
            || t == STATE_TAB_RENAMED
            || t == STATE_PANE_RESIZED
            || t == STATE_WORKSPACE_RENAMED
            || t == STATE_POOL_CHANGED
            || t == STATE_TAB_ORDER_CHANGED
    }

    /// Returns the event as JSON text, with its meaning spelled out. The raw
    /// fields stay present so that an unknown event can be diagnosed.
    pub fn to_wire_json(&self, workspace_id: &str) -> (r: String)
        ensures
            r@ == json_object(wire_members(*self, workspace_id@, json_reparsed(self.data@))),
    {
        let payload = reparse(self.data.as_slice());
        self.wire_json_with(workspace_id, &payload)
    }

    /// Returns the event as JSON text, given its data as JSON where it is a
    /// JSON document.
    pub fn wire_json_with(&self, workspace_id: &str, payload: &Option<String>) -> (r: String)
        ensures
            r@ == json_object(
                wire_members(*self, workspace_id@, crate::text::opt_view(*payload)),
            ),
    {
        let size = if self.type_ == STATE_PANE_RESIZED {
            decode_resize_data(&self.data)
        } else {
            None
        };
        let (cols, rows): (Option<String>, Option<String>) = match size {
            Some((c, r)) => (Some(decimal_string(c as u64)), Some(decimal_string(r as u64))),
            None => (None, None),
        };
        let status = if self.type_ == STATE_BACKEND_STATUS {
            Some(json_quote(backend_status_wire_name(self.pane_id)))
        } else {
            None
        };
        let value = if self.type_ == STATE_STATUS_SUBSCRIPTION {
            let text = from_utf8_lossy(&self.data);
            Some(json_quote(text.as_str()))
        } else {
            None
        };
        let none: Option<String> = None;
        let shown: &Option<String> = if self.type_ == STATE_PANE_AGENT_CHANGED || self.type_
            == STATE_MUTATION_SETTLED {
            payload
        } else {
            &none
        };
        let mut m: Vec<String> = Vec::new();
        push_optional(&mut m, "cols", &cols);
        push_member(&mut m, "data", bytes_text(&self.data).as_str());
        push_member(&mut m, "kind", json_quote(self.wire_kind()).as_str());
        push_member(&mut m, "name", json_quote(self.name.as_str()).as_str());
        push_member(&mut m, "pane_id", decimal_string(self.pane_id as u64).as_str());
        push_optional(&mut m, "payload", shown);
        push_optional(&mut m, "rows", &rows);
        push_optional(&mut m, "status", &status);
        push_member(&mut m, "tab_id", decimal_string(self.tab_id as u64).as_str());
        push_member(&mut m, "type", decimal_string(self.type_ as u64).as_str());
        push_optional(&mut m, "value", &value);
        push_member(&mut m, "window_id", decimal_string(self.window_id as u64).as_str());
        push_member(&mut m, "workspace_id", json_quote(workspace_id).as_str());
        assert(views(m@) =~= wire_members(
            *self,
            workspace_id@,
            crate::text::opt_view(*payload),
        ));
        object_text(&m)
    }
}

impl ClientWorkspaceEvent {
    /// Returns the event of a workspace as JSON text.
    pub fn to_wire_json(&self) -> (r: String)
        ensures
            r@ == json_object(
                wire_members(
                    self.event,
                    self.workspace_id@,
                    json_reparsed(self.event.data@),
                ),
            ),
    {
        self.event.to_wire_json(self.workspace_id.as_str())
    }
}

/// An event that resizes or closes a pane asks for a fresh topology; plain
/// output, frames, snapshots and history never do.
pub proof fn law_content_is_no_topology(type_: u32)
    ensures
        kind_of(type_) is PaneClosed || kind_of(type_) is PaneResized ==> topology_event(type_),
        kind_of(type_) is PaneOutput || kind_of(type_) is PaneFrame || kind_of(
            type_,
        ) is PaneSnapshot || kind_of(type_) is PaneHistory ==> !topology_event(type_),
{
}

/// An event type that is not told apart keeps its number.
pub proof fn law_other_kind_keeps_type(type_: u32)
    ensures
        kind_of(type_) matches ClientEventKind::Other(t) ==> t == type_,
{
}

} // verus!
