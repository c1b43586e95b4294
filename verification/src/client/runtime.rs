//! Opening a connection to the core, what its runtimes can do, and polling
//! its events.
use vstd::prelude::*;
use vstd::string::*;

use crate::client::abi::{BACKEND_STATUS_DISCONNECTED, STATE_BACKEND_STATUS};
use crate::client::call::{
    c_text, copied_count, cstring, cstring_opt, FfiClient, EVENT_CAPACITY,
};
use crate::client::types::{ClientEvent, ClientWorkspaceEvent};
use crate::text::number::{signed_decimal, signed_decimal_string};
use crate::text::{concat2, contains_string, opt_view, views};

verus! {

// ---------------------------------------------------------------------------
// Runtimes.
// ---------------------------------------------------------------------------

/// What a runtime can do.
#[derive(Debug, Clone, Copy, PartialEq, Eq, Structural)]
pub enum ClientRuntimeCapability {
    PersistDetach,
    Discover,
    MultiTab,
    SplitPane,
    SharedClientResize,
    WorktreeList,
    WorktreeCreate,
    WorktreeOpen,
    WorktreeRemove,
}

/// The name of a capability.
pub open spec fn capability_name(c: ClientRuntimeCapability) -> Seq<char> {
    match c {
        ClientRuntimeCapability::PersistDetach => "PersistDetach"@,
        ClientRuntimeCapability::Discover => "Discover"@,
        ClientRuntimeCapability::MultiTab => "MultiTab"@,
        ClientRuntimeCapability::SplitPane => "SplitPane"@,
        ClientRuntimeCapability::SharedClientResize => "SharedClientResize"@,
        ClientRuntimeCapability::WorktreeList => "WorktreeList"@,
        ClientRuntimeCapability::WorktreeCreate => "WorktreeCreate"@,
        ClientRuntimeCapability::WorktreeOpen => "WorktreeOpen"@,
        ClientRuntimeCapability::WorktreeRemove => "WorktreeRemove"@,
    }
}

impl ClientRuntimeCapability {
    /// Returns the name of the capability.
    pub fn as_str(self) -> (r: &'static str)
        ensures
            r@ == capability_name(self),
    {
        match self {
            ClientRuntimeCapability::PersistDetach => "PersistDetach",
            ClientRuntimeCapability::Discover => "Discover",
            ClientRuntimeCapability::MultiTab => "MultiTab",
            ClientRuntimeCapability::SplitPane => "SplitPane",
            ClientRuntimeCapability::SharedClientResize => "SharedClientResize",
            ClientRuntimeCapability::WorktreeList => "WorktreeList",
            ClientRuntimeCapability::WorktreeCreate => "WorktreeCreate",
            ClientRuntimeCapability::WorktreeOpen => "WorktreeOpen",
            ClientRuntimeCapability::WorktreeRemove => "WorktreeRemove",
        }
    }
}

/// A runtime that the core offers.
#[derive(Debug, Clone, PartialEq, Eq)]
pub struct ClientRuntimeInfo {
    pub id: String,
    pub name: String,
    pub support: Vec<String>,
    pub accepted_transports: Vec<String>,
}

impl ClientRuntimeInfo {
    /// Tells whether the runtime has a capability.
    pub fn supports(&self, capability: ClientRuntimeCapability) -> (r: bool)
        ensures
            r == views(self.support@).contains(capability_name(capability)),
    {
        contains_string(&self.support, capability.as_str())
    }
}

// ---------------------------------------------------------------------------
// Connecting.
// ---------------------------------------------------------------------------

/// A call that makes a handle of the core.
#[derive(Debug, PartialEq, Eq)]
pub enum ConnectCall {
    /// A handle for queries alone; no workspace is opened.
    Catalog,
    /// A handle that is connected by a second call.
    New { runtime: String, socket: Option<String>, session: Option<String> },
    /// A handle that is connected at once.
    NewConnect {
        runtime: String,
        socket: Option<String>,
        session: Option<String>,
        ssh_alias: Option<String>,
        start_directory: Option<String>,
    },
}

/// The view of a [`ConnectCall`].
pub enum ConnectCallView {
    Catalog,
    New { runtime: Seq<char>, socket: Option<Seq<char>>, session: Option<Seq<char>> },
    NewConnect {
        runtime: Seq<char>,
        socket: Option<Seq<char>>,
        session: Option<Seq<char>>,
        ssh_alias: Option<Seq<char>>,
        start_directory: Option<Seq<char>>,
    },
}

impl View for ConnectCall {
    type V = ConnectCallView;

    open spec fn view(&self) -> ConnectCallView {
        match *self {
            ConnectCall::Catalog => ConnectCallView::Catalog,
            ConnectCall::New { runtime, socket, session } => ConnectCallView::New {
                runtime: runtime@,
                socket: opt_view(socket),
                session: opt_view(session),
            },
            ConnectCall::NewConnect { runtime, socket, session, ssh_alias, start_directory } =>
                ConnectCallView::NewConnect {
                runtime: runtime@,
                socket: opt_view(socket),
                session: opt_view(session),
                ssh_alias: opt_view(ssh_alias),
                start_directory: opt_view(start_directory),
            },
        }
    }
}

/// An optional string as the C interface gets it.
pub open spec fn c_opt(s: Option<&str>) -> Option<Seq<char>> {
    match s {
        Some(t) => Some(c_text(t@)),
        None => None,
    }
}

/// A message with the code of a failed call at its end.
pub open spec fn failed_with(what: Seq<char>, code: int) -> Seq<char> {
    what + " failed with code "@ + signed_decimal(code)
}

/// Checks the code of a call: zero is success.
pub fn check_code(what: &str, code: i32) -> (r: Result<(), String>)
    ensures
        match r {
            Ok(_) => code == 0,
            Err(text) => code != 0 && text@ == failed_with(what@, code as int),
        },
{
    if code == 0 {
        Ok(())
    } else {
        let mut text = concat2(what, " failed with code ");
        let number = signed_decimal_string(code);
        text.append(number.as_str());
        Err(text)
    }
}

impl FfiClient {
    /// Makes a handle for queries alone.
    pub fn new_catalog() -> (r: ConnectCall)
        ensures
            r@ == ConnectCallView::Catalog,
    {
        ConnectCall::Catalog
    }

    /// Makes a handle for a runtime.
    pub fn new(runtime: &str, socket: Option<&str>, session: Option<&str>) -> (r: ConnectCall)
        ensures
            r@ == (ConnectCallView::New {
                runtime: c_text(runtime@),
                socket: c_opt(socket),
                session: c_opt(session),
            }),
    {
        ConnectCall::New {
            runtime: cstring(runtime),
            socket: cstring_opt(socket),
            session: cstring_opt(session),
        }
    }

    /// Makes a handle for a runtime and connects it.
    pub fn new_connect(
        runtime: &str,
        socket: Option<&str>,
        session: Option<&str>,
        ssh_alias: Option<&str>,
        start_directory: Option<&str>,
    ) -> (r: ConnectCall)
        ensures
            r@ == (ConnectCallView::NewConnect {
                runtime: c_text(runtime@),
                socket: c_opt(socket),
                session: c_opt(session),
                ssh_alias: c_opt(ssh_alias),
                start_directory: c_opt(start_directory),
            }),
    {
        ConnectCall::NewConnect {
            runtime: cstring(runtime),
            socket: cstring_opt(socket),
            session: cstring_opt(session),
            ssh_alias: cstring_opt(ssh_alias),
            start_directory: cstring_opt(start_directory),
        }
    }

    /// Takes over the handle that a call made, or says that it made none.
    pub fn connected(handle_is_null: bool) -> (r: Result<FfiClient, String>)
        ensures
            match r {
                Ok(client) => !handle_is_null && client.status() == BACKEND_STATUS_DISCONNECTED,
                Err(text) => handle_is_null && text@ == "Core FFI handle construction failed"@,
            },
    {
        match FfiClient::from_raw(handle_is_null) {
            Some(client) => Ok(client),
            None => Err("Core FFI handle construction failed".to_owned()),
        }
    }

    /// Checks the code of connecting all workspaces anew.
    pub fn reconnect(code: i32) -> (r: Result<(), String>)
        ensures
            match r {
                Ok(_) => code == 0,
                Err(text) => code != 0 && text@ == failed_with("Core FFI connect"@, code as int),
            },
    {
        check_code("Core FFI connect", code)
    }
}

// ---------------------------------------------------------------------------
// Polling.
// ---------------------------------------------------------------------------

/// How many events of all workspaces one poll can take.
pub const WORKSPACE_EVENT_CAPACITY: usize = 64;

/// The status after a series of events: that of the last status event.
pub open spec fn status_after(before: u32, events: Seq<ClientEvent>) -> u32
    decreases events.len(),
{
    if events.len() == 0 {
        before
    } else if events.last().type_ == STATE_BACKEND_STATUS {
        events.last().pane_id
    } else {
        status_after(before, events.drop_last())
    }
}

/// How many elements of a buffer a count stands for.
pub open spec fn filled(count: i32, capacity: int) -> int {
    if count <= 0 {
        0
    } else if count < capacity {
        count as int
    } else {
        capacity
    }
}

impl FfiClient {
    /// Takes the events that the core put into a buffer; `count` is what the
    /// core answered.
    pub fn poll_events(&mut self, count: i32, buffer: Vec<ClientEvent>) -> (r: Vec<ClientEvent>)
        requires
            buffer@.len() == EVENT_CAPACITY,
        ensures
            r@ == buffer@.take(filled(count, EVENT_CAPACITY as int)),
            final(self).status() == status_after(old(self).status(), r@),
    {
        let n: usize = copied_count(count, EVENT_CAPACITY);
        let ghost all = buffer@;
        let ghost start = self.status();
        let mut rest = buffer;
        let mut out: Vec<ClientEvent> = Vec::new();
        let mut i: usize = 0;
        assert(all.skip(0) =~= all);
        while i < n
            invariant
                i <= n,
                n <= all.len(),
                rest@ == all.skip(i as int),
                out@ == all.take(i as int),
                self.status() == status_after(start, all.take(i as int)),
            decreases n - i,
        {
            let event = rest.remove(0);
            assert(event == all[i as int]);
            assert(rest@ =~= all.skip(i + 1));
            assert(all.take(i + 1).drop_last() =~= all.take(i as int));
            assert(all.take(i + 1) =~= all.take(i as int).push(event));
            let copied = self.copy_event(event);
            out.push(copied);
            i += 1;
        }
        out
    }

    /// Takes the events of all workspaces that the core put into a buffer.
    pub fn poll_workspace_events(&mut self, count: i32, buffer: Vec<ClientWorkspaceEvent>) -> (r:
        Vec<ClientWorkspaceEvent>)
        requires
            buffer@.len() == WORKSPACE_EVENT_CAPACITY,
        ensures
            r@ == buffer@.take(filled(count, WORKSPACE_EVENT_CAPACITY as int)),
            final(self).status() == status_after(
                old(self).status(),
                r@.map_values(|e: ClientWorkspaceEvent| e.event),
            ),
    {
        let n: usize = copied_count(count, WORKSPACE_EVENT_CAPACITY);
        let ghost all = buffer@;
        let ghost start = self.status();
        let ghost inner = all.map_values(|e: ClientWorkspaceEvent| e.event);
        let mut rest = buffer;
        let mut out: Vec<ClientWorkspaceEvent> = Vec::new();
        let mut i: usize = 0;
        assert(all.skip(0) =~= all);
        while i < n
            invariant
                i <= n,
                n <= all.len(),
                inner == all.map_values(|e: ClientWorkspaceEvent| e.event),
                rest@ == all.skip(i as int),
                out@ == all.take(i as int),
                self.status() == status_after(start, inner.take(i as int)),
            decreases n - i,
        {
            let event = rest.remove(0);
            assert(event == all[i as int]);
            assert(rest@ =~= all.skip(i + 1));
            assert(inner.take(i + 1).drop_last() =~= inner.take(i as int));
            assert(inner.take(i + 1).last() == event.event);
            assert(all.take(i + 1) =~= all.take(i as int).push(event));
            let copied = self.copy_event(event.event);
            out.push(ClientWorkspaceEvent { workspace_id: event.workspace_id, event: copied });
            i += 1;
        }
        assert(out@.map_values(|e: ClientWorkspaceEvent| e.event) =~= inner.take(n as int));
        out
    }
}

} // verus!
