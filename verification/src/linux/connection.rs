//! Opening workspaces: what is shown while one opens and what follows.
use vstd::prelude::*;
use vstd::string::*;

use crate::client::call::FfiClient;
use crate::client::config::{intent_word, target_json};
use crate::client::query::{
    opt_arg, text_arg, CArgView, CCall, CCallView, CFunction, DISCOVERY_TIMEOUT_MS,
};
use crate::client::types::{
    ClientCandidateRef, ClientOpenIntent, ClientOpenRequest, ClientOpenedWorkspace, ClientTarget,
    ClientWorkspace,
};
use crate::linux::aggregate::AggregateSelection;
use crate::linux::existing::{transport_text, ExistingEntry, ExistingTransport};
use crate::linux::target::{
    client_target_from_config, is_target_of, plain_target, TargetConfig, TargetRuntime,
    TargetTransport, TargetTransportView,
};
use crate::linux::workspace_sidebar_model::{ordered_workspaces, sorted_workspaces, ViewStore};
use crate::seqs::{find, lemma_first_where, lemma_no_first};
use crate::text::{clone_opt, concat2, concat3, opt_view, same, same_opt};
use crate::workspace_id::{id_view, parse_workspace_id, parsed_id, WorkspaceId, WorkspaceIdView};

verus! {

// ---------------------------------------------------------------------------
// Sockets of open workspaces.
// ---------------------------------------------------------------------------

pub open spec fn socket_entry_is(id: WorkspaceIdView) -> spec_fn((WorkspaceId, Option<String>)) -> bool {
    |e: (WorkspaceId, Option<String>)| e.0@ == id
}

/// The socket remembered for a workspace.
pub open spec fn socket_for(
    sockets: Seq<(WorkspaceId, Option<String>)>,
    id: Option<WorkspaceIdView>,
) -> Option<Seq<char>> {
    match id {
        Some(i) => match find(sockets, socket_entry_is(i)) {
            Some(e) => opt_view(e.1),
            None => None,
        },
        None => None,
    }
}

/// Tells whether two identities are the same.
pub fn same_id(a: &WorkspaceId, b: &WorkspaceId) -> (r: bool)
    ensures
        r == (a@ == b@),
{
    same(a.transport.as_str(), b.transport.as_str()) && same_opt(&a.alias, &b.alias) && same(
        a.session.as_str(),
        b.session.as_str(),
    ) && same(a.runtime.as_str(), b.runtime.as_str()) && same(a.path.as_str(), b.path.as_str())
}

/// Returns the socket remembered for a workspace.
pub fn find_socket(sockets: &Vec<(WorkspaceId, Option<String>)>, id: &Option<WorkspaceId>) -> (r:
    Option<String>)
    ensures
        opt_view(r) == socket_for(sockets@, id_view(*id)),
{
    let wanted = match id {
        Some(w) => w,
        None => {
            return None;
        },
    };
    let mut i: usize = 0;
    while i < sockets.len()
        invariant
            i <= sockets.len(),
            *id == Some(*wanted),
            forall|j: int| 0 <= j < i ==> (#[trigger] sockets@[j]).0@ != wanted@,
        decreases sockets.len() - i,
    {
        if same_id(&sockets[i].0, wanted) {
            proof {
                lemma_first_where(sockets@, socket_entry_is(wanted@), i as int);
            }
            return clone_opt(&sockets[i].1);
        }
        i += 1;
    }
    proof {
        lemma_no_first(sockets@, socket_entry_is(wanted@));
    }
    None
}

/// Returns the open workspaces in the order of their ids, at most `limit`,
/// each with the socket remembered for it.
pub fn recent_workspaces(
    store: &ViewStore,
    sockets: &Vec<(WorkspaceId, Option<String>)>,
    limit: usize,
) -> (r: Vec<(ClientWorkspace, Option<String>)>)
    ensures
        ({
            let all = ordered_workspaces(store.views@);
            &&& r.len() == if all.len() < limit {
                all.len()
            } else {
                limit as nat
            }
            &&& forall|i: int|
                0 <= i < r.len() ==> (#[trigger] r@[i]).0 == all[i] && opt_view(r@[i].1)
                    == socket_for(sockets@, parsed_id(all[i].id@))
        }),
{
    let all = sorted_workspaces(store);
    let n: usize = if all.len() < limit {
        all.len()
    } else {
        limit
    };
    let mut out: Vec<(ClientWorkspace, Option<String>)> = Vec::new();
    let mut i: usize = 0;
    while i < n
        invariant
            i <= n <= all.len(),
            out.len() == i,
            forall|j: int|
                0 <= j < i ==> (#[trigger] out@[j]).0 == all@[j] && opt_view(out@[j].1)
                    == socket_for(sockets@, parsed_id(all@[j].id@)),
        decreases n - i,
    {
        let id = parse_workspace_id(all[i].id.as_str());
        let socket = find_socket(sockets, &id);
        out.push((all[i].clone(), socket));
        i += 1;
    }
    out
}

// ---------------------------------------------------------------------------
// Starting to open.
// ---------------------------------------------------------------------------

/// What a candidate is called while it opens.
pub open spec fn request_label(c: ClientCandidateRef) -> Seq<char> {
    match c {
        ClientCandidateRef::Project { project_id } => "project "@ + project_id@,
        ClientCandidateRef::Recent { key } => "recent "@ + key@,
        ClientCandidateRef::Existing { identity } => identity.runtime_id@ + " @ "@
            + identity.target@,
        _ => "existing connection"@,
    }
}

/// The socket that a candidate names.
pub open spec fn request_socket(c: ClientCandidateRef) -> Option<Seq<char>> {
    match c {
        ClientCandidateRef::Existing { identity } => opt_view(identity.socket),
        _ => None,
    }
}

/// A workspace that is being opened.
#[derive(Debug, Clone, PartialEq, Eq)]
pub struct PendingWorkspaceOpen {
    pub label: String,
    pub socket: Option<String>,
    pub activate: bool,
    pub shells: bool,
}

/// What happens on a request to open.
#[derive(Debug, Clone, PartialEq, Eq)]
pub enum OpenStart {
    /// Another workspace is being opened: its page is shown again.
    ShowLoading,
    /// The request goes to the core; this waits for it where it is taken.
    Start(PendingWorkspaceOpen),
}

/// Decides what a request to open does. Only one workspace opens at a time.
pub fn connect_open_request(pending: bool, request: &ClientOpenRequest) -> (r: OpenStart)
    ensures
        r is ShowLoading <==> pending,
        r matches OpenStart::Start(p) ==> {
            &&& p.label@ == request_label(request.candidate)
            &&& opt_view(p.socket) == request_socket(request.candidate)
            &&& p.activate == request.activate
            &&& !p.shells
        },
{
    if pending {
        return OpenStart::ShowLoading;
    }
    let socket = match &request.candidate {
        ClientCandidateRef::Existing { identity } => clone_opt(&identity.socket),
        _ => None,
    };
    let label = match &request.candidate {
        ClientCandidateRef::Project { project_id } => concat2("project ", project_id.as_str()),
        ClientCandidateRef::Recent { key } => concat2("recent ", key.as_str()),
        ClientCandidateRef::Existing { identity } => concat3(
            identity.runtime_id.as_str(),
            " @ ",
            identity.target.as_str(),
        ),
        _ => "existing connection".to_owned(),
    };
    OpenStart::Start(
        PendingWorkspaceOpen { label, socket, activate: request.activate, shells: false },
    )
}

/// The message for a request that the core does not take.
pub fn connect_failed(label: &str, detail: &str) -> (r: String)
    ensures
        r@ == label@ + ": connect failed: "@ + detail@,
{
    concat3(label, ": connect failed: ", detail)
}

/// Takes in the answer of the core to a request to open, and returns the line
/// for the log where it was not taken. A request that starts is waited for and
/// leaves the list of tabs of many workspaces; a new shell of that list stays
/// in it.
pub fn open_request_answered(
    aggregate: &mut AggregateSelection,
    waiting: &mut Option<PendingWorkspaceOpen>,
    start: PendingWorkspaceOpen,
    answer: Result<(), String>,
) -> (r: Option<String>)
    ensures
        match answer {
            Ok(_) => {
                &&& r is None
                &&& *final(waiting) == Some(start)
                &&& *final(aggregate) == if start.shells {
                    *old(aggregate)
                } else {
                    AggregateSelection { kind: None, ..*old(aggregate) }
                }
            },
            Err(detail) => {
                &&& *final(waiting) == *old(waiting)
                &&& *final(aggregate) == *old(aggregate)
                &&& r matches Some(line) && line@ == if start.shells {
                    start.label@ + ": "@ + detail@
                } else {
                    start.label@ + ": connect failed: "@ + detail@
                }
            },
        },
        old(aggregate).wf() ==> final(aggregate).wf(),
{
    match answer {
        Ok(_) => {
            if !start.shells {
                aggregate.kind = None;
            }
            *waiting = Some(start);
            None
        },
        Err(detail) => {
            if start.shells {
                Some(concat3(start.label.as_str(), ": ", detail.as_str()))
            } else {
                Some(connect_failed(start.label.as_str(), detail.as_str()))
            }
        },
    }
}

/// Returns the target of a new local shell.
pub fn local_shell_target() -> (r: TargetConfig)
    ensures
        r@ == plain_target("local"@, TargetRuntime::Shell, TargetTransportView::Local, "~"@),
{
    TargetConfig::new("local", TargetRuntime::Shell, TargetTransport::Local, "~")
}

/// What waits for a new local shell; nothing where another workspace opens.
pub fn open_local_shell(pending: bool) -> (r: Option<PendingWorkspaceOpen>)
    ensures
        r is None <==> pending,
        r matches Some(p) ==> p.label@ == "local shell"@ && p.socket is None && p.activate
            && p.shells,
{
    if pending {
        None
    } else {
        Some(
            PendingWorkspaceOpen {
                label: "local shell".to_owned(),
                socket: None,
                activate: true,
                shells: true,
            },
        )
    }
}

// ---------------------------------------------------------------------------
// Waiting for it.
// ---------------------------------------------------------------------------

/// What the core says of a workspace that is being opened.
#[derive(Debug, Clone, PartialEq, Eq)]
pub enum OpenReply {
    Waiting,
    Opened(ClientOpenedWorkspace),
    Failed { error: String },
}

/// What follows once a workspace is open.
#[derive(Debug, Clone, PartialEq, Eq)]
pub enum AfterOpen {
    Nothing,
    /// The workspace comes to the front; then the shells are listed where they
    /// were asked for.
    Activate { shells: bool },
    /// The workspace gets a scene in the background.
    Background(WorkspaceId),
}

/// Everything that follows from an answer of the core.
#[derive(Debug, Clone, PartialEq, Eq)]
pub struct OpenEffects {
    /// The wait goes on.
    pub keep_waiting: bool,
    /// The socket to remember.
    pub remember: Option<(WorkspaceId, Option<String>)>,
    /// A line for the log.
    pub notification: Option<String>,
    /// What happens to the workspace.
    pub after: AfterOpen,
    /// The text that takes the place of what the waiting page holds.
    pub error_page: Option<String>,
    /// The active workspace is shown again.
    pub show_active: bool,
    /// The waiting page goes.
    pub remove_loading: bool,
}

/// Whether an opened workspace comes to the front: only while its waiting page
/// is still shown.
pub open spec fn activates(pending: PendingWorkspaceOpen, showing_loading: bool) -> bool {
    showing_loading && pending.activate
}

/// The socket in what the core resolved a workspace to.
pub open spec fn opened_socket(opened: ClientOpenedWorkspace) -> Option<Seq<char>> {
    match opened.resolved_target {
        Some(t) => opt_view(t.socket),
        None => None,
    }
}

/// `e` is what follows from an opened workspace.
pub open spec fn opened_effects(
    e: OpenEffects,
    pending: PendingWorkspaceOpen,
    showing_loading: bool,
    opened: ClientOpenedWorkspace,
    sync_error: Option<Seq<char>>,
) -> bool {
    &&& !e.keep_waiting
    &&& match parsed_id(opened.id@) {
        Some(id) => e.remember matches Some((w, socket)) && w@ == id && opt_view(socket)
            == match pending.socket {
            Some(s) => Some(s@),
            None => opened_socket(opened),
        },
        None => e.remember is None,
    }
    &&& opt_view(e.notification) == match sync_error {
        Some(error) => Some(pending.label@ + ": "@ + error),
        None => None,
    }
    &&& if sync_error is Some {
        e.after is Nothing
    } else if activates(pending, showing_loading) {
        e.after == (AfterOpen::Activate { shells: pending.shells })
    } else {
        match parsed_id(opened.id@) {
            Some(id) => e.after matches AfterOpen::Background(w) && w@ == id,
            None => e.after is Nothing,
        }
    }
    &&& e.error_page is None
    &&& e.show_active == (showing_loading && !pending.activate)
    &&& e.remove_loading
}

/// `e` is what follows from a workspace that could not be opened. The waiting
/// page of a new shell is one word, which stays; only the log tells of it.
pub open spec fn failed_effects(
    e: OpenEffects,
    pending: PendingWorkspaceOpen,
    showing_loading: bool,
    error: Seq<char>,
) -> bool {
    &&& !e.keep_waiting
    &&& e.remember is None
    &&& opt_view(e.notification) == Some(pending.label@ + ": "@ + error)
    &&& e.after is Nothing
    &&& opt_view(e.error_page) == if showing_loading && !pending.shells {
        Some(pending.label@ + "\n"@ + error)
    } else {
        None
    }
    &&& !e.show_active
    &&& e.remove_loading == !showing_loading
}

/// Tells whether the core is asked to activate the workspace once it is open.
pub fn poll_activate(pending: &PendingWorkspaceOpen, showing_loading: bool) -> (r: bool)
    ensures
        r == activates(*pending, showing_loading),
{
    showing_loading && pending.activate
}

/// Returns the socket in what the core resolved a workspace to.
pub fn opened_workspace_socket(opened: &ClientOpenedWorkspace) -> (r: Option<String>)
    ensures
        opt_view(r) == opened_socket(*opened),
{
    match &opened.resolved_target {
        Some(t) => clone_opt(&t.socket),
        None => None,
    }
}

/// Decides what follows from an answer of the core. `sync_error` is why the
/// snapshot could not be refreshed after the workspace was opened.
pub fn poll_pending_open(
    pending: &PendingWorkspaceOpen,
    showing_loading: bool,
    reply: &OpenReply,
    sync_error: Option<&str>,
) -> (r: OpenEffects)
    ensures
        match *reply {
            OpenReply::Waiting => r.keep_waiting && r.remember is None && r.notification is None
                && r.after is Nothing && r.error_page is None && !r.show_active
                && !r.remove_loading,
            OpenReply::Opened(opened) => opened_effects(
                r,
                *pending,
                showing_loading,
                opened,
                match sync_error {
                    Some(s) => Some(s@),
                    None => None,
                },
            ),
            OpenReply::Failed { error } => failed_effects(r, *pending, showing_loading, error@),
        },
{
    match reply {
        OpenReply::Waiting => OpenEffects {
            keep_waiting: true,
            remember: None,
            notification: None,
            after: AfterOpen::Nothing,
            error_page: None,
            show_active: false,
            remove_loading: false,
        },
        OpenReply::Opened(opened) => {
            let activate = poll_activate(pending, showing_loading);
            let id = parse_workspace_id(opened.id.as_str());
            let remember = match &id {
                Some(w) => {
                    let socket = match &pending.socket {
                        Some(s) => Some(s.clone()),
                        None => opened_workspace_socket(opened),
                    };
                    Some((w.clone(), socket))
                },
                None => None,
            };
            let (notification, after): (Option<String>, AfterOpen) = match sync_error {
                Some(error) => (
                    Some(concat3(pending.label.as_str(), ": ", error)),
                    AfterOpen::Nothing,
                ),
                None => if activate {
                    (None, AfterOpen::Activate { shells: pending.shells })
                } else {
                    match id {
                        Some(w) => (None, AfterOpen::Background(w)),
                        None => (None, AfterOpen::Nothing),
                    }
                },
            };
            OpenEffects {
                keep_waiting: false,
                remember,
                notification,
                after,
                error_page: None,
                show_active: showing_loading && !activate,
                remove_loading: true,
            }
        },
        OpenReply::Failed { error } => {
            let page = if showing_loading && !pending.shells {
                Some(concat3(pending.label.as_str(), "\n", error.as_str()))
            } else {
                None
            };
            OpenEffects {
                keep_waiting: false,
                remember: None,
                notification: Some(concat3(pending.label.as_str(), ": ", error.as_str())),
                after: AfterOpen::Nothing,
                error_page: page,
                show_active: false,
                remove_loading: !showing_loading,
            }
        },
    }
}

/// A workspace never comes to the front once its waiting page was left, and
/// an error stays on the page as long as the page is shown.
pub proof fn law_background_open_stays_back(
    e: OpenEffects,
    pending: PendingWorkspaceOpen,
    opened: ClientOpenedWorkspace,
    sync_error: Option<Seq<char>>,
)
    requires
        opened_effects(e, pending, false, opened, sync_error),
    ensures
        !(e.after is Activate),
        !e.show_active,
{
}

// ---------------------------------------------------------------------------
// The second list: what runs on one host.
// ---------------------------------------------------------------------------

/// The transport to a host; `local` is this machine.
pub open spec fn host_transport(t: ExistingTransport, connect: Seq<char>) -> bool {
    if connect == "local"@ {
        t is Local
    } else {
        t matches ExistingTransport::Ssh { name } && name@ == connect
    }
}

/// Returns the transport to a host.
pub fn connect_transport(connect: &str) -> (r: ExistingTransport)
    ensures
        host_transport(r, connect@),
{
    if same(connect, "local") {
        ExistingTransport::Local
    } else {
        ExistingTransport::Ssh { name: connect.to_owned() }
    }
}

/// Returns the transport and the target by which a host is asked what runs on
/// it.
pub fn discover_arguments(connect: &str) -> (r: (&'static str, String))
    ensures
        r.0@ == if connect@ == "local"@ {
            "local"@
        } else {
            "ssh"@
        },
        r.1@ == if connect@ == "local"@ {
            ""@
        } else {
            connect@
        },
{
    if same(connect, "local") {
        ("local", "".to_owned())
    } else {
        ("ssh", connect.to_owned())
    }
}

/// Returns the name of a new tmux session.
pub fn new_session_name(name: Option<String>) -> (r: String)
    ensures
        r@ == match name {
            Some(n) => n@,
            None => "muxterm"@,
        },
{
    match name {
        Some(n) => n,
        None => "muxterm".to_owned(),
    }
}

/// What the user asked for in the list of tmux sessions.
#[derive(Debug, PartialEq, Eq)]
pub enum TmuxAction {
    Attach { session: String },
    NewWorkspace { name: Option<String> },
}

/// What is done to open a tmux session.
#[derive(Debug, PartialEq, Eq)]
pub enum SessionStep {
    /// The session is attached to.
    Open(ClientOpenRequest),
    /// The session is created first; then it is opened under the name that the
    /// core gives it.
    Create(CCall),
}

/// The request attaches to a tmux session.
pub open spec fn attaches(
    q: ClientOpenRequest,
    session: Seq<char>,
    transport: ExistingTransport,
    socket: Option<Seq<char>>,
) -> bool {
    &&& q.intent == ClientOpenIntent::AttachOnly
    &&& q.template is None
    &&& q.activate
    &&& q.candidate matches ClientCandidateRef::Existing { identity } && {
        &&& identity.runtime_id@ == "tmux"@
        &&& identity.transport_id@ == match transport {
            ExistingTransport::Local => "local"@,
            ExistingTransport::Ssh { .. } => "ssh"@,
        }
        &&& identity.target@ == transport_text(transport)
        &&& opt_view(identity.session) == Some(session)
        &&& opt_view(identity.socket) == socket
        &&& identity.workspace_id is None
    }
}

fn attach_request(session: String, transport: ExistingTransport, socket: Option<String>) -> (r:
    ClientOpenRequest)
    ensures
        attaches(r, session@, transport, opt_view(socket)),
{
    ExistingEntry::tmux(session, transport, socket).open_request()
}

/// The arguments for a new tmux session.
pub open spec fn creation(
    transport: Seq<char>,
    target: Option<&str>,
    socket: Option<&str>,
    session: Seq<char>,
    home: Option<Seq<char>>,
) -> CCallView {
    CCallView {
        function: CFunction::WorkspaceCreate,
        args: seq![
            text_arg(transport),
            opt_arg(target),
            opt_arg(socket),
            CArgView::Absent,
            text_arg(session),
            text_arg(
                match home {
                    Some(h) => h,
                    None => "/tmp"@,
                },
            ),
            CArgView::Number(DISCOVERY_TIMEOUT_MS as u64),
        ],
    }
}

/// Returns what is done on an action in the list of tmux sessions on this
/// machine. A new session starts in the home directory.
pub fn open_tmux_attach(action: TmuxAction, socket: Option<&str>, home: Option<String>) -> (r:
    SessionStep)
    ensures
        match action {
            TmuxAction::Attach { session } => r matches SessionStep::Open(q) && attaches(
                q,
                session@,
                ExistingTransport::Local,
                match socket {
                    Some(s) => Some(s@),
                    None => None,
                },
            ),
            TmuxAction::NewWorkspace { name } => r matches SessionStep::Create(call) && call@
                == creation(
                "local"@,
                None,
                socket,
                match name {
                    Some(n) => n@,
                    None => "muxterm"@,
                },
                opt_view(home),
            ),
        },
{
    match action {
        TmuxAction::Attach { session } => {
            let kept = match socket {
                Some(s) => Some(s.to_owned()),
                None => None,
            };
            SessionStep::Open(attach_request(session, ExistingTransport::Local, kept))
        },
        TmuxAction::NewWorkspace { name } => {
            let session = new_session_name(name);
            let dir = home_directory(home);
            let call =
                FfiClient::create_workspace("local", None, socket, session.as_str(), dir.as_str());
            assert(call@.args =~= creation(
                "local"@,
                None,
                socket,
                session@,
                opt_view(home),
            ).args);
            SessionStep::Create(call)
        },
    }
}

fn home_directory(home: Option<String>) -> (r: String)
    ensures
        r@ == match home {
            Some(h) => h@,
            None => "/tmp"@,
        },
{
    match home {
        Some(h) => h,
        None => "/tmp".to_owned(),
    }
}

/// What was picked in the list of what runs on one host.
#[derive(Debug, PartialEq, Eq)]
pub enum HostPick {
    /// A session that runs there.
    Session(String),
    /// A new session with a name.
    NewSession(String),
}

/// Returns what is done on a choice in the list of what runs on one host.
pub fn open_connect_sessions(connect: &str, pick: HostPick, home: Option<String>) -> (r:
    SessionStep)
    ensures
        match pick {
            HostPick::Session(session) => r matches SessionStep::Open(q) && exists|
                t: ExistingTransport,
            | #[trigger]
                host_transport(t, connect@) && attaches(q, session@, t, None),
            HostPick::NewSession(name) => r matches SessionStep::Create(call) && call@ == creation(
                if connect@ == "local"@ {
                    "local"@
                } else {
                    "ssh"@
                },
                if connect@ == "local"@ {
                    None
                } else {
                    Some(connect)
                },
                None,
                name@,
                opt_view(home),
            ),
        },
{
    match pick {
        HostPick::Session(session) => {
            let transport = connect_transport(connect);
            SessionStep::Open(attach_request(session, transport, None))
        },
        HostPick::NewSession(name) => {
            let dir = home_directory(home);
            let (transport, target): (&str, Option<&str>) = if same(connect, "local") {
                ("local", None)
            } else {
                ("ssh", Some(connect))
            };
            let call =
                FfiClient::create_workspace(transport, target, None, name.as_str(), dir.as_str());
            assert(call@.args =~= creation(
                transport@,
                target,
                None,
                name@,
                opt_view(home),
            ).args);
            SessionStep::Create(call)
        },
    }
}

/// Returns the request that opens a session which was just created on a host.
pub fn open_created(connect: &str, created: String, socket: Option<String>) -> (r:
    ClientOpenRequest)
    ensures
        exists|t: ExistingTransport| #[trigger]
            host_transport(t, connect@) && attaches(r, created@, t, opt_view(socket)),
{
    let transport = connect_transport(connect);
    attach_request(created, transport, socket)
}

// ---------------------------------------------------------------------------
// Targets.
// ---------------------------------------------------------------------------

/// Returns the call that opens a target, and creates it where it is missing
/// and the intent is to do so.
pub fn connect_target_with_intent(config: &TargetConfig, intent: ClientOpenIntent) -> (r: CCall)
    ensures
        exists|t: ClientTarget| #[trigger]
            is_target_of(t, *config) && r@ == (CCallView {
                function: CFunction::OpenTarget,
                args: seq![text_arg(target_json(t)), text_arg(intent_word(intent))],
            }),
{
    let target = client_target_from_config(config);
    FfiClient::open_target(&target, intent)
}

/// Returns the call that opens a target and creates it where it is missing.
pub fn connect_target(config: &TargetConfig) -> (r: CCall)
    ensures
        exists|t: ClientTarget| #[trigger]
            is_target_of(t, *config) && r@ == (CCallView {
                function: CFunction::OpenTarget,
                args: seq![
                    text_arg(target_json(t)),
                    text_arg(intent_word(ClientOpenIntent::CreateIfMissing)),
                ],
            }),
{
    connect_target_with_intent(config, ClientOpenIntent::CreateIfMissing)
}

/// Returns the workspace under which the socket of a target is remembered once
/// the target is open.
pub fn opened_target(opened_id: &str, config: &TargetConfig) -> (r: Option<
    (WorkspaceId, Option<String>),
>)
    ensures
        match r {
            Some(e) => Some(e.0@) == parsed_id(opened_id@) && e.1 == config.socket,
            None => parsed_id(opened_id@) is None,
        },
{
    match parse_workspace_id(opened_id) {
        Some(id) => Some((id, clone_opt(&config.socket))),
        None => None,
    }
}

// ---------------------------------------------------------------------------
// Workspaces by the identity under which activity is reported.
// ---------------------------------------------------------------------------

/// A workspace is meant by a reported identity: by its own, or by its session
/// and host.
pub open spec fn replica_matches(
    id: WorkspaceIdView,
    replica_id: Seq<char>,
    requested: Seq<char>,
) -> bool {
    ||| replica_id == requested
    ||| id.session.len() > 0 && requested == id.session + "@"@ + crate::workspace_id::transport_name(
        id,
    )
}

/// Tells whether a workspace is meant by a reported identity.
pub fn workspace_replica_matches(id: &WorkspaceId, replica_id: &str, requested: &str) -> (r: bool)
    ensures
        r == replica_matches(id@, replica_id@, requested@),
{
    if same(replica_id, requested) {
        return true;
    }
    if id.session.as_str().is_empty() {
        return false;
    }
    let name = concat3(id.session.as_str(), "@", id.transport_name().as_str());
    same(requested, name.as_str())
}

} // verus!
