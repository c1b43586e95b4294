//! Connections: what runs elsewhere and how it is opened, the targets of
//! workspaces, how items rank, and what was seen last of a pane.
use vstd::prelude::*;

use crate::client::call::c_text;
use crate::client::query::{CArgView, CFunction};
use crate::client::types::{
    ClientCandidateRef, ClientOpenIntent, ClientOpenRequest, ClientOpenedWorkspace, ClientTarget,
    ClientWorkspace, ExistingCandidate,
};
use crate::linux::connection::{
    connect_failed, connect_open_request, connect_transport, discover_arguments, local_shell_target,
    new_session_name, open_connect_sessions, open_created, open_local_shell, open_tmux_attach,
    poll_activate, poll_pending_open, socket_for, AfterOpen, HostPick, OpenEffects, OpenReply,
    OpenStart, PendingWorkspaceOpen, SessionStep, TmuxAction,
};
use crate::linux::existing::{
    identity_parts, ExistingEntry, ExistingRuntime, ExistingTransport,
};
use crate::linux::last_seen::{
    after_target, baseline_of, dismissed, observed, target_of as line_of, without_workspace,
    LastSeenView, PaneKeyView,
};
use crate::linux::panel_model::PanelItemView;
use crate::linux::panel_rows::{item_score, ranked, scored};
use crate::linux::target::{
    client_target_from_config, target_of, workspace_id_for_config, TargetConfig, TargetRuntime,
    TargetTransport, TargetTransportView,
};
use crate::linux::target_config_window::should_skip_directory_listing;
use crate::seqs::{lemma_first_where, lemma_no_first};
use crate::text::find::contains;
use crate::text::order::ascii_lower;
use crate::text::{lowercase_of, opt_view, trimmed};
use crate::workspace_id::{parsed_id, WorkspaceId, WorkspaceIdView};

verus! {

// ---------------------------------------------------------------------------
// What runs elsewhere.
// ---------------------------------------------------------------------------

proof fn lemma_runtime_words()
    ensures
        "shell"@ != "tmux"@,
        "shell"@ != "herdr"@,
        "tmux"@ != "herdr"@,
        "local"@ != "ssh"@,
{
    reveal_strlit("shell");
    reveal_strlit("tmux");
    reveal_strlit("herdr");
    reveal_strlit("local");
    reveal_strlit("ssh");
    assert("shell"@[0] != "herdr"@[0]);
    assert("tmux"@.len() == 4 && "shell"@.len() == 5 && "herdr"@.len() == 5);
    assert("local"@.len() != "ssh"@.len());
}

/// A candidate with a known runtime and transport is an entry of its name. One
/// with an unknown runtime or transport is refused, with a message that names
/// it.
pub proof fn law_which_candidates_are_entries(
    c: ExistingCandidate,
    r: Result<ExistingEntry, String>,
)
    requires
        call_ensures(ExistingEntry::from_candidate, (c,), r),
    ensures
        ({
            let word = ascii_lower(c.runtime@);
            let known = word == "shell"@ || word == "tmux"@ || word == "herdr"@;
            &&& r is Ok <==> known && (c.transport@ == "local"@ || c.transport@ == "ssh"@)
            &&& !known ==> (r matches Err(m) && m@ == "unsupported Existing runtime '"@ + c.runtime@
                + "' for "@ + c.name@)
            &&& known && r is Err ==> (r matches Err(m) && m@
                == "unsupported Existing transport '"@ + c.transport@ + "' for "@ + c.name@)
            &&& r matches Ok(e) ==> {
                &&& e.title@ == c.name@
                &&& word == "shell"@ <==> e.runtime == ExistingRuntime::Shell
                &&& word == "tmux"@ <==> e.runtime == ExistingRuntime::Tmux
                &&& word == "herdr"@ <==> e.runtime == ExistingRuntime::Herdr
                &&& c.transport@ == "local"@ <==> e.transport is Local
                &&& c.transport@ == "ssh"@ ==> e.transport == (ExistingTransport::Ssh {
                    name: c.target,
                })
            }
        }),
{
    lemma_runtime_words();
}

/// The session and the socket of an entry are those of its candidate, under
/// its own runtime only. A session of tmux without a name is named as the
/// candidate; one of Herdr is named by its namespace, else it is the default.
pub proof fn law_sessions_of_entries(c: ExistingCandidate, e: ExistingEntry)
    requires
        call_ensures(ExistingEntry::from_candidate, (c,), Ok(e)),
    ensures
        e.runtime == ExistingRuntime::Shell ==> e.tmux_session is None && e.tmux_socket is None
            && e.herdr_session is None && e.herdr_socket is None && e.herdr_workspace_id is None,
        e.runtime == ExistingRuntime::Tmux ==> e.herdr_session is None && e.herdr_socket is None
            && e.herdr_workspace_id is None && opt_view(e.tmux_socket) == opt_view(c.socket)
            && e.tmux_session is Some && e.tmux_session->0@ == (if c.session is Some {
            c.session->0@
        } else {
            c.name@
        }),
        e.runtime == ExistingRuntime::Herdr ==> e.tmux_session is None && e.tmux_socket is None
            && opt_view(e.herdr_socket) == opt_view(c.socket) && e.herdr_session is Some,
        e.runtime == ExistingRuntime::Herdr && c.session is Some && c.session->0@.len() > 0
            ==> e.herdr_session->0@ == c.session->0@,
        e.runtime == ExistingRuntime::Herdr && c.session is Some && c.session->0@.len() == 0
            ==> e.herdr_session->0@ == "default"@,
        e.runtime == ExistingRuntime::Herdr && c.session is None && c.namespace is Some
            && c.namespace->0@.len() > 0 ==> e.herdr_session->0@ == c.namespace->0@,
        e.runtime == ExistingRuntime::Herdr && c.session is None && c.namespace is None
            ==> e.herdr_session->0@ == "default"@,
        e.runtime == ExistingRuntime::Herdr && c.workspace_id is Some && c.workspace_id->0@.len()
            > 0 ==> opt_view(e.herdr_workspace_id) == opt_view(c.workspace_id),
        e.runtime == ExistingRuntime::Herdr && (c.workspace_id is None || c.workspace_id->0@.len()
            == 0) ==> e.herdr_workspace_id is None,
{
    lemma_runtime_words();
}

/// An entry is attached to, never made: with its runtime, its transport, its
/// target, and the session and socket of that runtime.
pub proof fn law_how_an_entry_is_opened(e: ExistingEntry, r: ClientOpenRequest)
    requires
        call_ensures(ExistingEntry::open_request, (&e,), r),
    ensures
        r.intent == ClientOpenIntent::AttachOnly && r.template is None && r.activate,
        r.candidate matches ClientCandidateRef::Existing { identity } && {
            &&& e.runtime == ExistingRuntime::Shell ==> identity.runtime_id@ == "shell"@
                && identity.session is None && identity.socket is None && identity.workspace_id
                is None
            &&& e.runtime == ExistingRuntime::Tmux ==> identity.runtime_id@ == "tmux"@
                && identity.session == e.tmux_session && identity.socket == e.tmux_socket
                && identity.workspace_id is None
            &&& e.runtime == ExistingRuntime::Herdr ==> identity.runtime_id@ == "herdr"@
                && identity.session == e.herdr_session && identity.socket == e.herdr_socket
                && identity.workspace_id == e.herdr_workspace_id
            &&& e.transport is Local ==> identity.transport_id@ == "local"@ && identity.target@
                == "local"@
            &&& e.transport matches ExistingTransport::Ssh { name } ==> identity.transport_id@
                == "ssh"@ && identity.target@ == name@
        },
{
}

/// The line below an entry, the fields it is found by, and an entry of tmux.
pub proof fn law_texts_of_entries(
    e: ExistingEntry,
    line: String,
    fields: Vec<String>,
    name: String,
    transport: ExistingTransport,
    socket: Option<String>,
    made: ExistingEntry,
)
    requires
        call_ensures(ExistingEntry::subtitle, (&e,), line),
        call_ensures(ExistingEntry::search_fields, (&e,), fields),
        call_ensures(ExistingEntry::tmux, (name, transport, socket), made),
    ensures
        e.runtime == ExistingRuntime::Shell && e.transport is Local ==> line@ == "shell"@ + " @ "@
            + "local"@,
        e.runtime == ExistingRuntime::Tmux ==> (e.transport matches ExistingTransport::Ssh {
            name,
        } ==> line@ == "tmux"@ + " @ "@ + name@),
        e.runtime == ExistingRuntime::Herdr ==> (e.transport matches ExistingTransport::Ssh {
            name,
        } ==> line@ == "herdr"@ + " @ "@ + name@),
        fields@.len() == 8,
        fields@[0]@ == e.title@,
        e.tmux_session is Some ==> fields@[3]@ == e.tmux_session->0@,
        e.tmux_socket is Some ==> fields@[4]@ == e.tmux_socket->0@,
        e.herdr_session is Some ==> fields@[5]@ == e.herdr_session->0@,
        e.herdr_socket is Some ==> fields@[6]@ == e.herdr_socket->0@,
        e.herdr_workspace_id is Some ==> fields@[7]@ == e.herdr_workspace_id->0@,
        made.title == name && made.runtime == ExistingRuntime::Tmux && made.transport == transport
            && made.tmux_session == Some(name) && made.tmux_socket == socket,
{
    let views = crate::text::views(fields@);
    assert(views.len() == fields@.len());
    assert(views[0] == fields@[0]@ && views[3] == fields@[3]@ && views[4] == fields@[4]@);
    assert(views[5] == fields@[5]@ && views[6] == fields@[6]@ && views[7] == fields@[7]@);
}

/// What tells entries apart: the runtime, the transport and its host, then for
/// a shell its title, for tmux its session and socket, and for Herdr its
/// session, socket and workspace.
pub proof fn law_what_tells_entries_apart(e: ExistingEntry)
    ensures
        identity_parts(e).len() >= 4,
        e.transport is Local ==> identity_parts(e)[1] == "local"@ && identity_parts(e)[2].len()
            == 0,
        e.transport matches ExistingTransport::Ssh { name } ==> identity_parts(e)[1] == "ssh"@
            && identity_parts(e)[2] == name@,
        e.runtime == ExistingRuntime::Shell ==> identity_parts(e)[0] == "shell"@ && identity_parts(
            e,
        )[3] == e.title@,
        e.runtime == ExistingRuntime::Tmux ==> identity_parts(e)[0] == "tmux"@,
        e.runtime == ExistingRuntime::Tmux && e.tmux_session is Some && e.tmux_session->0@.len() > 0
            ==> identity_parts(e)[3] == e.tmux_session->0@,
        e.runtime == ExistingRuntime::Tmux && e.tmux_session is None ==> identity_parts(e)[3]
            == e.title@,
        e.runtime == ExistingRuntime::Tmux && e.tmux_socket is Some ==> identity_parts(e)[4]
            == e.tmux_socket->0@,
        e.runtime == ExistingRuntime::Herdr && e.herdr_session is Some && e.herdr_session->0@.len()
            > 0 && e.herdr_socket is Some && e.herdr_socket->0@.len() > 0 && e.herdr_workspace_id
            is Some && e.herdr_workspace_id->0@.len() > 0 ==> identity_parts(e)[0] == "herdr"@
            && identity_parts(e)[3] == e.herdr_session->0@ && identity_parts(e)[4]
            == e.herdr_socket->0@ && identity_parts(e)[5] == e.herdr_workspace_id->0@,
        e.runtime == ExistingRuntime::Herdr && e.herdr_workspace_id is None ==> identity_parts(e)[0]
            == "herdr-provisional"@ && identity_parts(e)[3] == e.title@,
{
}

// ---------------------------------------------------------------------------
// Targets.
// ---------------------------------------------------------------------------

/// The workspace of a target has its transport, its host, its runtime and its
/// path, and the session that is given.
pub proof fn law_the_identity_of_a_target(c: TargetConfig, session: &str, r: WorkspaceId)
    requires
        call_ensures(workspace_id_for_config, (&c, session), r),
    ensures
        r@.session == session@ && r@.path == c.path@,
        c.transport is Local ==> r@.transport == "local"@ && r@.alias is None,
        c.transport matches TargetTransport::Ssh { name } ==> r@.transport == "ssh"@ && r@.alias
            == Some(name@),
        c.runtime == TargetRuntime::Shell ==> r@.runtime == "shell"@,
        c.runtime == TargetRuntime::Tmux ==> r@.runtime == "tmux"@,
        c.runtime == TargetRuntime::Herdr ==> r@.runtime == "herdr"@,
{
}

/// A target goes to the core with its own fields.
pub proof fn law_a_target_goes_as_it_is(c: TargetConfig, r: ClientTarget)
    requires
        call_ensures(client_target_from_config, (&c,), r),
    ensures
        r.name@ == c.name@ && r.path@ == c.path@ && r.session == c.session && r.socket == c.socket,
        c.transport is Local ==> r.transport@ == "local"@ && r.target is None,
        c.transport matches TargetTransport::Ssh { name } ==> r.transport@ == "ssh"@ && opt_view(
            r.target,
        ) == Some(name@),
        c.runtime == TargetRuntime::Shell ==> r.runtime@ == "shell"@,
        c.runtime == TargetRuntime::Tmux ==> r.runtime@ == "tmux"@,
        c.runtime == TargetRuntime::Herdr ==> r.runtime@ == "herdr"@,
{
}

/// A workspace that was resolved has the target it was resolved to.
pub proof fn law_a_resolved_workspace_has_its_target(
    w: ClientWorkspace,
    socket: Option<Seq<char>>,
    default_name: Seq<char>,
)
    requires
        w.resolved_target is Some,
    ensures
        ({
            let c = w.resolved_target->0;
            let t = target_of(w, socket, default_name);
            &&& c.name is Some ==> t.name == c.name->0@
            &&& c.name is None ==> t.name == w.name@
            &&& c.path is Some ==> t.path == c.path->0@
            &&& c.path is None ==> t.path.len() == 0
            &&& t.session == opt_view(c.session)
            &&& t.workspace_id == opt_view(c.workspace_id)
            &&& c.socket is Some ==> t.socket == Some(c.socket->0@)
            &&& c.socket is None ==> t.socket == socket
            &&& t.transport is Ssh <==> c.transport is Some && c.transport->0@ == "ssh"@
            &&& t.transport matches TargetTransportView::Ssh { name } ==> (c.target is Some
                ==> name == c.target->0@)
            &&& c.runtime is Some && ascii_lower(c.runtime->0@) == "shell"@ ==> t.runtime
                == TargetRuntime::Shell
            &&& c.runtime is Some && ascii_lower(c.runtime->0@) == "tmux"@ ==> t.runtime
                == TargetRuntime::Tmux
            &&& c.runtime is Some && ascii_lower(c.runtime->0@) == "herdr"@ ==> t.runtime
                == TargetRuntime::Herdr
            &&& c.runtime is None && ascii_lower(w.runtime@) == "herdr"@ ==> t.runtime
                == TargetRuntime::Herdr
            &&& c.runtime is None && ascii_lower(w.runtime@) == "shell"@ ==> t.runtime
                == TargetRuntime::Shell
        }),
{
    lemma_runtime_words();
}

/// A workspace that was not resolved has the target that its identity names;
/// only tmux has a session and a socket there.
pub proof fn law_an_identity_has_its_target(
    w: ClientWorkspace,
    socket: Option<Seq<char>>,
    default_name: Seq<char>,
)
    requires
        w.resolved_target is None,
    ensures
        ({
            let t = target_of(w, socket, default_name);
            &&& t.workspace_id is None
            &&& parsed_id(w.id@) is None ==> t.name == w.name@ && t.transport is Local
                && t.path.len()
                == 0 && t.session is None && t.socket is None
            &&& parsed_id(w.id@) matches Some(id) ==> {
                let word = ascii_lower(id.runtime);
                &&& id.session.len() > 0 ==> t.name == id.session
                &&& id.session.len() == 0 ==> t.name == default_name && t.session is None
                &&& t.path == id.path
                &&& t.transport is Ssh <==> id.transport == "ssh"@ && id.alias is Some
                &&& t.transport matches TargetTransportView::Ssh { name } ==> Some(name) == id.alias
                &&& t.runtime == TargetRuntime::Shell <==> word == "shell"@
                &&& t.runtime == TargetRuntime::Herdr <==> word == "herdr"@
                &&& t.runtime == TargetRuntime::Tmux <==> word != "shell"@ && word != "herdr"@
                &&& t.runtime == TargetRuntime::Tmux ==> t.socket == socket
                &&& t.runtime == TargetRuntime::Tmux && id.session.len() > 0 ==> t.session == Some(
                    id.session,
                )
                &&& t.runtime != TargetRuntime::Tmux ==> t.socket is None && t.session is None
            }
        }),
{
    lemma_runtime_words();
}

/// The folders of a host are listed once one is chosen; those of this machine
/// always.
pub proof fn law_when_folders_are_listed(ssh: bool, alias: &str, some: bool, none: bool)
    requires
        call_ensures(should_skip_directory_listing, (ssh, Some(alias)), some),
        call_ensures(should_skip_directory_listing, (ssh, None), none),
    ensures
        none == ssh,
        some <==> ssh && trimmed(alias@).len() == 0,
{
}

// ---------------------------------------------------------------------------
// Opening.
// ---------------------------------------------------------------------------

/// While one request is pending no other starts. A request that starts is
/// named after what it opens, and never opens the overview of shells.
pub proof fn law_how_a_request_starts(
    request: ClientOpenRequest,
    busy: OpenStart,
    free: OpenStart,
)
    requires
        call_ensures(connect_open_request, (true, &request), busy),
        call_ensures(connect_open_request, (false, &request), free),
    ensures
        busy is ShowLoading,
        free matches OpenStart::Start(p) && {
            &&& p.activate == request.activate
            &&& !p.shells
            &&& request.candidate matches ClientCandidateRef::Project { project_id } ==> p.label@
                == "project "@ + project_id@ && p.socket is None
            &&& request.candidate matches ClientCandidateRef::Recent { key } ==> p.label@
                == "recent "@ + key@ && p.socket is None
            &&& request.candidate is Worktree ==> p.label@ == "existing connection"@ && p.socket
                is None
            &&& request.candidate matches ClientCandidateRef::Existing { identity } ==> p.label@
                == identity.runtime_id@ + " @ "@ + identity.target@ && opt_view(p.socket)
                == opt_view(identity.socket)
        },
{
}

/// The local shell is opened in the home directory, in the overview of shells,
/// unless something is pending.
pub proof fn law_the_local_shell(
    target: TargetConfig,
    busy: Option<PendingWorkspaceOpen>,
    free: Option<PendingWorkspaceOpen>,
    line: String,
    label: &str,
    detail: &str,
)
    requires
        call_ensures(local_shell_target, (), target),
        call_ensures(open_local_shell, (true,), busy),
        call_ensures(open_local_shell, (false,), free),
        call_ensures(connect_failed, (label, detail), line),
    ensures
        busy is None,
        free matches Some(p) && p.label@ == "local shell"@ && p.socket is None && p.activate
            && p.shells,
        target@.name == "local"@ && target@.runtime == TargetRuntime::Shell && target@.transport
            is Local && target@.path == "~"@ && target@.session is None && target@.socket is None,
        line@ == label@ + ": connect failed: "@ + detail@,
{
}

/// Nothing happens while the answer is awaited.
pub proof fn law_nothing_happens_while_waiting(
    p: PendingWorkspaceOpen,
    loading: bool,
    e: OpenEffects,
)
    requires
        call_ensures(poll_pending_open, (&p, loading, &OpenReply::Waiting, None), e),
    ensures
        e.keep_waiting,
        e.remember is None && e.notification is None && e.after is Nothing && e.error_page is None,
        !e.show_active && !e.remove_loading,
{
}

/// A workspace that opened is remembered with its socket, and is brought in
/// front exactly where the user still waits for it and asked for that.
pub proof fn law_what_happens_when_it_opened(
    p: PendingWorkspaceOpen,
    loading: bool,
    opened: ClientOpenedWorkspace,
    e: OpenEffects,
    shown: bool,
)
    requires
        call_ensures(poll_pending_open, (&p, loading, &OpenReply::Opened(opened), None), e),
        call_ensures(poll_activate, (&p, loading), shown),
    ensures
        shown <==> loading && p.activate,
        !e.keep_waiting && e.remove_loading && e.notification is None && e.error_page is None,
        e.after is Activate <==> loading && p.activate,
        e.after matches AfterOpen::Activate { shells } ==> shells == p.shells,
        e.show_active <==> loading && !p.activate,
        parsed_id(opened.id@) is None ==> e.remember is None,
        parsed_id(opened.id@) matches Some(id) ==> {
            &&& e.remember matches Some((w, socket)) && w@ == id && (p.socket is Some ==> opt_view(
                socket,
            ) == Some(p.socket->0@)) && (p.socket is None && opened.resolved_target is Some
                ==> opt_view(socket) == opt_view(opened.resolved_target->0.socket)) && (p.socket
                is None && opened.resolved_target is None ==> socket is None)
            &&& !(loading && p.activate) ==> (e.after matches AfterOpen::Background(w) && w@ == id)
        },
{
}

/// A workspace that opened but could not be read is reported, and not shown.
pub proof fn law_what_happens_when_it_cannot_be_read(
    p: PendingWorkspaceOpen,
    loading: bool,
    opened: ClientOpenedWorkspace,
    error: &str,
    e: OpenEffects,
)
    requires
        call_ensures(poll_pending_open, (&p, loading, &OpenReply::Opened(opened), Some(error)), e),
    ensures
        opt_view(e.notification) == Some(p.label@ + ": "@ + error@),
        e.after is Nothing && e.error_page is None && !e.keep_waiting,
{
}

/// What failed is reported; the page says so where the user still waits for
/// it, but for the shells.
pub proof fn law_what_happens_when_it_failed(
    p: PendingWorkspaceOpen,
    loading: bool,
    error: String,
    e: OpenEffects,
)
    requires
        call_ensures(poll_pending_open, (&p, loading, &(OpenReply::Failed { error }), None), e),
    ensures
        opt_view(e.notification) == Some(p.label@ + ": "@ + error@),
        e.remember is None && e.after is Nothing && !e.show_active && !e.keep_waiting,
        loading && !p.shells ==> opt_view(e.error_page) == Some(p.label@ + "\n"@ + error@),
        !loading || p.shells ==> e.error_page is None,
        e.remove_loading <==> !loading,
{
}

/// This machine goes by the word `local`; anything else is an SSH host.
pub proof fn law_where_a_connection_leads(
    connect: &str,
    transport: ExistingTransport,
    args: (&'static str, String),
)
    requires
        call_ensures(connect_transport, (connect,), transport),
        call_ensures(discover_arguments, (connect,), args),
    ensures
        connect@ == "local"@ ==> transport is Local && args.0@ == "local"@ && args.1@.len() == 0,
        connect@ != "local"@ ==> (transport matches ExistingTransport::Ssh { name } && name@
            == connect@) && args.0@ == "ssh"@ && args.1@ == connect@,
{
    reveal_strlit("");
}

/// A session of this machine is attached to by its name; a new one is made
/// with its name, or as `muxterm`, in the home directory.
pub proof fn law_sessions_of_this_machine(
    session: String,
    name: Option<String>,
    socket: Option<&str>,
    home: Option<String>,
    attach: SessionStep,
    create: SessionStep,
    given: String,
)
    requires
        call_ensures(open_tmux_attach, (TmuxAction::Attach { session }, socket, home), attach),
        call_ensures(open_tmux_attach, (TmuxAction::NewWorkspace { name }, socket, home), create),
        call_ensures(new_session_name, (name,), given),
    ensures
        name is Some ==> given@ == name->0@,
        name is None ==> given@ == "muxterm"@,
        attach matches SessionStep::Open(q) && q.intent == ClientOpenIntent::AttachOnly
            && q.activate && (q.candidate matches ClientCandidateRef::Existing { identity }
            && identity.runtime_id@ == "tmux"@ && identity.transport_id@ == "local"@
            && identity.target@ == "local"@ && opt_view(identity.session) == Some(session@) && (
        socket is Some ==> opt_view(identity.socket) == Some((socket->0)@)) && (socket is None
            ==> identity.socket is None)),
        create matches SessionStep::Create(call) && call@.function == CFunction::WorkspaceCreate
            && call@.args.len() == 7 && call@.args[0] == CArgView::Text(c_text("local"@))
            && call@.args[1] == CArgView::Absent && (socket is Some ==> call@.args[2]
            == CArgView::Text(c_text((socket->0)@))) && (socket is None ==> call@.args[2]
            == CArgView::Absent) && call@.args[3] == CArgView::Absent && call@.args[4]
            == CArgView::Text(c_text(given@)) && (home is Some ==> call@.args[5] == CArgView::Text(
            c_text(home->0@),
        )) && (home is None ==> call@.args[5] == CArgView::Text(c_text("/tmp"@)))
            && call@.args[6] == CArgView::Number(10000),
{
}

/// A session of a host is attached to there; a new one is made there.
pub proof fn law_sessions_of_a_host(
    connect: &str,
    session: String,
    home: Option<String>,
    attach: SessionStep,
    create: SessionStep,
)
    requires
        connect@ != "local"@,
        call_ensures(open_connect_sessions, (connect, HostPick::Session(session), home), attach),
        call_ensures(open_connect_sessions, (connect, HostPick::NewSession(session), home), create),
    ensures
        attach matches SessionStep::Open(q) && q.intent == ClientOpenIntent::AttachOnly && (
        q.candidate matches ClientCandidateRef::Existing { identity } && identity.runtime_id@
            == "tmux"@ && identity.transport_id@ == "ssh"@ && identity.target@ == connect@
            && opt_view(identity.session) == Some(session@) && identity.socket is None),
        create matches SessionStep::Create(call) && call@.function == CFunction::WorkspaceCreate
            && call@.args[0] == CArgView::Text(c_text("ssh"@)) && call@.args[1] == CArgView::Text(
            c_text(connect@),
        ) && call@.args[2] == CArgView::Absent && call@.args[4] == CArgView::Text(
            c_text(session@),
        ),
{
}

/// What was made is attached to, with its socket.
pub proof fn law_what_was_made_is_attached_to(
    connect: &str,
    created: String,
    socket: Option<String>,
    r: ClientOpenRequest,
)
    requires
        call_ensures(open_created, (connect, created, socket), r),
    ensures
        r.intent == ClientOpenIntent::AttachOnly,
        r.candidate matches ClientCandidateRef::Existing { identity } && opt_view(identity.session)
            == Some(created@) && opt_view(identity.socket) == opt_view(socket) && (connect@
            == "local"@ ==> identity.transport_id@ == "local"@) && (connect@ != "local"@
            ==> identity.transport_id@ == "ssh"@ && identity.target@ == connect@),
{
}

/// The socket of a workspace is that of the first entry of its identity.
pub proof fn law_the_socket_of_a_workspace(
    sockets: Seq<(WorkspaceId, Option<String>)>,
    id: WorkspaceIdView,
    k: int,
)
    ensures
        socket_for(sockets, None) is None,
        0 <= k < sockets.len() && sockets[k].0@ == id && (forall|j: int|
            0 <= j < k ==> (#[trigger] sockets[j]).0@ != id) ==> socket_for(sockets, Some(id))
            == opt_view(sockets[k].1),
        (forall|j: int| 0 <= j < sockets.len() ==> (#[trigger] sockets[j]).0@ != id) ==> socket_for(
            sockets,
            Some(id),
        ) is None,
{
    let f = crate::linux::connection::socket_entry_is(id);
    if 0 <= k < sockets.len() && sockets[k].0@ == id && (forall|j: int|
        0 <= j < k ==> (#[trigger] sockets[j]).0@ != id) {
        lemma_first_where(sockets, f, k);
    }
    if forall|j: int| 0 <= j < sockets.len() ==> (#[trigger] sockets[j]).0@ != id {
        lemma_no_first(sockets, f);
    }
}

// ---------------------------------------------------------------------------
// Ranks.
// ---------------------------------------------------------------------------

/// Targets, rows that run and hosts keep the score they are given; an item of
/// the panel itself is kept where its title holds the query, the way back
/// always.
pub proof fn law_the_score_of_an_item(
    item: PanelItemView,
    needle: Seq<char>,
    given: Option<u32>,
    new_project: Seq<char>,
)
    ensures
        item is Target || item is Existing || item is Host ==> item_score(
            item,
            needle,
            given,
            new_project,
        ) == given,
        item is Back || item is Loading ==> item_score(item, needle, given, new_project) == Some(
            0u32,
        ),
        item matches PanelItemView::Folder { id, title } ==> (item_score(
            item,
            needle,
            given,
            new_project,
        ) == Some(0u32) <==> contains(lowercase_of(title), needle)),
        item matches PanelItemView::Empty { title } ==> (item_score(
            item,
            needle,
            given,
            new_project,
        ) == Some(0u32) <==> contains(lowercase_of(title), needle)),
        item is NewProject ==> (item_score(item, needle, given, new_project) == Some(0u32)
            <==> contains("new project "@ + lowercase_of(new_project), needle)),
        !(item is Target || item is Existing || item is Host) ==> item_score(
            item,
            needle,
            given,
            new_project,
        ) is None || item_score(item, needle, given, new_project) == Some(0u32),
{
}

/// Items with a score are kept, each with its place, and the higher score is
/// first.
pub proof fn law_the_higher_score_is_first(scores: Seq<Option<u32>>, i: int, j: int)
    requires
        scores.len() <= usize::MAX,
    ensures
        0 <= i < j < ranked(scores).len() ==> ranked(scores)[i].1 >= ranked(scores)[j].1,
        0 <= i < scores.len() && scores[i] is Some ==> ranked(scores).contains(
            (i as usize, scores[i]->0),
        ),
        0 <= i < ranked(scores).len() ==> ranked(scores)[i].0 < scores.len()
            && scores[ranked(scores)[i].0 as int] == Some(ranked(scores)[i].1),
{
    crate::linux::panel_rows::law_items_rank_by_score(scores);
    let leq = crate::linux::panel_rows::by_score();
    let all = ranked(scores);
    if 0 <= i < j < all.len() {
        assert(leq(all[i], all[j]));
    }
    scored(scores).to_multiset_ensures();
    all.to_multiset_ensures();
    if 0 <= i < scores.len() && scores[i] is Some {
        lemma_scored(scores, i);
        let e = (i as usize, scores[i]->0);
        assert(scored(scores).to_multiset().count(e) > 0);
        assert(all.contains(e));
    }
    if 0 <= i < all.len() {
        let e = all[i];
        assert(all.contains(e));
        assert(scored(scores).to_multiset().count(e) > 0);
        assert(scored(scores).contains(e));
        let n = choose|n: int| 0 <= n < scored(scores).len() && scored(scores)[n] == e;
        lemma_scored_from(scores, n);
    }
}

proof fn lemma_scored(scores: Seq<Option<u32>>, i: int)
    requires
        0 <= i < scores.len() <= usize::MAX,
        scores[i] is Some,
    ensures
        scored(scores).contains((i as usize, scores[i]->0)),
    decreases scores.len(),
{
    let all = scored(scores);
    if i < scores.len() - 1 {
        let init = scores.drop_last();
        lemma_scored(init, i);
        let rest = scored(init);
        let n = choose|n: int| 0 <= n < rest.len() && rest[n] == (i as usize, scores[i]->0);
        assert(all[n] == rest[n]);
    } else {
        assert(all[all.len() - 1] == (i as usize, scores[i]->0));
    }
}

proof fn lemma_scored_from(scores: Seq<Option<u32>>, n: int)
    requires
        0 <= n < scored(scores).len(),
        scores.len() <= usize::MAX,
    ensures
        scored(scores)[n].0 < scores.len(),
        scores[scored(scores)[n].0 as int] == Some(scored(scores)[n].1),
    decreases scores.len(),
{
    let init = scores.drop_last();
    let rest = scored(init);
    if n < rest.len() {
        lemma_scored_from(init, n);
        assert(scored(scores)[n] == rest[n]);
        assert(init[rest[n].0 as int] == scores[rest[n].0 as int]);
    }
}

// ---------------------------------------------------------------------------
// What was seen last.
// ---------------------------------------------------------------------------

/// A pane that is left is remembered at the line that was its last, if that is
/// known. Nothing else that is remembered changes, and what stays in front
/// changes nothing.
pub proof fn law_a_pane_is_remembered_when_it_is_left(
    s: LastSeenView,
    left: PaneKeyView,
    key: PaneKeyView,
    other: PaneKeyView,
    n: u64,
    latest: Option<u64>,
)
    requires
        left != key,
    ensures
        s.current == Some((left, Some(n))) ==> baseline_of(observed(s, key, latest), left) == Some(
            n,
        ) && observed(s, key, latest).offer is None,
        s.current == Some((left, None::<u64>)) ==> baseline_of(observed(s, key, latest), left)
            == baseline_of(s, left),
        other != left && s.current is Some && (s.current->0).0 == left ==> baseline_of(
            observed(s, key, latest),
            other,
        ) == baseline_of(s, other),
        s.current is Some && (s.current->0).0 == key ==> observed(s, key, latest).baselines
            == s.baselines && observed(s, key, latest).offer == s.offer,
        latest == Some(0u64) || latest is None ==> observed(s, key, latest).current == Some(
            (key, None::<u64>),
        ),
        latest is Some && latest->0 > 0 ==> observed(s, key, latest).current == Some((key, latest)),
{
}

/// The way back is offered for the pane in front, where it has lines that are
/// newer than those seen last, for four seconds.
pub proof fn law_when_the_way_back_is_offered(
    s: LastSeenView,
    key: PaneKeyView,
    offset: u32,
    now: u64,
)
    requires
        now <= u64::MAX - 4000,
    ensures
        ({
            let news = s.current is Some && (s.current->0).0 == key && (s.current->0).1 is Some
                && baseline_of(s, key) is Some && (s.current->0).1->0 > baseline_of(s, key)->0;
            let over = s.offer is Some && (s.offer->0).owner == key && now >= (s.offer->0).deadline;
            &&& news && !over ==> line_of(s, key, Some(offset), now) == Some(offset)
            &&& !news || over ==> line_of(s, key, Some(offset), now) is None
            &&& !news || over ==> after_target(s, key, Some(offset), now).offer is None
            &&& over ==> baseline_of(after_target(s, key, Some(offset), now), key) is None
            &&& news && !over ==> {
                let o = after_target(s, key, Some(offset), now).offer->0;
                &&& after_target(s, key, Some(offset), now).offer is Some
                &&& o.owner == key && o.offset == offset && o.valid == now
                &&& s.offer is None ==> o.deadline == now + 4000
                &&& s.offer is Some && (s.offer->0).owner == key ==> o.deadline
                    == (s.offer->0).deadline
            }
        }),
{
}

/// Without a line the last one that was found stands for a second.
pub proof fn law_the_last_line_stands_for_a_moment(
    s: LastSeenView,
    key: PaneKeyView,
    now: u64,
    line: u32,
)
    ensures
        line_of(s, key, None, now) == Some(line) ==> s.offer is Some && (s.offer->0).owner == key
            && (s.offer->0).offset == line && now < (s.offer->0).deadline && now
            - (s.offer->0).valid <= 1000,
        s.current is Some && (s.current->0).0 == key && (s.current->0).1 is Some && baseline_of(
            s,
            key,
        ) is Some && (s.current->0).1->0 > baseline_of(s, key)->0 && s.offer is Some && (
        s.offer->0).owner == key && now < (s.offer->0).deadline && now - (s.offer->0).valid <= 1000
            ==> line_of(s, key, None, now) == Some((s.offer->0).offset),
        s.offer is None ==> line_of(s, key, None, now) is None,
{
}

/// What is dismissed is forgotten for that pane alone; a workspace that goes
/// takes all its panes with it and no others.
pub proof fn law_what_is_forgotten(
    s: LastSeenView,
    key: PaneKeyView,
    other: PaneKeyView,
    workspace: Seq<char>,
)
    ensures
        baseline_of(dismissed(s, key), key) is None,
        other != key ==> baseline_of(dismissed(s, key), other) == baseline_of(s, other),
        dismissed(s, key).offer is None && dismissed(s, key).current == s.current,
        other.workspace == workspace ==> baseline_of(without_workspace(s, workspace), other)
            is None,
        other.workspace != workspace ==> baseline_of(without_workspace(s, workspace), other)
            == baseline_of(s, other),
        s.current is Some && (s.current->0).0.workspace == workspace ==> without_workspace(
            s,
            workspace,
        ).current is None && without_workspace(s, workspace).offer is None,
        s.current is Some && (s.current->0).0.workspace != workspace ==> without_workspace(
            s,
            workspace,
        ).current == s.current && without_workspace(s, workspace).offer == s.offer,
{
}

} // verus!
