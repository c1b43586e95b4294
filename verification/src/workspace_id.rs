//! The identity of a workspace.
use vstd::prelude::*;
use vstd::string::*;

use crate::text::split::{cut, cut_at, lemma_cut_at};
use crate::text::{clone_opt, opt_view, push_char, same};

verus! {

/// The identity of a workspace: how and where it runs.
#[derive(Debug, PartialEq, Eq)]
pub struct WorkspaceId {
    pub transport: String,
    pub alias: Option<String>,
    pub session: String,
    pub runtime: String,
    pub path: String,
}

impl Clone for WorkspaceId {
    fn clone(&self) -> (r: Self)
        ensures
            r == *self,
    {
        WorkspaceId {
            transport: self.transport.clone(),
            alias: clone_opt(&self.alias),
            session: self.session.clone(),
            runtime: self.runtime.clone(),
            path: self.path.clone(),
        }
    }
}

/// The view of a [`WorkspaceId`].
pub struct WorkspaceIdView {
    pub transport: Seq<char>,
    pub alias: Option<Seq<char>>,
    pub session: Seq<char>,
    pub runtime: Seq<char>,
    pub path: Seq<char>,
}

impl View for WorkspaceId {
    type V = WorkspaceIdView;

    open spec fn view(&self) -> WorkspaceIdView {
        WorkspaceIdView {
            transport: self.transport@,
            alias: opt_view(self.alias),
            session: self.session@,
            runtime: self.runtime@,
            path: self.path@,
        }
    }
}

/// The view of an optional identity.
pub open spec fn id_view(id: Option<WorkspaceId>) -> Option<WorkspaceIdView> {
    match id {
        Some(w) => Some(w@),
        None => None,
    }
}

/// The identity in the last of five parts: the fifth may be missing.
pub open spec fn id_from(
    transport: Seq<char>,
    alias: Seq<char>,
    session: Seq<char>,
    rest: Seq<char>,
) -> Option<WorkspaceIdView> {
    let (runtime, path) = match cut_at(rest, '/') {
        Some((a, b)) => (a, b),
        None => (rest, Seq::<char>::empty()),
    };
    if transport.len() == 0 || runtime.len() == 0 {
        None
    } else {
        Some(
            WorkspaceIdView {
                transport,
                alias: if alias.len() == 0 {
                    None
                } else {
                    Some(alias)
                },
                session,
                runtime,
                path,
            },
        )
    }
}

/// The identity that a string names: transport, alias, session, runtime and
/// path, with slashes between them. Only the path may hold slashes, and only
/// it may be missing; an empty alias is none.
pub open spec fn parsed_id(s: Seq<char>) -> Option<WorkspaceIdView> {
    match cut_at(s, '/') {
        Some((transport, r1)) => match cut_at(r1, '/') {
            Some((alias, r2)) => match cut_at(r2, '/') {
                Some((session, r3)) => id_from(transport, alias, session, r3),
                None => None,
            },
            None => None,
        },
        None => None,
    }
}

/// Reads the identity that a string names.
pub fn parse_workspace_id(value: &str) -> (r: Option<WorkspaceId>)
    ensures
        id_view(r) == parsed_id(value@),
{
    let (transport, r1) = match cut(value, '/') {
        Some(p) => p,
        None => {
            return None;
        },
    };
    let (alias, r2) = match cut(r1.as_str(), '/') {
        Some(p) => p,
        None => {
            return None;
        },
    };
    let (session, r3) = match cut(r2.as_str(), '/') {
        Some(p) => p,
        None => {
            return None;
        },
    };
    let (runtime, path) = match cut(r3.as_str(), '/') {
        Some(p) => p,
        None => (r3, String::new()),
    };
    if transport.as_str().is_empty() || runtime.as_str().is_empty() {
        return None;
    }
    let alias = if alias.as_str().is_empty() {
        None
    } else {
        Some(alias)
    };
    Some(WorkspaceId { transport, alias, session, runtime, path })
}

/// The string that names an identity.
pub open spec fn id_text(id: WorkspaceIdView) -> Seq<char> {
    id.transport + seq!['/'] + (match id.alias {
        Some(a) => a,
        None => Seq::<char>::empty(),
    } + seq!['/'] + (id.session + seq!['/'] + (id.runtime + seq!['/'] + id.path)))
}

/// The transport as it is shown: the alias of an SSH host, else `local`.
pub open spec fn transport_name(id: WorkspaceIdView) -> Seq<char> {
    if id.transport == "ssh"@ {
        match id.alias {
            Some(a) => a,
            None => "ssh"@,
        }
    } else {
        "local"@
    }
}

impl WorkspaceId {
    /// Makes an identity.
    pub fn new(
        transport: &str,
        alias: Option<&str>,
        session: &str,
        runtime: &str,
        path: &str,
    ) -> (r: Self)
        ensures
            r.transport@ == transport@,
            opt_view(r.alias) == match alias {
                Some(a) => Some(a@),
                None => None,
            },
            r.session@ == session@,
            r.runtime@ == runtime@,
            r.path@ == path@,
    {
        WorkspaceId {
            transport: transport.to_owned(),
            alias: match alias {
                Some(a) => Some(a.to_owned()),
                None => None,
            },
            session: session.to_owned(),
            runtime: runtime.to_owned(),
            path: path.to_owned(),
        }
    }

    /// Returns the string that names the identity.
    pub fn as_str(&self) -> (r: String)
        ensures
            r@ == id_text(self@),
    {
        let mut out = self.transport.clone();
        push_char(&mut out, '/');
        match &self.alias {
            Some(a) => {
                out.append(a.as_str());
            },
            None => {},
        }
        push_char(&mut out, '/');
        out.append(self.session.as_str());
        push_char(&mut out, '/');
        out.append(self.runtime.as_str());
        push_char(&mut out, '/');
        out.append(self.path.as_str());
        assert(out@ =~= id_text(self@));
        out
    }

    /// Returns the transport as it is shown.
    pub fn transport_name(&self) -> (r: String)
        ensures
            r@ == transport_name(self@),
    {
        if same(self.transport.as_str(), "ssh") {
            match &self.alias {
                Some(a) => a.clone(),
                None => "ssh".to_owned(),
            }
        } else {
            "local".to_owned()
        }
    }
}

/// The transport of a workspace as it is shown; `local` for what names none.
pub open spec fn transport_label_of(s: Seq<char>) -> Seq<char> {
    match parsed_id(s) {
        Some(id) => transport_name(id),
        None => "local"@,
    }
}

/// Returns the transport of a workspace as it is shown.
pub fn transport_label(value: &str) -> (r: String)
    ensures
        r@ == transport_label_of(value@),
{
    match parse_workspace_id(value) {
        Some(id) => id.transport_name(),
        None => "local".to_owned(),
    }
}

/// An identity that can be named: no part but the path holds a slash, and
/// neither transport, runtime nor a given alias is empty.
pub open spec fn nameable(id: WorkspaceIdView) -> bool {
    &&& id.transport.len() > 0 && !id.transport.contains('/')
    &&& id.alias matches Some(a) ==> a.len() > 0 && !a.contains('/')
    &&& !id.session.contains('/')
    &&& id.runtime.len() > 0 && !id.runtime.contains('/')
}

/// Reading the string that names an identity gives back the identity.
pub proof fn law_identity_reads_back(id: WorkspaceIdView)
    requires
        nameable(id),
    ensures
        parsed_id(id_text(id)) == Some(id),
{
    let alias = match id.alias {
        Some(a) => a,
        None => Seq::<char>::empty(),
    };
    let r3 = id.runtime + seq!['/'] + id.path;
    let r2 = id.session + seq!['/'] + r3;
    let r1 = alias + seq!['/'] + r2;
    lemma_cut_at(id.transport, '/', r1);
    lemma_cut_at(alias, '/', r2);
    lemma_cut_at(id.session, '/', r3);
    lemma_cut_at(id.runtime, '/', id.path);
}

/// What is read can be named, so that naming and reading again changes
/// nothing.
pub proof fn law_read_identity_is_nameable(s: Seq<char>)
    requires
        parsed_id(s) is Some,
    ensures
        nameable(parsed_id(s)->0),
{
    let (transport, r1) = cut_at(s, '/')->0;
    let (alias, r2) = cut_at(r1, '/')->0;
    let (session, r3) = cut_at(r2, '/')->0;
    lemma_cut_part_is_free(s, '/');
    lemma_cut_part_is_free(r1, '/');
    lemma_cut_part_is_free(r2, '/');
    lemma_cut_part_is_free(r3, '/');
}

proof fn lemma_cut_part_is_free(s: Seq<char>, sep: char)
    ensures
        match cut_at(s, sep) {
            Some((a, b)) => !a.contains(sep),
            None => !s.contains(sep),
        },
{
    lemma_before_first(s, sep);
    let i = crate::text::split::first_index(s, sep);
    assert forall|j: int| 0 <= j < i implies s.take(i)[j] != sep by {}
}

proof fn lemma_before_first(s: Seq<char>, sep: char)
    ensures
        0 <= crate::text::split::first_index(s, sep) <= s.len(),
        forall|j: int| 0 <= j < crate::text::split::first_index(s, sep) ==> s[j] != sep,
    decreases s.len(),
{
    if s.len() > 0 && s[0] != sep {
        let rest = s.drop_first();
        lemma_before_first(rest, sep);
        assert forall|j: int| 0 <= j < crate::text::split::first_index(s, sep) implies s[j]
            != sep by {
            if j > 0 {
                assert(s[j] == rest[j - 1]);
            }
        }
    }
}

} // verus!
