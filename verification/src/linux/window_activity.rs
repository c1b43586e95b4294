//! Command marks, notifications and the button that jumps to the latest line.
use vstd::prelude::*;
use vstd::string::*;

use crate::client::abi::{STATE_PANE_AGENT_CHANGED, STATE_PANE_FRAME, STATE_PANE_OUTPUT};
use crate::client::types::{
    ClientActivityNotification, ClientActivityNotifications, ClientCommandMark, ClientEvent,
};
use crate::text::number::{decimal, push_decimal};
use crate::text::{concat2, opt_view, same};

verus! {

// ---------------------------------------------------------------------------
// Command marks.
// ---------------------------------------------------------------------------

/// The last mark for which `p` holds.
pub open spec fn last_mark(
    marks: Seq<ClientCommandMark>,
    p: spec_fn(ClientCommandMark) -> bool,
) -> Option<ClientCommandMark>
    decreases marks.len(),
{
    if marks.len() == 0 {
        None
    } else if p(marks.last()) {
        Some(marks.last())
    } else {
        last_mark(marks.drop_last(), p)
    }
}

/// The command ended well.
pub open spec fn succeeded() -> spec_fn(ClientCommandMark) -> bool {
    |m: ClientCommandMark| m.exit_code == Some(0u8)
}

/// The command ended with an error.
pub open spec fn failed() -> spec_fn(ClientCommandMark) -> bool {
    |m: ClientCommandMark| m.exit_code matches Some(c) && c != 0
}

/// The mark is that of the given command.
pub open spec fn command_is(text: Seq<char>) -> spec_fn(ClientCommandMark) -> bool {
    |m: ClientCommandMark| m.command@ == text
}

/// The command of a mark.
pub open spec fn mark_text(mark: Option<ClientCommandMark>) -> Option<Seq<char>> {
    match mark {
        Some(m) => Some(m.command@),
        None => None,
    }
}

/// The commands behind the two marks at the edge of a pane. A mark without a
/// command is hidden.
#[derive(Debug, PartialEq, Eq)]
pub struct CommandMarks {
    pub ok: Option<String>,
    pub fail: Option<String>,
}

/// Returns the last command that ended well and the last that failed.
pub fn update_command_marks(marks: &Vec<ClientCommandMark>) -> (r: CommandMarks)
    ensures
        opt_view(r.ok) == mark_text(last_mark(marks@, succeeded())),
        opt_view(r.fail) == mark_text(last_mark(marks@, failed())),
{
    let mut ok: Option<String> = None;
    let mut fail: Option<String> = None;
    let mut i: usize = 0;
    while i < marks.len()
        invariant
            i <= marks.len(),
            opt_view(ok) == mark_text(last_mark(marks@.take(i as int), succeeded())),
            opt_view(fail) == mark_text(last_mark(marks@.take(i as int), failed())),
        decreases marks.len() - i,
    {
        assert(marks@.take(i + 1).drop_last() =~= marks@.take(i as int));
        assert(marks@.take(i + 1).last() == marks@[i as int]);
        if let Some(code) = marks[i].exit_code {
            if code == 0 {
                ok = Some(marks[i].command.clone());
            } else {
                fail = Some(marks[i].command.clone());
            }
        }
        i += 1;
    }
    assert(marks@.take(i as int) =~= marks@);
    CommandMarks { ok, fail }
}

/// Returns the line of the last mark of a command, to be scrolled to.
pub fn scroll_to_command_text(marks: &Vec<ClientCommandMark>, text: &str) -> (r: Option<u64>)
    ensures
        r == (match last_mark(marks@, command_is(text@)) {
            Some(m) => Some(m.seq),
            None => None,
        }),
{
    let mut n: usize = marks.len();
    assert(marks@.take(n as int) =~= marks@);
    while n > 0
        invariant
            n <= marks.len(),
            last_mark(marks@, command_is(text@)) == last_mark(
                marks@.take(n as int),
                command_is(text@),
            ),
        decreases n,
    {
        assert(marks@.take(n as int).drop_last() =~= marks@.take(n - 1));
        assert(marks@.take(n as int).last() == marks@[n - 1]);
        if same(marks[n - 1].command.as_str(), text) {
            return Some(marks[n - 1].seq);
        }
        n -= 1;
    }
    None
}

// ---------------------------------------------------------------------------
// The button that jumps to the latest line.
// ---------------------------------------------------------------------------

/// What the button shows. Back at the bottom the mark of a search hit means
/// nothing any more and is hidden; the label is left as it was.
#[derive(Debug, PartialEq, Eq)]
pub struct JumpLatest {
    pub visible: bool,
    pub hide_highlight: bool,
    pub label: Option<String>,
}

/// The label for a number of lines not seen yet.
pub open spec fn jump_label(unseen: u32) -> Seq<char> {
    if unseen > 0 {
        "↓ +"@ + decimal(unseen as nat)
    } else {
        "↓"@
    }
}

/// Returns what the button shows.
pub fn update_jump_latest(at_bottom: bool, unseen: u32) -> (r: JumpLatest)
    ensures
        r.visible == !at_bottom,
        r.hide_highlight == at_bottom,
        opt_view(r.label) == if at_bottom {
            None
        } else {
            Some(jump_label(unseen))
        },
{
    let label = if at_bottom {
        None
    } else if unseen > 0 {
        let mut text = "↓ +".to_owned();
        push_decimal(&mut text, unseen as u64);
        Some(text)
    } else {
        Some("↓".to_owned())
    };
    JumpLatest { visible: !at_bottom, hide_highlight: at_bottom, label }
}

// ---------------------------------------------------------------------------
// Events.
// ---------------------------------------------------------------------------

/// What a batch of events asks of the window, however many events ask it.
#[derive(Debug)]
pub struct UiBatchEffects {
    pub topology_changed: bool,
}

impl Default for UiBatchEffects {
    fn default() -> (r: Self)
        ensures
            !r.topology_changed,
    {
        UiBatchEffects { topology_changed: false }
    }
}

impl UiBatchEffects {
    /// Notes that the topology is to be committed once.
    pub fn note_topology(&mut self)
        ensures
            final(self).topology_changed,
    {
        self.topology_changed = true;
    }
}

/// Returns the pane whose attention an event may change. The runtime behind
/// the pane makes no difference.
pub fn attention_event_pane(event: &ClientEvent) -> (r: Option<u32>)
    ensures
        r == if event.type_ == STATE_PANE_OUTPUT || event.type_ == STATE_PANE_FRAME || event.type_
            == STATE_PANE_AGENT_CHANGED {
            Some(event.pane_id)
        } else {
            None
        },
{
    if event.type_ == STATE_PANE_OUTPUT || event.type_ == STATE_PANE_FRAME || event.type_
        == STATE_PANE_AGENT_CHANGED {
        Some(event.pane_id)
    } else {
        None
    }
}

// ---------------------------------------------------------------------------
// Notifications.
// ---------------------------------------------------------------------------

/// What a notification says.
#[derive(Debug, Clone, Copy, PartialEq, Eq, Structural)]
pub enum NoteKind {
    Blocked,
    Done,
}

/// A notification for the user, with its line in the log.
#[derive(Debug, PartialEq, Eq)]
pub struct AttentionNote {
    pub kind: NoteKind,
    pub workspace: String,
    pub log: String,
}

/// The view of an [`AttentionNote`].
pub struct AttentionNoteView {
    pub kind: NoteKind,
    pub workspace: Seq<char>,
    pub log: Seq<char>,
}

impl View for AttentionNote {
    type V = AttentionNoteView;

    open spec fn view(&self) -> AttentionNoteView {
        AttentionNoteView { kind: self.kind, workspace: self.workspace@, log: self.log@ }
    }
}

/// The text of a notification.
pub open spec fn note_text(kind: NoteKind) -> Seq<char> {
    match kind {
        NoteKind::Blocked => "needs attention"@,
        NoteKind::Done => "task complete"@,
    }
}

/// The notification of a kind for a workspace.
pub open spec fn note_of(workspace: Seq<char>, kind: NoteKind) -> AttentionNoteView {
    AttentionNoteView { kind, workspace, log: workspace + ": "@ + note_text(kind) }
}

/// The kind with a name; other names are ignored.
pub open spec fn note_kind(name: Seq<char>) -> Option<NoteKind> {
    if name == "blocked"@ {
        Some(NoteKind::Blocked)
    } else if name == "done"@ {
        Some(NoteKind::Done)
    } else {
        None
    }
}

/// The notifications of a list of workspaces.
pub open spec fn notes_for(workspaces: Seq<String>, kind: NoteKind) -> Seq<AttentionNoteView> {
    Seq::new(workspaces.len(), |i: int| note_of(workspaces[i]@, kind))
}

/// The notifications of a list of single notifications.
pub open spec fn single_notes(list: Seq<ClientActivityNotification>) -> Seq<AttentionNoteView>
    decreases list.len(),
{
    if list.len() == 0 {
        Seq::<AttentionNoteView>::empty()
    } else {
        let rest = single_notes(list.drop_last());
        match note_kind(list.last().kind@) {
            Some(kind) => rest.push(note_of(list.last().workspace_id@, kind)),
            None => rest,
        }
    }
}

/// What a poll notifies of: its single notifications, or, where there are
/// none, the workspaces that are blocked and then those that are done.
pub open spec fn notes_of(n: ClientActivityNotifications) -> Seq<AttentionNoteView> {
    if n.notifications@.len() == 0 {
        notes_for(n.blocked@, NoteKind::Blocked) + notes_for(n.done@, NoteKind::Done)
    } else {
        single_notes(n.notifications@)
    }
}

/// The views of notifications.
pub open spec fn note_views(s: Seq<AttentionNote>) -> Seq<AttentionNoteView> {
    Seq::new(s.len(), |i: int| s[i]@)
}

fn text_of(kind: NoteKind) -> (r: &'static str)
    ensures
        r@ == note_text(kind),
{
    match kind {
        NoteKind::Blocked => "needs attention",
        NoteKind::Done => "task complete",
    }
}

fn note(workspace: &str, kind: NoteKind) -> (r: AttentionNote)
    ensures
        r@ == note_of(workspace@, kind),
{
    let head = concat2(workspace, ": ");
    AttentionNote {
        kind,
        workspace: workspace.to_owned(),
        log: concat2(head.as_str(), text_of(kind)),
    }
}

/// Returns the notification of a kind for a workspace; an unknown kind gives
/// none.
pub fn record_attention_notification(workspace: &str, kind: &str) -> (r: Option<AttentionNote>)
    ensures
        match r {
            Some(n) => note_kind(kind@) is Some && n@ == note_of(workspace@, note_kind(kind@)->0),
            None => note_kind(kind@) is None,
        },
{
    if same(kind, "blocked") {
        Some(note(workspace, NoteKind::Blocked))
    } else if same(kind, "done") {
        Some(note(workspace, NoteKind::Done))
    } else {
        None
    }
}

fn push_notes(out: &mut Vec<AttentionNote>, workspaces: &Vec<String>, kind: NoteKind)
    ensures
        note_views(final(out)@) == note_views(old(out)@) + notes_for(workspaces@, kind),
{
    let ghost start = note_views(out@);
    let ghost wanted = notes_for(workspaces@, kind);
    let mut i: usize = 0;
    assert(start + wanted.take(0) =~= start);
    while i < workspaces.len()
        invariant
            i <= workspaces.len(),
            wanted == notes_for(workspaces@, kind),
            note_views(out@) == start + wanted.take(i as int),
        decreases workspaces.len() - i,
    {
        let ghost before = note_views(out@);
        out.push(note(workspaces[i].as_str(), kind));
        proof {
            assert(note_views(out@) =~= before.push(out@.last()@));
            assert(start + wanted.take(i + 1) =~= (start + wanted.take(i as int)).push(
                wanted[i as int],
            ));
        }
        i += 1;
    }
    assert(wanted.take(i as int) =~= wanted);
}

/// Returns the notifications of one poll.
pub fn drain_attention_notifications(n: &ClientActivityNotifications) -> (r: Vec<AttentionNote>)
    ensures
        note_views(r@) == notes_of(*n),
{
    let mut out: Vec<AttentionNote> = Vec::new();
    if n.notifications.len() == 0 {
        push_notes(&mut out, &n.blocked, NoteKind::Blocked);
        push_notes(&mut out, &n.done, NoteKind::Done);
        assert(note_views(out@) =~= notes_of(*n));
        return out;
    }
    let list = &n.notifications;
    let mut i: usize = 0;
    assert(note_views(out@) =~= Seq::<AttentionNoteView>::empty());
    while i < list.len()
        invariant
            i <= list.len(),
            *list == n.notifications,
            n.notifications@.len() > 0,
            note_views(out@) == single_notes(list@.take(i as int)),
        decreases list.len() - i,
    {
        let ghost before = note_views(out@);
        assert(list@.take(i + 1).drop_last() =~= list@.take(i as int));
        assert(list@.take(i + 1).last() == list@[i as int]);
        if let Some(next) = record_attention_notification(
            list[i].workspace_id.as_str(),
            list[i].kind.as_str(),
        ) {
            out.push(next);
            assert(note_views(out@) =~= before.push(out@.last()@));
        }
        i += 1;
    }
    assert(list@.take(i as int) =~= list@);
    out
}

} // verus!
