//! Answers of the core and the errors in them.
use vstd::prelude::*;

use crate::client::call::FfiClient;
use crate::json::read::{
    field, field_of, find_member, json_members, json_members_of, json_parsed, json_string_of,
    json_string_value, member_of, member_views, parse_json, text_result, JsonMember,
};
use crate::seqs::lemma_filter_step;
use crate::text::{concat2, opt_view, same};

verus! {

/// An error that the core reported. Fields beyond the known ones are kept as
/// they came.
#[derive(Debug, Clone, PartialEq, Eq)]
pub struct ClientError {
    pub code: Option<String>,
    pub stage: Option<String>,
    pub message: String,
    pub details: Vec<JsonMember>,
}

/// The view of a [`ClientError`].
pub struct ClientErrorView {
    pub code: Option<Seq<char>>,
    pub stage: Option<Seq<char>>,
    pub message: Seq<char>,
    pub details: Seq<(Seq<char>, Seq<char>)>,
}

impl View for ClientError {
    type V = ClientErrorView;

    open spec fn view(&self) -> ClientErrorView {
        ClientErrorView {
            code: opt_view(self.code),
            stage: opt_view(self.stage),
            message: self.message@,
            details: member_views(self.details@),
        }
    }
}

/// Why an answer is no success.
#[derive(Debug, Clone, PartialEq, Eq)]
pub enum ReplyError {
    /// There is nothing to read.
    Transport(String),
    /// The core reported an error.
    Core(ClientError),
}

/// The view of a [`ReplyError`].
pub enum ReplyErrorView {
    Transport(Seq<char>),
    Core(ClientErrorView),
}

impl View for ReplyError {
    type V = ReplyErrorView;

    open spec fn view(&self) -> ReplyErrorView {
        match *self {
            ReplyError::Transport(text) => ReplyErrorView::Transport(text@),
            ReplyError::Core(error) => ReplyErrorView::Core(error@),
        }
    }
}

/// An answer by views.
pub open spec fn reply_view(r: Result<String, ReplyError>) -> Result<Seq<char>, ReplyErrorView> {
    match r {
        Ok(value) => Ok(value@),
        Err(error) => Err(error@),
    }
}

/// An error that is only a message.
pub open spec fn legacy_error(message: Seq<char>) -> ClientErrorView {
    ClientErrorView {
        code: None,
        stage: None,
        message,
        details: Seq::<(Seq<char>, Seq<char>)>::empty(),
    }
}

// ---------------------------------------------------------------------------
// The error of an answer.
// ---------------------------------------------------------------------------

/// A field that may be absent or empty, and else holds a string.
pub open spec fn optional_text(value: Option<Seq<char>>) -> Result<Option<Seq<char>>, Seq<char>> {
    match value {
        None => Ok(None),
        Some(v) => if v == "null"@ {
            Ok(None)
        } else {
            match json_string_of(v) {
                Ok(text) => Ok(Some(text)),
                Err(reason) => Err(reason),
            }
        },
    }
}

/// An optional text, or why it could not be read, by views.
pub open spec fn opt_text_result(r: Result<Option<String>, String>) -> Result<
    Option<Seq<char>>,
    Seq<char>,
> {
    match r {
        Ok(text) => Ok(opt_view(text)),
        Err(reason) => Err(reason@),
    }
}

fn read_optional(value: Option<String>) -> (r: Result<Option<String>, String>)
    ensures
        opt_text_result(r) == optional_text(opt_view(value)),
{
    match value {
        None => Ok(None),
        Some(v) => {
            if same(v.as_str(), "null") {
                Ok(None)
            } else {
                match json_string_value(v.as_str()) {
                    Ok(text) => Ok(Some(text)),
                    Err(reason) => Err(reason),
                }
            }
        },
    }
}

/// The field is none of the known ones.
pub open spec fn is_detail() -> spec_fn((Seq<char>, Seq<char>)) -> bool {
    |m: (Seq<char>, Seq<char>)| m.0 != "code"@ && m.0 != "stage"@ && m.0 != "message"@
}

/// Returns the fields that are none of the known ones.
pub fn details(members: &Vec<JsonMember>) -> (r: Vec<JsonMember>)
    ensures
        member_views(r@) == member_views(members@).filter(is_detail()),
{
    let ghost all = member_views(members@);
    let mut out: Vec<JsonMember> = Vec::new();
    let mut i: usize = 0;
    assert(all.take(0) =~= Seq::<(Seq<char>, Seq<char>)>::empty());
    assert(member_views(out@) =~= all.take(0).filter(is_detail())) by {
        reveal(Seq::filter);
    }
    while i < members.len()
        invariant
            i <= members.len(),
            all == member_views(members@),
            member_views(out@) == all.take(i as int).filter(is_detail()),
        decreases members.len() - i,
    {
        let ghost before = out@;
        let m = &members[i];
        proof {
            lemma_filter_step(all, is_detail(), i as int);
        }
        let name = m.name.as_str();
        if !same(name, "code") && !same(name, "stage") && !same(name, "message") {
            out.push(JsonMember { name: m.name.clone(), value: m.value.clone() });
            assert(member_views(out@) =~= member_views(before).push(all[i as int]));
        }
        i += 1;
    }
    assert(all.take(all.len() as int) =~= all);
    out
}

/// The error that an object stands for, given its fields; or the reason why it
/// stands for none. The fields are looked at in the order of their names, and
/// only at the end whether the message is there at all.
pub open spec fn envelope(
    code: Result<Option<Seq<char>>, Seq<char>>,
    message: Option<Result<Seq<char>, Seq<char>>>,
    stage: Result<Option<Seq<char>>, Seq<char>>,
    details: Seq<(Seq<char>, Seq<char>)>,
) -> Result<ClientErrorView, Seq<char>> {
    match (code, message, stage) {
        (Err(reason), _, _) => Err(reason),
        (_, Some(Err(reason)), _) => Err(reason),
        (_, _, Err(reason)) => Err(reason),
        (_, None, _) => Err("missing field `message`"@),
        (Ok(code), Some(Ok(message)), Ok(stage)) => Ok(
            ClientErrorView { code, stage, message, details },
        ),
    }
}

/// An error, or why there is none, by views.
pub open spec fn error_result(r: Result<ClientError, String>) -> Result<
    ClientErrorView,
    Seq<char>,
> {
    match r {
        Ok(error) => Ok(error@),
        Err(reason) => Err(reason@),
    }
}

/// A text that may be absent, or why it could not be read, by views.
pub open spec fn read_view(r: Option<Result<String, String>>) -> Option<
    Result<Seq<char>, Seq<char>>,
> {
    match r {
        Some(read) => Some(text_result(read)),
        None => None,
    }
}

/// The error that an answer stands for by the value of its `error` field:
/// older answers hold a string there.
pub open spec fn error_of(value: Seq<char>) -> ClientErrorView {
    match json_members_of(value) {
        Some(members) => match envelope(
            optional_text(member_of(members, "code"@)),
            match member_of(members, "message"@) {
                Some(v) => Some(json_string_of(v)),
                None => None,
            },
            optional_text(member_of(members, "stage"@)),
            members.filter(is_detail()),
        ) {
            Ok(error) => error,
            Err(reason) => legacy_error("Core returned invalid error envelope: "@ + reason),
        },
        None => match json_string_of(value) {
            Ok(message) => legacy_error(message),
            Err(_) => legacy_error("Core returned invalid error value: "@ + value),
        },
    }
}

impl ClientError {
    /// An error that is only a message.
    pub fn legacy(message: String) -> (r: Self)
        ensures
            r@ == legacy_error(message@),
    {
        let r = ClientError { code: None, stage: None, message, details: Vec::new() };
        assert(member_views(r.details@) =~= Seq::<(Seq<char>, Seq<char>)>::empty());
        r
    }

    /// Makes the error that the fields of an object stand for.
    pub fn from_fields(
        code: Result<Option<String>, String>,
        message: Option<Result<String, String>>,
        stage: Result<Option<String>, String>,
        details: Vec<JsonMember>,
    ) -> (r: Result<Self, String>)
        ensures
            error_result(r) == envelope(
                opt_text_result(code),
                read_view(message),
                opt_text_result(stage),
                member_views(details@),
            ),
    {
        let code = match code {
            Ok(c) => c,
            Err(reason) => {
                return Err(reason);
            },
        };
        if let Some(Err(reason)) = message {
            return Err(reason);
        }
        let stage = match stage {
            Ok(s) => s,
            Err(reason) => {
                return Err(reason);
            },
        };
        match message {
            Some(Ok(message)) => Ok(ClientError { code, stage, message, details }),
            _ => Err("missing field `message`".to_owned()),
        }
    }

    /// Reads the `error` field of an answer, given as JSON text.
    pub fn from_json(value: &str) -> (r: Self)
        ensures
            r@ == error_of(value@),
    {
        match json_members(value) {
            Some(members) => {
                let code = read_optional(find_member(&members, "code"));
                let message = match find_member(&members, "message") {
                    Some(v) => Some(json_string_value(v.as_str())),
                    None => None,
                };
                let stage = read_optional(find_member(&members, "stage"));
                match ClientError::from_fields(code, message, stage, details(&members)) {
                    Ok(error) => error,
                    Err(reason) => ClientError::legacy(
                        concat2("Core returned invalid error envelope: ", reason.as_str()),
                    ),
                }
            },
            None => match json_string_value(value) {
                Ok(message) => ClientError::legacy(message),
                Err(_) => ClientError::legacy(
                    concat2("Core returned invalid error value: ", value),
                ),
            },
        }
    }

    /// What is shown of the error.
    pub fn text(&self) -> (r: String)
        ensures
            r@ == self.message@,
    {
        self.message.clone()
    }
}

// ---------------------------------------------------------------------------
// Answers.
// ---------------------------------------------------------------------------

/// What an answer gives, by its `ok` field and the error in it.
pub open spec fn checked(
    value: Seq<char>,
    ok: Option<Seq<char>>,
    error: Option<ClientErrorView>,
) -> Result<Seq<char>, ReplyErrorView> {
    if ok == Some("true"@) {
        Ok(value)
    } else {
        Err(
            ReplyErrorView::Core(
                match error {
                    Some(e) => e,
                    None => legacy_error("unknown Core discovery error"@),
                },
            ),
        )
    }
}

/// What an answer gives: its value where its `ok` is true, else an error.
pub open spec fn answer_of(text: Option<&str>) -> Result<Seq<char>, ReplyErrorView> {
    match text {
        None => Err(ReplyErrorView::Transport("Core discovery returned no response"@)),
        Some(t) => match json_parsed(t@) {
            Err(reason) => Err(
                ReplyErrorView::Transport("Core discovery returned invalid JSON: "@ + reason),
            ),
            Ok(value) => checked(
                value,
                field_of(value, "ok"@),
                match field_of(value, "error"@) {
                    Some(error) => Some(error_of(error)),
                    None => None,
                },
            ),
        },
    }
}

/// An optional error by its view.
pub open spec fn opt_error_view(e: Option<ClientError>) -> Option<ClientErrorView> {
    match e {
        Some(error) => Some(error@),
        None => None,
    }
}

/// Checks an answer by its `ok` field: it is a success exactly when that is
/// true.
pub fn check_reply(value: String, ok: Option<String>, error: Option<ClientError>) -> (r: Result<
    String,
    ReplyError,
>)
    ensures
        reply_view(r) == checked(value@, opt_view(ok), opt_error_view(error)),
{
    let good = match ok {
        Some(text) => same(text.as_str(), "true"),
        None => false,
    };
    if good {
        Ok(value)
    } else {
        match error {
            Some(e) => Err(ReplyError::Core(e)),
            None => Err(
                ReplyError::Core(ClientError::legacy("unknown Core discovery error".to_owned())),
            ),
        }
    }
}

impl FfiClient {
    /// Reads an answer of the core; there is none where the core returned no
    /// text. The value of a success is returned as JSON text.
    pub fn discovery_json(text: Option<&str>) -> (r: Result<String, ReplyError>)
        ensures
            reply_view(r) == answer_of(text),
    {
        match text {
            None => Err(ReplyError::Transport("Core discovery returned no response".to_owned())),
            Some(t) => match parse_json(t) {
                Err(reason) => Err(
                    ReplyError::Transport(
                        concat2("Core discovery returned invalid JSON: ", reason.as_str()),
                    ),
                ),
                Ok(value) => {
                    let ok = field(value.as_str(), "ok");
                    let error = match field(value.as_str(), "error") {
                        Some(e) => Some(ClientError::from_json(e.as_str())),
                        None => None,
                    };
                    check_reply(value, ok, error)
                },
            },
        }
    }
}

/// An error is never taken for a success: where an answer holds an error and
/// its `ok` is not true, exactly that error is reported.
pub proof fn law_refusal_is_reported(text: &str, value: Seq<char>, error: Seq<char>)
    requires
        json_parsed(text@) == Ok::<Seq<char>, Seq<char>>(value),
        field_of(value, "ok"@) != Some("true"@),
        field_of(value, "error"@) == Some(error),
    ensures
        answer_of(Some(text)) == Err::<Seq<char>, ReplyErrorView>(
            ReplyErrorView::Core(error_of(error)),
        ),
{
}

} // verus!
