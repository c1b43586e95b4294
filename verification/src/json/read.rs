//! Reading JSON text.
//!
//! A value that was read is held as its compact text.
use vstd::prelude::*;

use crate::json::json_string;
use crate::seqs::{find, lemma_first_where, lemma_no_first};
use crate::text::{same, views};

verus! {

/// One member of a JSON object: its name, and its value as JSON text.
#[derive(Debug, Clone, PartialEq, Eq)]
pub struct JsonMember {
    pub name: String,
    pub value: String,
}

impl View for JsonMember {
    type V = (Seq<char>, Seq<char>);

    open spec fn view(&self) -> (Seq<char>, Seq<char>) {
        (self.name@, self.value@)
    }
}

/// The views of members.
pub open spec fn member_views(members: Seq<JsonMember>) -> Seq<(Seq<char>, Seq<char>)> {
    Seq::new(members.len(), |i: int| members[i]@)
}

/// A text or the reason for its absence, by views.
pub open spec fn text_result(r: Result<String, String>) -> Result<Seq<char>, Seq<char>> {
    match r {
        Ok(text) => Ok(text@),
        Err(reason) => Err(reason@),
    }
}

/// What `serde_json::from_str` reads from a text, written out by
/// `Value::to_string`; or the text of its error.
pub uninterp spec fn json_parsed(text: Seq<char>) -> Result<Seq<char>, Seq<char>>;

/// `serde_json::from_str` into a `serde_json::Value`, written out again by its
/// `to_string`. The result is only named here: which texts are a document, and
/// how a document is written, is not stated.
#[verifier::external_body]
pub(crate) fn parse_json(text: &str) -> (r: Result<String, String>)
    ensures
        text_result(r) == json_parsed(text@),
{
    match serde_json::from_str::<serde_json::Value>(text) {
        Ok(value) => Ok(value.to_string()),
        Err(error) => Err(error.to_string()),
    }
}

/// The members that `serde_json::from_str` reads from the text of an object.
pub uninterp spec fn json_members_of(value: Seq<char>) -> Option<Seq<(Seq<char>, Seq<char>)>>;

/// `serde_json::from_str` into a `serde_json::Map`: the members of an object,
/// each value written out by its `to_string`; nothing where the text is not
/// that of an object. The result is only named here.
#[verifier::external_body]
pub(crate) fn json_members(value: &str) -> (r: Option<Vec<JsonMember>>)
    ensures
        json_members_of(value@) == match r {
            Some(members) => Some(member_views(members@)),
            None => None,
        },
{
    match serde_json::from_str::<serde_json::Map<String, serde_json::Value>>(value) {
        Ok(map) => Some(
            map.into_iter().map(|(name, v)| JsonMember { name, value: v.to_string() }).collect(),
        ),
        Err(_) => None,
    }
}

/// The elements that `serde_json::from_str` reads from the text of a list.
pub uninterp spec fn json_elements_of(value: Seq<char>) -> Option<Seq<Seq<char>>>;

/// `serde_json::from_str` into a `Vec` of `serde_json::Value`: the elements of
/// a list, each written out by its `to_string`; nothing where the text is not
/// that of a list. The result is only named here.
#[verifier::external_body]
pub(crate) fn json_elements(value: &str) -> (r: Option<Vec<String>>)
    ensures
        json_elements_of(value@) == match r {
            Some(elements) => Some(views(elements@)),
            None => None,
        },
{
    match serde_json::from_str::<Vec<serde_json::Value>>(value) {
        Ok(elements) => Some(elements.into_iter().map(|v| v.to_string()).collect()),
        Err(_) => None,
    }
}

/// A string that was written as JSON is read back.
pub open spec fn reads_back(value: Seq<char>, read: Result<Seq<char>, Seq<char>>) -> bool {
    forall|s: Seq<char>|
        value == #[trigger] json_string(s) ==> read == Ok::<Seq<char>, Seq<char>>(s)
}

/// What `serde_json::from_value` reads as a string from a JSON text, or the
/// text of its error.
pub uninterp spec fn json_string_of(value: Seq<char>) -> Result<Seq<char>, Seq<char>>;

/// `serde_json::from_value` into a `String`, of the value that a text holds.
/// The result is named here; stated is that a string which was written as JSON
/// is read back.
#[verifier::external_body]
pub(crate) fn json_string_value(value: &str) -> (r: Result<String, String>)
    ensures
        text_result(r) == json_string_of(value@),
        reads_back(value@, text_result(r)),
{
    let read = serde_json::from_str::<serde_json::Value>(value);
    match read.and_then(serde_json::from_value::<String>) {
        Ok(text) => Ok(text),
        Err(error) => Err(error.to_string()),
    }
}

/// The member has the given name.
pub open spec fn member_is(name: Seq<char>) -> spec_fn((Seq<char>, Seq<char>)) -> bool {
    |m: (Seq<char>, Seq<char>)| m.0 == name
}

/// The value of the member with the given name.
pub open spec fn member_of(members: Seq<(Seq<char>, Seq<char>)>, name: Seq<char>) -> Option<
    Seq<char>,
> {
    match find(members, member_is(name)) {
        Some(m) => Some(m.1),
        None => None,
    }
}

/// Returns the value of the member with the given name.
pub fn find_member(members: &Vec<JsonMember>, name: &str) -> (r: Option<String>)
    ensures
        crate::text::opt_view(r) == member_of(member_views(members@), name@),
{
    let ghost all = member_views(members@);
    let mut i: usize = 0;
    while i < members.len()
        invariant
            i <= members.len(),
            all == member_views(members@),
            forall|j: int| 0 <= j < i ==> !member_is(name@)(#[trigger] all[j]),
        decreases members.len() - i,
    {
        if same(members[i].name.as_str(), name) {
            proof {
                lemma_first_where(all, member_is(name@), i as int);
            }
            return Some(members[i].value.clone());
        }
        i += 1;
    }
    proof {
        lemma_no_first(all, member_is(name@));
    }
    None
}

/// The value of a member of an object; nothing where the text is not that of
/// an object.
pub open spec fn field_of(value: Seq<char>, name: Seq<char>) -> Option<Seq<char>> {
    match json_members_of(value) {
        Some(members) => member_of(members, name),
        None => None,
    }
}

/// Returns the value of a member of an object.
pub fn field(value: &str, name: &str) -> (r: Option<String>)
    ensures
        crate::text::opt_view(r) == field_of(value@, name@),
{
    match json_members(value) {
        Some(members) => find_member(&members, name),
        None => None,
    }
}

/// A value where there is one, else the text of the empty value.
pub open spec fn value_or_null(value: Option<Seq<char>>) -> Seq<char> {
    match value {
        Some(v) => v,
        None => "null"@,
    }
}

/// Returns the value of a member of an object, or the empty value.
pub fn indexed(value: &str, name: &str) -> (r: String)
    ensures
        r@ == value_or_null(field_of(value@, name@)),
{
    match field(value, name) {
        Some(v) => v,
        None => "null".to_owned(),
    }
}

/// A string that a value holds.
pub open spec fn string_in(value: Seq<char>) -> Option<Seq<char>> {
    match json_string_of(value) {
        Ok(text) => Some(text),
        Err(_) => None,
    }
}

/// Returns the string that a value holds.
pub fn as_string(value: &str) -> (r: Option<String>)
    ensures
        crate::text::opt_view(r) == string_in(value@),
        forall|s: Seq<char>|
            value@ == #[trigger] json_string(s) ==> crate::text::opt_view(r) == Some(s),
{
    match json_string_value(value) {
        Ok(text) => Some(text),
        Err(_) => None,
    }
}

/// The elements of a list; none where the value is no list.
pub open spec fn elements_in(value: Option<Seq<char>>) -> Seq<Seq<char>> {
    match value {
        Some(v) => match json_elements_of(v) {
            Some(elements) => elements,
            None => Seq::<Seq<char>>::empty(),
        },
        None => Seq::<Seq<char>>::empty(),
    }
}

/// Returns the elements of a list.
pub fn as_elements(value: &Option<String>) -> (r: Vec<String>)
    ensures
        views(r@) == elements_in(crate::text::opt_view(*value)),
{
    let mut out: Vec<String> = Vec::new();
    if let Some(v) = value {
        if let Some(elements) = json_elements(v.as_str()) {
            out = elements;
        }
    }
    assert(out@.len() == 0 ==> views(out@) =~= Seq::<Seq<char>>::empty());
    out
}

} // verus!
