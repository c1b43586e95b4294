//! JSON text.
//!
//! Values are written compactly, the members of an object in the order of
//! their names.
use vstd::prelude::*;
use vstd::string::*;

use crate::text::number::{decimal, digit, push_decimal};
use crate::text::split::{join, join_strings};
use crate::text::{push_char, views};

pub mod read;

verus! {

/// One character inside a JSON string.
pub open spec fn escaped_char(c: char) -> Seq<char> {
    if c == '"' {
        seq!['\\', '"']
    } else if c == '\\' {
        seq!['\\', '\\']
    } else if c == '\u{8}' {
        seq!['\\', 'b']
    } else if c == '\u{9}' {
        seq!['\\', 't']
    } else if c == '\u{a}' {
        seq!['\\', 'n']
    } else if c == '\u{c}' {
        seq!['\\', 'f']
    } else if c == '\u{d}' {
        seq!['\\', 'r']
    } else if ' ' > c {
        seq!['\\', 'u', '0', '0', digit((c as u32 / 16) as nat), digit((c as u32 % 16) as nat)]
    } else {
        seq![c]
    }
}

/// The characters of a string inside a JSON string.
pub open spec fn escaped(s: Seq<char>) -> Seq<char>
    decreases s.len(),
{
    if s.len() == 0 {
        Seq::<char>::empty()
    } else {
        escaped(s.drop_last()) + escaped_char(s.last())
    }
}

/// A string as a JSON value.
pub open spec fn json_string(s: Seq<char>) -> Seq<char> {
    seq!['"'] + escaped(s) + seq!['"']
}

/// `serde_json::to_string` on a string: the text between double quotes, with
/// quotes, backslashes and the control characters below U+0020 escaped and
/// every other character as it is. It cannot fail on a string.
#[verifier::external_body]
pub(crate) fn json_quote(s: &str) -> (r: String)
    ensures
        r@ == json_string(s@),
{
    serde_json::to_string(s).unwrap_or_default()
}

/// What `serde_json::from_slice` followed by `serde_json::to_string` makes of
/// a JSON document; nothing where the bytes are no JSON document.
pub uninterp spec fn json_reparsed(bytes: Seq<u8>) -> Option<Seq<char>>;

/// `serde_json::from_slice` into a `serde_json::Value`, written out again with
/// `serde_json::to_string`. The result is only named here: which bytes are a
/// document, and how it is written, is not stated.
#[verifier::external_body]
pub(crate) fn reparse(bytes: &[u8]) -> (r: Option<String>)
    ensures
        json_reparsed(bytes@) == match r {
            Some(text) => Some(text@),
            None => None,
        },
{
    match serde_json::from_slice::<serde_json::Value>(bytes) {
        Ok(value) => Some(value.to_string()),
        Err(_) => None,
    }
}

/// A truth value as JSON.
pub open spec fn json_bool(b: bool) -> Seq<char> {
    if b {
        "true"@
    } else {
        "false"@
    }
}

/// Values as a JSON list.
pub open spec fn json_list(items: Seq<Seq<char>>) -> Seq<char> {
    seq!['['] + join(items, seq![',']) + seq![']']
}

/// One member of an object; names need no escaping here.
pub open spec fn json_member(name: Seq<char>, value: Seq<char>) -> Seq<char> {
    seq!['"'] + name + seq!['"', ':'] + value
}

/// Members as a JSON object.
pub open spec fn json_object(members: Seq<Seq<char>>) -> Seq<char> {
    seq!['{'] + join(members, seq![',']) + seq!['}']
}

/// An optional string as a JSON value.
pub open spec fn json_opt_string(s: Option<Seq<char>>) -> Seq<char> {
    match s {
        Some(t) => json_string(t),
        None => "null"@,
    }
}

/// An optional number as a JSON value.
pub open spec fn json_opt_number(n: Option<u32>) -> Seq<char> {
    match n {
        Some(k) => decimal(k as nat),
        None => "null"@,
    }
}

/// Bytes as a JSON list of numbers.
pub open spec fn json_bytes(data: Seq<u8>) -> Seq<char> {
    json_list(Seq::new(data.len(), |i: int| decimal(data[i] as nat)))
}

/// Returns a truth value as JSON.
pub fn bool_text(b: bool) -> (r: String)
    ensures
        r@ == json_bool(b),
{
    if b {
        "true".to_owned()
    } else {
        "false".to_owned()
    }
}

/// Returns an optional string as a JSON value.
pub fn opt_string_text(s: &Option<String>) -> (r: String)
    ensures
        r@ == json_opt_string(crate::text::opt_view(*s)),
{
    match s {
        Some(t) => json_quote(t.as_str()),
        None => "null".to_owned(),
    }
}

/// Returns an optional number as a JSON value.
pub fn opt_number_text(n: Option<u32>) -> (r: String)
    ensures
        r@ == json_opt_number(n),
{
    match n {
        Some(k) => crate::text::number::decimal_string(k as u64),
        None => "null".to_owned(),
    }
}

/// Returns one member of an object.
pub fn member_text(name: &str, value: &str) -> (r: String)
    ensures
        r@ == json_member(name@, value@),
{
    let mut out = String::new();
    push_char(&mut out, '"');
    out.append(name);
    push_char(&mut out, '"');
    push_char(&mut out, ':');
    out.append(value);
    assert(out@ =~= json_member(name@, value@));
    out
}

fn bracketed(items: &Vec<String>, open: char, close: char) -> (r: String)
    ensures
        r@ == seq![open] + join(views(items@), seq![',']) + seq![close],
{
    let mut out = String::new();
    push_char(&mut out, open);
    let body = join_strings(items, ",");
    proof {
        reveal_strlit(",");
        assert(","@ =~= seq![',']);
    }
    out.append(body.as_str());
    push_char(&mut out, close);
    assert(out@ =~= seq![open] + join(views(items@), seq![',']) + seq![close]);
    out
}

/// Returns members as a JSON object.
pub fn object_text(members: &Vec<String>) -> (r: String)
    ensures
        r@ == json_object(views(members@)),
{
    bracketed(members, '{', '}')
}

/// Returns values as a JSON list.
pub fn list_text(items: &Vec<String>) -> (r: String)
    ensures
        r@ == json_list(views(items@)),
{
    bracketed(items, '[', ']')
}

/// Returns bytes as a JSON list of numbers.
pub fn bytes_text(data: &Vec<u8>) -> (r: String)
    ensures
        r@ == json_bytes(data@),
{
    let mut items: Vec<String> = Vec::new();
    let mut i: usize = 0;
    while i < data.len()
        invariant
            i <= data.len(),
            items.len() == i,
            forall|j: int| 0 <= j < i ==> (#[trigger] items@[j])@ == decimal(data@[j] as nat),
        decreases data.len() - i,
    {
        let mut item = String::new();
        push_decimal(&mut item, data[i] as u64);
        assert(item@ =~= decimal(data@[i as int] as nat));
        items.push(item);
        i += 1;
    }
    assert(views(items@) =~= Seq::new(data@.len(), |i: int| decimal(data@[i] as nat)));
    list_text(&items)
}

/// A string without quotes, backslashes and control characters is written as
/// it stands.
pub proof fn law_plain_text_is_not_escaped(s: Seq<char>)
    requires
        forall|i: int|
            0 <= i < s.len() ==> #[trigger] s[i] != '"' && s[i] != '\\' && s[i] >= ' ',
    ensures
        escaped(s) == s,
    decreases s.len(),
{
    if s.len() > 0 {
        law_plain_text_is_not_escaped(s.drop_last());
        assert(s =~= s.drop_last().push(s.last()));
        assert(escaped(s) =~= s);
    }
}

} // verus!
