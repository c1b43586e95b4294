//! JSON text: how values are written.
use vstd::prelude::*;
use vstd::string::*;

use crate::json::{
    escaped, json_bool, json_bytes, json_list, json_member, json_object, json_opt_number,
    json_opt_string, json_string,
};
use crate::text::number::{decimal, hex_byte};
use crate::text::split::join;

verus! {

/// A name and the text of its value.
pub open spec fn field_text(field: (Seq<char>, Seq<char>)) -> Seq<char> {
    seq!['"'] + field.0 + seq!['"'] + seq![':'] + field.1
}

/// Texts with commas between them.
pub open spec fn with_commas(items: Seq<Seq<char>>) -> Seq<char>
    decreases items.len(),
{
    if items.len() == 0 {
        Seq::<char>::empty()
    } else if items.len() == 1 {
        items[0]
    } else {
        with_commas(items.drop_last()) + seq![','] + items.last()
    }
}

/// An object: its fields in braces, in their order.
pub open spec fn record(fields: Seq<(Seq<char>, Seq<char>)>) -> Seq<char> {
    seq!['{'] + with_commas(fields.map_values(|f: (Seq<char>, Seq<char>)| field_text(f)))
        + seq!['}']
}

/// A list: its items in brackets, in their order.
pub open spec fn array(items: Seq<Seq<char>>) -> Seq<char> {
    seq!['['] + with_commas(items) + seq![']']
}

/// A truth value.
pub open spec fn truth(b: bool) -> Seq<char> {
    if b {
        seq!['t', 'r', 'u', 'e']
    } else {
        seq!['f', 'a', 'l', 's', 'e']
    }
}

/// No value.
pub open spec fn nothing() -> Seq<char> {
    seq!['n', 'u', 'l', 'l']
}

proof fn lemma_commas(items: Seq<Seq<char>>)
    ensures
        join(items, seq![',']) == with_commas(items),
    decreases items.len(),
{
    if items.len() > 1 {
        lemma_commas(items.drop_last());
    }
}

/// Objects, lists, truth values, numbers that may be missing, and bytes are
/// written as JSON has them.
pub proof fn law_values_are_written_as_json(
    fields: Seq<(Seq<char>, Seq<char>)>,
    items: Seq<Seq<char>>,
    b: bool,
    n: u32,
    s: Seq<char>,
    data: Seq<u8>,
)
    ensures
        json_object(fields.map_values(|f: (Seq<char>, Seq<char>)| json_member(f.0, f.1))) == record(
            fields,
        ),
        json_list(items) == array(items),
        json_bool(b) == truth(b),
        json_opt_number(Some(n)) == decimal(n as nat),
        json_opt_number(None) == nothing(),
        json_opt_string(Some(s)) == json_string(s),
        json_opt_string(None) == nothing(),
        json_bytes(data) == array(Seq::new(data.len(), |i: int| decimal(data[i] as nat))),
{
    reveal_strlit("true");
    reveal_strlit("false");
    reveal_strlit("null");
    assert("true"@ =~= truth(true));
    assert("false"@ =~= truth(false));
    assert("null"@ =~= nothing());
    let members = fields.map_values(|f: (Seq<char>, Seq<char>)| json_member(f.0, f.1));
    let texts = fields.map_values(|f: (Seq<char>, Seq<char>)| field_text(f));
    assert forall|i: int| 0 <= i < fields.len() implies #[trigger] members[i] == texts[i] by {
        let f = fields[i];
        assert(json_member(f.0, f.1) =~= field_text(f));
    }
    assert(members =~= texts);
    lemma_commas(texts);
    lemma_commas(items);
    lemma_commas(Seq::new(data.len(), |i: int| decimal(data[i] as nat)));
}

/// An object whose members are written from these fields is their record.
pub proof fn lemma_record(members: Seq<Seq<char>>, fields: Seq<(Seq<char>, Seq<char>)>)
    requires
        members.len() == fields.len(),
        forall|i: int|
            0 <= i < members.len() ==> #[trigger] members[i] == json_member(
                fields[i].0,
                fields[i].1,
            ),
    ensures
        json_object(members) == record(fields),
{
    law_values_are_written_as_json(fields, Seq::<Seq<char>>::empty(), true, 0, Seq::<char>::empty(),
        Seq::<u8>::empty());
    assert(members =~= fields.map_values(|f: (Seq<char>, Seq<char>)| json_member(f.0, f.1)));
}

/// A list is its array, and a truth value its word.
pub proof fn lemma_parts(items: Seq<Seq<char>>, b: bool)
    ensures
        json_list(items) == array(items),
        json_bool(b) == truth(b),
{
    law_values_are_written_as_json(
        Seq::<(Seq<char>, Seq<char>)>::empty(),
        items,
        b,
        0,
        Seq::<char>::empty(),
        Seq::<u8>::empty(),
    );
}

/// Values that may be missing.
pub proof fn lemma_optional(n: Option<u32>, s: Option<Seq<char>>)
    ensures
        json_opt_number(n) == match n {
            Some(k) => decimal(k as nat),
            None => nothing(),
        },
        json_opt_string(s) == match s {
            Some(t) => json_string(t),
            None => nothing(),
        },
{
    law_values_are_written_as_json(
        Seq::<(Seq<char>, Seq<char>)>::empty(),
        Seq::<Seq<char>>::empty(),
        true,
        0,
        Seq::<char>::empty(),
        Seq::<u8>::empty(),
    );
}

/// What a character becomes inside a string.
pub open spec fn inside_string(c: char) -> Seq<char> {
    let code = c as u32;
    if code == 34 || code == 92 {
        seq!['\\', c]
    } else if code == 8 {
        seq!['\\', 'b']
    } else if code == 9 {
        seq!['\\', 't']
    } else if code == 10 {
        seq!['\\', 'n']
    } else if code == 12 {
        seq!['\\', 'f']
    } else if code == 13 {
        seq!['\\', 'r']
    } else if code < 32 {
        seq!['\\', 'u', '0', '0'] + hex_byte(code as u8)
    } else {
        seq![c]
    }
}

/// A string is written between quotes, character by character; quotes,
/// backslashes and control characters are escaped and all else stays.
pub proof fn law_strings_are_quoted_and_escaped(s: Seq<char>, c: char)
    ensures
        json_string(s) == seq!['"'] + escaped(s) + seq!['"'],
        escaped(Seq::<char>::empty()).len() == 0,
        escaped(s.push(c)) == escaped(s) + inside_string(c),
{
    assert(s.push(c).drop_last() =~= s);
    let code = c as u32;
    assert('"' as u32 == 34 && '\\' as u32 == 92);
    if code < 32 {
        assert(inside_string(c) =~= crate::json::escaped_char(c));
    } else {
        assert(inside_string(c) =~= crate::json::escaped_char(c));
    }
}

} // verus!
