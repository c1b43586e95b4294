//! What is read from answers: errors, targets, and paths in the settings.
use vstd::prelude::*;

use crate::client::config::{pointer_of, pointer_token};
use crate::client::error::{error_of, ClientError};
use crate::client::types::{client_layout_first_pane, ClientLayout, ClientRgb, ResolvedTarget};
use crate::json::read::{
    elements_in, field_of, json_elements_of, json_members_of, json_string_of, member_of,
    string_in, value_or_null,
};
use crate::linux::preferences_fields::{pointed, stored_as, texts_among, SettingValue};
use crate::linux::preferences_manifest::{field_in, group_in, groups_in};
use crate::text::find::contains;
use crate::text::{opt_view, views};
use crate::text::split::{replaced, split_on};

verus! {

// ---------------------------------------------------------------------------
// Errors.
// ---------------------------------------------------------------------------

/// An error that is a text is its message, and has nothing else.
pub proof fn law_a_text_is_a_message(value: Seq<char>, message: Seq<char>)
    requires
        json_members_of(value) is None,
    ensures
        json_string_of(value) == Ok::<Seq<char>, Seq<char>>(message) ==> error_of(value).message
            == message && error_of(value).code is None && error_of(value).stage is None && error_of(
            value,
        ).details.len() == 0,
        json_string_of(value) is Err ==> error_of(value).message
            == "Core returned invalid error value: "@ + value,
{
}

/// An error that is an object has its message, and its code and its stage
/// where they are given; everything else in it is a detail.
pub proof fn law_an_object_is_an_error(
    value: Seq<char>,
    members: Seq<(Seq<char>, Seq<char>)>,
    code: Seq<char>,
    stage: Seq<char>,
    message: Seq<char>,
    words: (Seq<char>, Seq<char>, Seq<char>),
    m: (Seq<char>, Seq<char>),
)
    requires
        json_members_of(value) == Some(members),
        member_of(members, "code"@) == Some(code),
        member_of(members, "stage"@) == Some(stage),
        member_of(members, "message"@) == Some(message),
        code != "null"@ && stage != "null"@,
        json_string_of(code) == Ok::<Seq<char>, Seq<char>>(words.0),
        json_string_of(stage) == Ok::<Seq<char>, Seq<char>>(words.1),
        json_string_of(message) == Ok::<Seq<char>, Seq<char>>(words.2),
    ensures
        error_of(value).code == Some(words.0),
        error_of(value).stage == Some(words.1),
        error_of(value).message == words.2,
        error_of(value).details.contains(m) <==> members.contains(m) && m.0 != "code"@ && m.0
            != "stage"@ && m.0 != "message"@,
{
    let f = crate::client::error::is_detail();
    lemma_filtered(members, f, m);
}

proof fn lemma_filtered(
    members: Seq<(Seq<char>, Seq<char>)>,
    f: spec_fn((Seq<char>, Seq<char>)) -> bool,
    m: (Seq<char>, Seq<char>),
)
    ensures
        members.filter(f).contains(m) <==> members.contains(m) && f(m),
    decreases members.len(),
{
    reveal(Seq::filter);
    if members.len() > 0 {
        let init = members.drop_last();
        let rest = init.filter(f);
        let all = members.filter(f);
        lemma_filtered(init, f, m);
        if all.contains(m) {
            let n = choose|n: int| 0 <= n < all.len() && all[n] == m;
            if n < rest.len() {
                assert(rest[n] == m);
                let k = choose|k: int| 0 <= k < init.len() && init[k] == m;
                assert(members[k] == m);
            } else {
                assert(members[members.len() - 1] == m);
            }
        }
        if members.contains(m) && f(m) {
            let k = choose|k: int| 0 <= k < members.len() && members[k] == m;
            if k < init.len() {
                assert(init[k] == m);
                let n = choose|n: int| 0 <= n < rest.len() && rest[n] == m;
                assert(all[n] == m);
            } else {
                assert(all[all.len() - 1] == m);
            }
        }
    }
}

/// An error without a message is broken, and says so.
pub proof fn law_an_error_needs_a_message(
    value: Seq<char>,
    members: Seq<(Seq<char>, Seq<char>)>,
)
    requires
        json_members_of(value) == Some(members),
        member_of(members, "message"@) is None,
        member_of(members, "code"@) is None,
        member_of(members, "stage"@) is None,
    ensures
        error_of(value).message == "Core returned invalid error envelope: "@
            + "missing field `message`"@,
        error_of(value).code is None && error_of(value).stage is None,
{
}

/// The text of an error is its message.
pub proof fn law_the_text_of_an_error(e: ClientError, r: String, message: String, made: ClientError)
    requires
        call_ensures(ClientError::text, (&e,), r),
        call_ensures(ClientError::legacy, (message,), made),
    ensures
        r@ == e.message@,
        made.message@ == message@ && made.code is None && made.stage is None && made.details@.len()
            == 0,
{
    assert(crate::json::read::member_views(made.details@).len() == made.details@.len());
}

// ---------------------------------------------------------------------------
// Values.
// ---------------------------------------------------------------------------

/// A field is found in an object only; a missing one reads as null.
pub proof fn law_fields_of_values(
    value: Seq<char>,
    members: Seq<(Seq<char>, Seq<char>)>,
    name: Seq<char>,
    elements: Seq<Seq<char>>,
)
    ensures
        json_members_of(value) is None ==> field_of(value, name) is None,
        json_members_of(value) == Some(members) ==> field_of(value, name) == member_of(
            members,
            name,
        ),
        value_or_null(None) == "null"@,
        value_or_null(Some(value)) == value,
        json_elements_of(value) == Some(elements) ==> elements_in(Some(value)) == elements,
        json_elements_of(value) is None ==> elements_in(Some(value)).len() == 0,
        elements_in(None).len() == 0,
{
}

/// A target is read field by field, each from the member of its name.
pub proof fn law_fields_of_a_target(t: ResolvedTarget, value: Seq<char>)
    requires
        t.reads(value),
    ensures
        field_of(value, "name"@) matches Some(v) ==> opt_view(t.name) == string_in(v),
        field_of(value, "path"@) matches Some(v) ==> opt_view(t.path) == string_in(v),
        field_of(value, "runtime"@) matches Some(v) ==> opt_view(t.runtime) == string_in(v),
        field_of(value, "transport"@) matches Some(v) ==> opt_view(t.transport) == string_in(v),
        field_of(value, "target"@) matches Some(v) ==> opt_view(t.target) == string_in(v),
        field_of(value, "session"@) matches Some(v) ==> opt_view(t.session) == string_in(v),
        field_of(value, "socket"@) matches Some(v) ==> opt_view(t.socket) == string_in(v),
        field_of(value, "workspace_id"@) matches Some(v) ==> opt_view(t.workspace_id) == string_in(
            v,
        ),
        field_of(value, "name"@) is None ==> t.name is None,
        field_of(value, "path"@) is None ==> t.path is None,
        field_of(value, "runtime"@) is None ==> t.runtime is None,
        field_of(value, "transport"@) is None ==> t.transport is None,
        field_of(value, "target"@) is None ==> t.target is None,
        field_of(value, "session"@) is None ==> t.session is None,
        field_of(value, "socket"@) is None ==> t.socket is None,
        field_of(value, "workspace_id"@) is None ==> t.workspace_id is None,
{
}

/// The number of a colour has red in its highest byte and blue in its lowest.
pub proof fn law_the_number_of_a_colour(c: ClientRgb, r: u32)
    requires
        call_ensures(ClientRgb::to_u32, (c,), r),
    ensures
        r / 65536 == c.0,
        r / 256 % 256 == c.1,
        r % 256 == c.2,
{
}

/// The first pane of a layout is reached through its first parts.
pub proof fn law_the_first_pane_of_a_layout(layout: ClientLayout, r: u32)
    requires
        call_ensures(client_layout_first_pane, (&layout,), r),
    ensures
        layout matches ClientLayout::Leaf { pane_id } ==> r == pane_id,
        layout matches ClientLayout::Split { first, second, .. } ==> r == first.leaves()[0],
{
    if let ClientLayout::Split { first, second, .. } = layout {
        crate::client::types::lemma_layout_has_leaves(*first);
    }
}

// ---------------------------------------------------------------------------
// Paths.
// ---------------------------------------------------------------------------

/// A path of the settings has a slash before each of its parts; in a part a
/// tilde is written as `~0` and a slash as `~1`.
pub proof fn law_how_a_path_is_written(a: Seq<char>, b: Seq<char>)
    requires
        !b.contains('.'),
    ensures
        pointer_of(a + seq!['.'] + b) == pointer_of(a) + "/"@ + pointer_token(b),
        !a.contains('.') ==> pointer_of(a) == "/"@ + pointer_token(a),
        !a.contains('~') && !a.contains('/') ==> pointer_token(a) == a,
        pointer_token(seq!['~']) == "~0"@,
        pointer_token(seq!['/']) == "~1"@,
        pointer_token(a + b) == pointer_token(a) + pointer_token(b),
{
    reveal_strlit("~0");
    reveal_strlit("~1");
    let f = |p: Seq<char>| pointer_token(p);
    crate::text::split::lemma_split_push(a, '.', b);
    crate::text::split::lemma_split_nonempty(a, '.');
    let parts = split_on(a, '.');
    let coded = Seq::new(parts.len(), |i: int| pointer_token(parts[i]));
    let longer = parts.push(b);
    assert(Seq::new(longer.len(), |i: int| pointer_token(longer[i])) =~= coded.push(
        pointer_token(b),
    ));
    crate::laws::text::law_how_parts_are_joined(coded, pointer_token(b), "/"@);
    assert(pointer_of(a + seq!['.'] + b) =~= pointer_of(a) + "/"@ + pointer_token(b));
    if !a.contains('.') {
        crate::text::split::lemma_split_whole(a, '.');
        assert(coded =~= seq![pointer_token(a)]);
        crate::laws::text::law_how_parts_are_joined(coded, pointer_token(a), "/"@);
    }
    if !a.contains('~') && !a.contains('/') {
        crate::laws::text::lemma_nothing_to_replace(a, '~', "~0"@);
        crate::laws::text::lemma_nothing_to_replace(a, '/', "~1"@);
    }
    crate::laws::text::law_one_character_is_replaced('~', '~', "~0"@);
    assert(!"~0"@.contains('/'));
    crate::laws::text::lemma_nothing_to_replace("~0"@, '/', "~1"@);
    crate::laws::text::law_one_character_is_replaced('/', '~', "~0"@);
    crate::laws::text::law_one_character_is_replaced('/', '/', "~1"@);
    crate::laws::text::law_parts_are_replaced_alone(a, b, '~', "~0"@);
    crate::laws::text::law_parts_are_replaced_alone(
        replaced(a, '~', "~0"@),
        replaced(b, '~', "~0"@),
        '/',
        "~1"@,
    );
}

/// A value is found by going from member to member.
pub proof fn law_values_are_found_by_their_path(
    value: Seq<char>,
    members: Seq<Seq<char>>,
    next: Seq<char>,
    inner: Seq<char>,
)
    ensures
        pointed(value, Seq::<Seq<char>>::empty()) == Some(value),
        pointed(value, members) == Some(inner) ==> pointed(value, members.push(next)) == field_of(
            inner,
            next,
        ),
        pointed(value, members) is None ==> pointed(value, members.push(next)) is None,
{
    assert(members.push(next).drop_last() =~= members);
}

/// A page of the manifest has its name, its title and its fields in their
/// order; each field has its own members.
pub proof fn law_pages_of_the_manifest(
    text: Seq<char>,
    id: Seq<char>,
    key: Seq<char>,
    fields: Seq<Seq<char>>,
    groups: Seq<Seq<char>>,
    i: int,
)
    ensures
        field_of(text, "fields"@) is Some && json_elements_of(field_of(text, "fields"@)->0) == Some(
            fields,
        ) ==> group_in(text).fields.len() == fields.len() && (0 <= i < fields.len() ==> group_in(
            text,
        ).fields[i] == field_in(fields[i])),
        field_of(text, "title_key"@) is Some && string_in(field_of(text, "title_key"@)->0) == Some(
            key,
        ) ==> group_in(text).title_key == key,
        field_of(text, "id"@) is Some && string_in(field_of(text, "id"@)->0) == Some(id)
            && !crate::text::all_white(id) ==> group_in(text).id == id,
        field_of(text, "groups"@) is Some && json_elements_of(field_of(text, "groups"@)->0) == Some(
            groups,
        ) ==> groups_in(text).len() == groups.len() && (0 <= i < groups.len() ==> groups_in(text)[i]
            == group_in(groups[i])),
{
}

/// A field of the manifest is read member by member.
pub proof fn law_members_of_a_field(text: Seq<char>, word: Seq<char>)
    ensures
        field_of(text, "path"@) is Some && string_in(field_of(text, "path"@)->0) == Some(word)
            ==> field_in(text).path == word,
        field_of(text, "control"@) is Some && string_in(field_of(text, "control"@)->0) == Some(word)
            ==> field_in(text).control == word,
        field_of(text, "title_key"@) is Some && string_in(field_of(text, "title_key"@)->0) == Some(
            word,
        ) ==> field_in(text).title_key == word,
        field_of(text, "apply"@) is Some && string_in(field_of(text, "apply"@)->0) == Some(word)
            ==> field_in(text).apply == word,
{
}

/// What a stored value is read as: missing, a switch, a text, or a list of the
/// texts among its elements.
pub proof fn law_what_is_stored(
    value: SettingValue,
    text: Seq<char>,
    word: Seq<char>,
    elements: Seq<Seq<char>>,
)
    ensures
        stored_as(value, None) ==> value is Missing,
        text == "true"@ && stored_as(value, Some(text)) ==> value == SettingValue::Switch(true),
        text == "false"@ && stored_as(value, Some(text)) ==> value == SettingValue::Switch(false),
        text != "true"@ && text != "false"@ && string_in(text) == Some(word) && stored_as(
            value,
            Some(text),
        ) ==> (value matches SettingValue::Text(t) && t@ == word),
        text != "true"@ && text != "false"@ && string_in(text) is None && json_elements_of(text)
            == Some(elements) && stored_as(value, Some(text)) ==> (
        value matches SettingValue::Texts(l) && views(l@) == texts_among(elements)),
{
    reveal_strlit("true");
    reveal_strlit("false");
    assert("true"@.len() != "false"@.len());
}

} // verus!
