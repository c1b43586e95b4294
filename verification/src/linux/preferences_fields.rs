//! The controls of the settings window: what they start with, what they are
//! saved as, and whether they were changed.
use vstd::prelude::*;
use vstd::string::*;

use crate::client::config::replace;
use crate::client::types::ClientJsonPatchOperation;
use crate::json::{
    bool_text, json_bool, json_list, json_quote, json_string, list_text,
};
use crate::json::read::{as_string, field, field_of, json_elements, json_elements_of, string_in};
use crate::linux::preferences_labels::{option_label, option_text, SettingText, SettingTextView};
use crate::text::lines::{lines, lines_of, without_cr};
use crate::text::number::{push_decimal, signed_decimal};
use crate::text::split::{
    join, join_strings, lemma_split_push, lemma_split_whole, split, split_on,
};
use crate::text::{
    chars_of, is_trim_range, lemma_trimmed, lemma_trimmed_ends, opt_view, push_char, same, same_opt,
    string_of, trim, trimmed, views,
};

verus! {

/// A control with what it holds. A number is a whole one, or one with
/// decimals in the form in which it is saved.
#[derive(Debug, PartialEq, Eq)]
pub enum ControlKind {
    Switch(bool),
    Integer(i64),
    Decimal(String),
    Text(String),
    StringList(String),
    MultiLine(String),
    Select(Option<String>),
    FontPicker(Option<String>),
    Summary,
}

// ---------------------------------------------------------------------------
// Values.
// ---------------------------------------------------------------------------

/// The parts without white space around them, empty ones left out.
pub open spec fn kept_parts(parts: Seq<Seq<char>>) -> Seq<Seq<char>>
    decreases parts.len(),
{
    if parts.len() == 0 {
        Seq::<Seq<char>>::empty()
    } else {
        let rest = kept_parts(parts.drop_last());
        let part = trimmed(parts.last());
        if part.len() == 0 {
            rest
        } else {
            rest.push(part)
        }
    }
}

/// Texts as JSON values.
pub open spec fn quoted(parts: Seq<Seq<char>>) -> Seq<Seq<char>> {
    parts.map_values(|p: Seq<char>| json_string(p))
}

/// The JSON text that a control is saved as; a control without a value is not
/// saved.
pub open spec fn control_value(kind: ControlKind) -> Option<Seq<char>> {
    match kind {
        ControlKind::Switch(on) => Some(json_bool(on)),
        ControlKind::Integer(n) => Some(signed_decimal(n as int)),
        ControlKind::Decimal(text) => Some(text@),
        ControlKind::Text(text) => Some(json_string(text@)),
        ControlKind::StringList(text) => Some(
            json_list(quoted(kept_parts(split_on(text@, ',')))),
        ),
        ControlKind::MultiLine(text) => Some(json_list(quoted(kept_parts(lines_of(text@))))),
        ControlKind::Select(Some(id)) => Some(json_string(id@)),
        ControlKind::FontPicker(Some(family)) => Some(json_string(family@)),
        _ => None,
    }
}

fn signed_text(n: i64) -> (r: String)
    ensures
        r@ == signed_decimal(n as int),
{
    let mut out = String::new();
    if n < 0 {
        push_char(&mut out, '-');
        let size: u64 = (-(n + 1)) as u64 + 1;
        push_decimal(&mut out, size);
    } else {
        push_decimal(&mut out, n as u64);
    }
    assert(out@ =~= signed_decimal(n as int));
    out
}

fn quoted_list(parts: &Vec<String>) -> (r: String)
    ensures
        r@ == json_list(quoted(kept_parts(views(parts@)))),
{
    let ghost all = views(parts@);
    let mut out: Vec<String> = Vec::new();
    let mut i: usize = 0;
    assert(views(out@) =~= quoted(kept_parts(all.take(0))));
    while i < parts.len()
        invariant
            i <= parts.len(),
            all == views(parts@),
            views(out@) == quoted(kept_parts(all.take(i as int))),
        decreases parts.len() - i,
    {
        let ghost before = views(out@);
        let part = trim(parts[i].as_str());
        assert(all.take(i + 1).drop_last() =~= all.take(i as int));
        assert(all.take(i + 1).last() == parts@[i as int]@);
        if !part.as_str().is_empty() {
            let text = json_quote(part.as_str());
            out.push(text);
            proof {
                assert(views(out@) =~= before.push(json_string(part@)));
                assert(quoted(kept_parts(all.take(i + 1))) =~= before.push(json_string(part@)));
            }
        }
        i += 1;
    }
    assert(all.take(i as int) =~= all);
    list_text(&out)
}

/// A control of the window with the path of its setting and the value it
/// started with.
#[derive(Debug)]
pub struct FieldControl {
    pub path: String,
    pub kind: ControlKind,
    baseline: Option<String>,
}

/// The view of a [`FieldControl`].
pub struct FieldControlView {
    pub path: Seq<char>,
    pub kind: ControlKind,
    pub baseline: Option<Seq<char>>,
}

impl View for FieldControl {
    type V = FieldControlView;

    closed spec fn view(&self) -> FieldControlView {
        FieldControlView {
            path: self.path@,
            kind: self.kind,
            baseline: opt_view(self.baseline),
        }
    }
}

fn value_of(kind: &ControlKind) -> (r: Option<String>)
    ensures
        opt_view(r) == control_value(*kind),
{
    match kind {
        ControlKind::Switch(on) => Some(bool_text(*on)),
        ControlKind::Integer(n) => Some(signed_text(*n)),
        ControlKind::Decimal(text) => Some(text.clone()),
        ControlKind::Text(text) => Some(json_quote(text.as_str())),
        ControlKind::StringList(text) => {
            let parts = split(text.as_str(), ',');
            Some(quoted_list(&parts))
        },
        ControlKind::MultiLine(text) => {
            let parts = lines(text.as_str());
            Some(quoted_list(&parts))
        },
        ControlKind::Select(Some(id)) => Some(json_quote(id.as_str())),
        ControlKind::Select(None) => None,
        ControlKind::FontPicker(Some(family)) => Some(json_quote(family.as_str())),
        ControlKind::FontPicker(None) => None,
        ControlKind::Summary => None,
    }
}

impl FieldControl {
    /// Returns the JSON text that the control is saved as.
    pub fn value(&self) -> (r: Option<String>)
        ensures
            opt_view(r) == control_value(self@.kind),
    {
        value_of(&self.kind)
    }

    /// Tells whether the control no longer holds the value it started with.
    pub fn is_changed(&self) -> (r: bool)
        ensures
            r == (control_value(self@.kind) != self@.baseline),
    {
        let now = self.value();
        !same_opt(&now, &self.baseline)
    }

    /// Takes what the user entered.
    pub fn set(&mut self, kind: ControlKind)
        ensures
            final(self)@ == (FieldControlView { kind, ..old(self)@ }),
    {
        self.kind = kind;
    }

    /// Returns the path of the setting.
    pub fn setting_path(&self) -> (r: &str)
        ensures
            r@ == self@.path,
    {
        self.path.as_str()
    }
}

/// A control that starts with what it holds now.
pub fn tracked_field(path: String, kind: ControlKind) -> (r: FieldControl)
    ensures
        r@.path == path@,
        r@.kind == kind,
        r@.baseline == control_value(kind),
{
    let baseline = value_of(&kind);
    FieldControl { path, kind, baseline }
}

/// Texts that a control for a list can hold as they are: not empty, without
/// white space at their ends and without the separator of the list.
pub open spec fn listable(parts: Seq<Seq<char>>, sep: char) -> bool {
    forall|i: int|
        0 <= i < parts.len() ==> (#[trigger] parts[i]).len() > 0 && trimmed(parts[i]) == parts[i]
            && !parts[i].contains(sep)
}

proof fn lemma_trimmed_behind_space(part: Seq<char>)
    requires
        part.len() > 0,
        trimmed(part) == part,
    ensures
        trimmed(seq![' '] + part) == part,
{
    let s = seq![' '] + part;
    lemma_trimmed_ends(part);
    let n = s.len() as int;
    assert(s.subrange(0, 1) =~= seq![' ']);
    assert(is_trim_range(s, 1, n));
    lemma_trimmed(s, 1, n);
    assert(s.subrange(1, n) =~= part);
}

/// A list of texts is saved as it was stored: what a control for names shows
/// of it is read back as the same list.
pub proof fn law_untouched_list_is_saved_as_stored(parts: Seq<Seq<char>>)
    requires
        parts.len() > 0,
        listable(parts, ','),
    ensures
        kept_parts(split_on(join(parts, ", "@), ',')) == parts,
    decreases parts.len(),
{
    reveal_strlit(", ");
    let last = parts.last();
    let init = parts.drop_last();
    assert(trimmed(last) == last && last.len() > 0 && !last.contains(','));
    if parts.len() == 1 {
        lemma_split_whole(last, ',');
        assert(seq![last].drop_last() =~= Seq::<Seq<char>>::empty());
        assert(kept_parts(seq![last].drop_last()) =~= Seq::<Seq<char>>::empty());
        assert(parts =~= seq![last]);
        assert(join(parts, ", "@) == last);
        assert(kept_parts(seq![last]) =~= parts);
    } else {
        assert(listable(init, ',')) by {
            assert forall|i: int| 0 <= i < init.len() implies (#[trigger] init[i]).len() > 0
                && trimmed(init[i]) == init[i] && !init[i].contains(',') by {
                assert(init[i] == parts[i]);
            }
        }
        law_untouched_list_is_saved_as_stored(init);
        let tail = seq![' '] + last;
        assert forall|i: int| 0 <= i < tail.len() implies tail[i] != ',' by {
            if i > 0 {
                assert(last.contains(last[i - 1]));
            }
        }
        let all = join(parts, ", "@);
        assert(all =~= join(init, ", "@) + seq![','] + tail);
        lemma_split_push(join(init, ", "@), ',', tail);
        let pieces = split_on(join(init, ", "@), ',');
        assert(pieces.push(tail).drop_last() =~= pieces);
        lemma_trimmed_behind_space(last);
        assert(init.push(last) =~= parts);
    }
}

/// A list of texts is saved as it was stored: what a control for lines shows
/// of it is read back as the same list.
pub proof fn law_untouched_lines_are_saved_as_stored(parts: Seq<Seq<char>>)
    requires
        parts.len() > 0,
        listable(parts, '\n'),
    ensures
        kept_parts(lines_of(join(parts, "\n"@))) == parts,
{
    reveal_strlit("\n");
    lemma_split_lines(parts);
    let all = join(parts, "\n"@);
    let last = parts.last();
    assert(last.len() > 0);
    let ended = Seq::new((parts.len() - 1) as nat, |i: int| without_cr(parts[i]));
    assert forall|i: int| 0 <= i < parts.len() implies without_cr(#[trigger] parts[i]) == parts[i] by {
        lemma_trimmed_ends(parts[i]);
    }
    assert(lines_of(all) =~= parts) by {
        assert(ended =~= parts.drop_last());
        assert(parts.drop_last().push(last) =~= parts);
    }
    lemma_kept_all(parts);
}

proof fn lemma_split_lines(parts: Seq<Seq<char>>)
    requires
        parts.len() > 0,
        listable(parts, '\n'),
    ensures
        split_on(join(parts, "\n"@), '\n') == parts,
    decreases parts.len(),
{
    reveal_strlit("\n");
    let last = parts.last();
    let init = parts.drop_last();
    assert(!last.contains('\n'));
    if parts.len() == 1 {
        lemma_split_whole(last, '\n');
        assert(parts =~= seq![last]);
    } else {
        assert(listable(init, '\n')) by {
            assert forall|i: int| 0 <= i < init.len() implies (#[trigger] init[i]).len() > 0
                && trimmed(init[i]) == init[i] && !init[i].contains('\n') by {
                assert(init[i] == parts[i]);
            }
        }
        lemma_split_lines(init);
        assert(join(parts, "\n"@) =~= join(init, "\n"@) + seq!['\n'] + last);
        lemma_split_push(join(init, "\n"@), '\n', last);
        assert(init.push(last) =~= parts);
    }
}

proof fn lemma_kept_all(parts: Seq<Seq<char>>)
    requires
        forall|i: int|
            0 <= i < parts.len() ==> (#[trigger] parts[i]).len() > 0 && trimmed(parts[i])
                == parts[i],
    ensures
        kept_parts(parts) == parts,
    decreases parts.len(),
{
    if parts.len() > 0 {
        let init = parts.drop_last();
        assert forall|i: int| 0 <= i < init.len() implies (#[trigger] init[i]).len() > 0 && trimmed(
            init[i],
        ) == init[i] by {
            assert(init[i] == parts[i]);
        }
        lemma_kept_all(init);
        assert(parts.last().len() > 0);
        assert(init.push(parts.last()) =~= parts);
    } else {
        assert(parts =~= Seq::<Seq<char>>::empty());
    }
}

// ---------------------------------------------------------------------------
// Names.
// ---------------------------------------------------------------------------

/// A path without the slashes at its start.
pub open spec fn bare_path(path: Seq<char>) -> Seq<char>
    decreases path.len(),
{
    if path.len() > 0 && path[0] == '/' {
        bare_path(path.drop_first())
    } else {
        path
    }
}

fn strip_slashes(path: &str) -> (r: String)
    ensures
        r@ == bare_path(path@),
{
    let v = chars_of(path);
    let mut i: usize = 0;
    assert(v@.skip(0) =~= path@);
    while i < v.len() && v[i] == '/'
        invariant
            i <= v.len(),
            v@ == path@,
            bare_path(path@) == bare_path(v@.skip(i as int)),
        decreases v.len() - i,
    {
        assert(v@.skip(i as int).drop_first() =~= v@.skip(i + 1));
        i += 1;
    }
    assert(v@.skip(i as int) =~= v@.subrange(i as int, v@.len() as int));
    string_of(&v, i, v.len())
}

/// A path with hyphens in place of slashes and tildes.
pub open spec fn hyphened(path: Seq<char>) -> Seq<char> {
    path.map_values(
        |c: char|
            if c == '/' || c == '~' {
                '-'
            } else {
                c
            },
    )
}

/// Returns the widget name of the control of a setting.
pub fn widget_name_for(path: &str) -> (r: String)
    ensures
        r@ == "muxterm-prefs-"@ + hyphened(bare_path(path@)),
{
    let bare = strip_slashes(path);
    let v = chars_of(bare.as_str());
    let ghost wanted = hyphened(bare@);
    let mut out = "muxterm-prefs-".to_owned();
    let mut i: usize = 0;
    assert("muxterm-prefs-"@ + wanted.take(0) =~= "muxterm-prefs-"@);
    while i < v.len()
        invariant
            i <= v.len(),
            v@ == bare@,
            wanted == hyphened(bare@),
            out@ == "muxterm-prefs-"@ + wanted.take(i as int),
        decreases v.len() - i,
    {
        let c = v[i];
        push_char(
            &mut out,
            if c == '/' || c == '~' {
                '-'
            } else {
                c
            },
        );
        assert("muxterm-prefs-"@ + wanted.take(i + 1) =~= ("muxterm-prefs-"@ + wanted.take(
            i as int,
        )).push(wanted[i as int]));
        i += 1;
    }
    assert(wanted.take(i as int) =~= wanted);
    out
}

/// The value that a chain of members leads to.
pub open spec fn pointed(value: Seq<char>, members: Seq<Seq<char>>) -> Option<Seq<char>>
    decreases members.len(),
{
    if members.len() == 0 {
        Some(value)
    } else {
        match pointed(value, members.drop_last()) {
            Some(v) => field_of(v, members.last()),
            None => None,
        }
    }
}

proof fn lemma_pointed_none(value: Seq<char>, members: Seq<Seq<char>>, i: int)
    requires
        0 <= i <= members.len(),
        pointed(value, members.take(i)) is None,
    ensures
        pointed(value, members) is None,
    decreases members.len() - i,
{
    if i < members.len() {
        assert(members.take(i + 1).drop_last() =~= members.take(i));
        lemma_pointed_none(value, members, i + 1);
    } else {
        assert(members.take(i) =~= members);
    }
}

/// Returns the stored value of a setting as JSON text; `values` is the JSON
/// text of all settings.
pub fn pointer(values: &str, path: &str) -> (r: Option<String>)
    ensures
        opt_view(r) == pointed(values@, split_on(bare_path(path@), '/')),
{
    let bare = strip_slashes(path);
    let members = split(bare.as_str(), '/');
    let ghost names = views(members@);
    let mut current = values.to_owned();
    let mut i: usize = 0;
    assert(names.take(0) =~= Seq::<Seq<char>>::empty());
    while i < members.len()
        invariant
            i <= members.len(),
            names == views(members@),
            names == split_on(bare_path(path@), '/'),
            pointed(values@, names.take(i as int)) == Some(current@),
        decreases members.len() - i,
    {
        assert(names.take(i + 1).drop_last() =~= names.take(i as int));
        match field(current.as_str(), members[i].as_str()) {
            Some(v) => {
                current = v;
            },
            None => {
                proof {
                    lemma_pointed_none(values@, names, i + 1);
                }
                return None;
            },
        }
        i += 1;
    }
    assert(names.take(names.len() as int) =~= names);
    Some(current)
}

// ---------------------------------------------------------------------------
// What a control starts with.
// ---------------------------------------------------------------------------

/// The stored value of a setting, as far as a control can show it. A list
/// holds its texts; its other elements are not shown.
#[derive(Debug)]
pub enum SettingValue {
    Missing,
    Switch(bool),
    Text(String),
    Texts(Vec<String>),
    Other,
}

/// The texts among the elements of a list.
pub open spec fn texts_among(elements: Seq<Seq<char>>) -> Seq<Seq<char>>
    decreases elements.len(),
{
    if elements.len() == 0 {
        Seq::<Seq<char>>::empty()
    } else {
        match string_in(elements.last()) {
            Some(text) => texts_among(elements.drop_last()).push(text),
            None => texts_among(elements.drop_last()),
        }
    }
}

/// The value that a JSON text stands for, given the string and the texts of the
/// list that it holds.
pub open spec fn stands_for(
    value: SettingValue,
    text: Option<Seq<char>>,
    string: Option<Seq<char>>,
    list: Option<Seq<Seq<char>>>,
) -> bool {
    match text {
        None => value is Missing,
        Some(t) => if t == "true"@ {
            value == SettingValue::Switch(true)
        } else if t == "false"@ {
            value == SettingValue::Switch(false)
        } else {
            match (string, list) {
                (Some(s), _) => value matches SettingValue::Text(shown) && shown@ == s,
                (None, Some(texts)) => value matches SettingValue::Texts(shown) && views(shown@)
                    == texts,
                (None, None) => value is Other,
            }
        },
    }
}

/// The value that a JSON text stands for.
pub open spec fn stored_as(value: SettingValue, text: Option<Seq<char>>) -> bool {
    stands_for(
        value,
        text,
        match text {
            Some(t) => string_in(t),
            None => None,
        },
        match text {
            Some(t) => match json_elements_of(t) {
                Some(elements) => Some(texts_among(elements)),
                None => None,
            },
            None => None,
        },
    )
}

/// Returns the value that a JSON text stands for, given the string and the
/// texts of the list that it holds.
pub fn classify(text: Option<&str>, string: Option<String>, list: Option<Vec<String>>) -> (r:
    SettingValue)
    ensures
        stands_for(
            r,
            match text {
                Some(t) => Some(t@),
                None => None,
            },
            opt_view(string),
            match list {
                Some(texts) => Some(views(texts@)),
                None => None,
            },
        ),
{
    match text {
        None => SettingValue::Missing,
        Some(t) => {
            if same(t, "true") {
                SettingValue::Switch(true)
            } else if same(t, "false") {
                SettingValue::Switch(false)
            } else {
                match (string, list) {
                    (Some(s), _) => SettingValue::Text(s),
                    (None, Some(texts)) => SettingValue::Texts(texts),
                    (None, None) => SettingValue::Other,
                }
            }
        },
    }
}

/// Returns the texts among the elements of a list.
pub fn texts_in(elements: &Vec<String>) -> (r: Vec<String>)
    ensures
        views(r@) == texts_among(views(elements@)),
{
    let ghost all = views(elements@);
    let mut out: Vec<String> = Vec::new();
    let mut i: usize = 0;
    assert(all.take(0) =~= Seq::<Seq<char>>::empty());
    assert(views(out@) =~= Seq::<Seq<char>>::empty());
    while i < elements.len()
        invariant
            i <= elements.len(),
            all == views(elements@),
            views(out@) == texts_among(all.take(i as int)),
        decreases elements.len() - i,
    {
        assert(all.take(i + 1).drop_last() =~= all.take(i as int));
        let ghost before = views(out@);
        if let Some(text) = as_string(elements[i].as_str()) {
            out.push(text);
            assert(views(out@) =~= before.push(text@));
        }
        i += 1;
    }
    assert(all.take(all.len() as int) =~= all);
    out
}

/// Returns the value that a JSON text stands for.
pub fn setting_value(text: &Option<String>) -> (r: SettingValue)
    ensures
        stored_as(r, opt_view(*text)),
{
    match text {
        None => classify(None, None, None),
        Some(t) => {
            let string = as_string(t.as_str());
            let list = match json_elements(t.as_str()) {
                Some(elements) => Some(texts_in(&elements)),
                None => None,
            };
            classify(Some(t.as_str()), string, list)
        },
    }
}

/// A field of the settings: its path, the control it asks for and the options
/// it offers.
#[derive(Debug)]
pub struct FieldSpec {
    pub path: String,
    pub control: String,
    pub options: Vec<String>,
}

/// The text of a stored value; nothing where it is no text.
pub open spec fn value_text(value: SettingValue) -> Seq<char> {
    match value {
        SettingValue::Text(t) => t@,
        _ => Seq::<char>::empty(),
    }
}

/// The texts of a stored list, joined; nothing where it is no list.
pub open spec fn value_texts(value: SettingValue, sep: Seq<char>) -> Seq<char> {
    match value {
        SettingValue::Texts(list) => join(views(list@), sep),
        _ => Seq::<char>::empty(),
    }
}

/// The control starts with the stored value. A number is given in `number`.
pub open spec fn starts_as(
    kind: ControlKind,
    field: FieldSpec,
    value: SettingValue,
    number: ControlKind,
) -> bool {
    let control = field.control@;
    if control == "switch"@ {
        kind == ControlKind::Switch(value matches SettingValue::Switch(true))
    } else if control == "number"@ {
        kind == number
    } else if control == "multiline"@ {
        kind matches ControlKind::MultiLine(t) && t@ == value_texts(value, "\n"@)
    } else if control == "font_picker"@ {
        if value_text(value).len() == 0 {
            kind == ControlKind::FontPicker(None)
        } else {
            kind matches ControlKind::FontPicker(Some(t)) && t@ == value_text(value)
        }
    } else if control == "select"@ || control == "theme_picker"@ {
        kind matches ControlKind::Select(Some(t)) && t@ == value_text(value)
    } else if control == "font_fallback"@ {
        kind matches ControlKind::StringList(t) && t@ == value_texts(value, ", "@)
    } else if control == "project_editor"@ || control == "shortcut_editor"@ {
        kind is Summary
    } else {
        kind matches ControlKind::Text(t) && t@ == value_text(value)
    }
}

fn text_of(value: &SettingValue) -> (r: String)
    ensures
        r@ == value_text(*value),
{
    match value {
        SettingValue::Text(t) => t.clone(),
        _ => String::new(),
    }
}

fn texts_of(value: &SettingValue, sep: &str) -> (r: String)
    ensures
        r@ == value_texts(*value, sep@),
{
    match value {
        SettingValue::Texts(list) => join_strings(list, sep),
        _ => String::new(),
    }
}

/// Returns the control of a field; `values` is the JSON text of all settings,
/// and `number` the stored number in the form that its field asks for.
pub fn control_row(field: &FieldSpec, values: &str, number: ControlKind) -> (r: FieldControl)
    ensures
        r@.path == field.path@,
        exists|value: SettingValue| #[trigger]
            stored_as(value, pointed(values@, split_on(bare_path(field.path@), '/'))) && starts_as(
                r@.kind,
                *field,
                value,
                number,
            ),
        r@.baseline == control_value(r@.kind),
{
    let value = setting_value(&pointer(values, field.path.as_str()));
    control_for(field, &value, number)
}

/// Returns the control of a field with a stored value in it.
pub fn control_for(field: &FieldSpec, value: &SettingValue, number: ControlKind) -> (r:
    FieldControl)
    ensures
        r@.path == field.path@,
        starts_as(r@.kind, *field, *value, number),
        r@.baseline == control_value(r@.kind),
{
    let control = field.control.as_str();
    let kind = if same(control, "switch") {
        ControlKind::Switch(
            match value {
                SettingValue::Switch(on) => *on,
                _ => false,
            },
        )
    } else if same(control, "number") {
        number
    } else if same(control, "multiline") {
        ControlKind::MultiLine(texts_of(value, "\n"))
    } else if same(control, "font_picker") {
        let family = text_of(value);
        if family.as_str().is_empty() {
            ControlKind::FontPicker(None)
        } else {
            ControlKind::FontPicker(Some(family))
        }
    } else if same(control, "select") || same(control, "theme_picker") {
        ControlKind::Select(Some(text_of(value)))
    } else if same(control, "font_fallback") {
        ControlKind::StringList(texts_of(value, ", "))
    } else if same(control, "project_editor") || same(control, "shortcut_editor") {
        ControlKind::Summary
    } else {
        ControlKind::Text(text_of(value))
    };
    tracked_field(field.path.clone(), kind)
}

/// One entry of a list of options: its value and its text.
pub open spec fn option_entry(path: Seq<char>, value: Seq<char>) -> (Seq<char>, SettingTextView) {
    (value, option_text(path, value))
}

/// The entries of a list of options; the stored value is added where it is
/// not among them.
pub open spec fn option_entries(field: FieldSpec, active: Seq<char>) -> Seq<
    (Seq<char>, SettingTextView),
> {
    let offered = views(field.options@);
    let all = if offered.contains(active) {
        offered
    } else {
        offered.push(active)
    };
    all.map_values(|value: Seq<char>| option_entry(field.path@, value))
}

/// The views of entries.
pub open spec fn entry_views(entries: Seq<(String, SettingText)>) -> Seq<
    (Seq<char>, SettingTextView),
> {
    Seq::new(entries.len(), |i: int| (entries[i].0@, entries[i].1@))
}

/// Returns the entries of a list of options, which always hold the stored
/// value.
pub fn select_options(field: &FieldSpec, active: &str) -> (r: Vec<(String, SettingText)>)
    ensures
        entry_views(r@) == option_entries(*field, active@),
{
    let mut out: Vec<(String, SettingText)> = Vec::new();
    let ghost offered = views(field.options@);
    let ghost wanted = offered.map_values(|value: Seq<char>| option_entry(field.path@, value));
    let mut found = false;
    let mut i: usize = 0;
    assert(entry_views(out@) =~= wanted.take(0));
    while i < field.options.len()
        invariant
            i <= field.options.len(),
            offered == views(field.options@),
            wanted == offered.map_values(|value: Seq<char>| option_entry(field.path@, value)),
            entry_views(out@) == wanted.take(i as int),
            found == (exists|j: int| 0 <= j < i && (#[trigger] offered[j]) == active@),
        decreases field.options.len() - i,
    {
        let ghost before = entry_views(out@);
        let value = field.options[i].clone();
        assert(offered[i as int] == value@);
        if same(value.as_str(), active) {
            found = true;
        }
        let label = option_label(field.path.as_str(), value.as_str());
        out.push((value, label));
        proof {
            assert(entry_views(out@) =~= before.push(option_entry(field.path@, value@)));
            assert(wanted.take(i + 1) =~= wanted.take(i as int).push(wanted[i as int]));
        }
        i += 1;
    }
    assert(wanted.take(i as int) =~= wanted);
    if !found {
        let ghost before = entry_views(out@);
        let label = option_label(field.path.as_str(), active);
        out.push((active.to_owned(), label));
        assert(entry_views(out@) =~= before.push(option_entry(field.path@, active@)));
        assert(!offered.contains(active@));
    }
    assert(entry_views(out@) =~= option_entries(*field, active@));
    out
}

// ---------------------------------------------------------------------------
// Numbers.
// ---------------------------------------------------------------------------

/// The range of a number in tenths, its step in tenths and how many decimals
/// it shows.
#[derive(Debug, Clone, Copy, PartialEq, Eq)]
pub struct NumberRange {
    pub min: u64,
    pub max: u64,
    pub step: u64,
    pub digits: u32,
}

/// The range of a number. The number of workspaces has no upper bound of its
/// own, so it ends where thirty-two bits end.
pub open spec fn range_of(path: Seq<char>) -> NumberRange {
    if path == "/font/size"@ {
        NumberRange { min: 90, max: 720, step: 5, digits: 1 }
    } else if path == "/ssh/port"@ {
        NumberRange { min: 10, max: 655350, step: 10, digits: 0 }
    } else if path == "/attention/debounce_ms"@ {
        NumberRange { min: 0, max: 100000, step: 500, digits: 0 }
    } else if path == "/ui/tab_bar_height"@ {
        NumberRange { min: 160, max: 960, step: 10, digits: 0 }
    } else if path == "/pool/max_slots"@ {
        NumberRange { min: 10, max: 42949672950, step: 10, digits: 0 }
    } else if path == "/scrollback/lines"@ {
        NumberRange { min: 1000, max: 10000000, step: 1000, digits: 0 }
    } else {
        NumberRange { min: 0, max: 10000000, step: 10, digits: 0 }
    }
}

/// Returns the range of a number.
pub fn number_spec(path: &str) -> (r: NumberRange)
    ensures
        r == range_of(path@),
{
    if same(path, "/font/size") {
        NumberRange { min: 90, max: 720, step: 5, digits: 1 }
    } else if same(path, "/ssh/port") {
        NumberRange { min: 10, max: 655350, step: 10, digits: 0 }
    } else if same(path, "/attention/debounce_ms") {
        NumberRange { min: 0, max: 100000, step: 500, digits: 0 }
    } else if same(path, "/ui/tab_bar_height") {
        NumberRange { min: 160, max: 960, step: 10, digits: 0 }
    } else if same(path, "/pool/max_slots") {
        NumberRange { min: 10, max: 42949672950, step: 10, digits: 0 }
    } else if same(path, "/scrollback/lines") {
        NumberRange { min: 1000, max: 10000000, step: 1000, digits: 0 }
    } else {
        NumberRange { min: 0, max: 10000000, step: 10, digits: 0 }
    }
}

// ---------------------------------------------------------------------------
// Saving.
// ---------------------------------------------------------------------------

/// The operation replaces the setting of a control by its value.
pub open spec fn saves(op: ClientJsonPatchOperation, control: FieldControlView) -> bool {
    op.op@ == "replace"@ && op.path@ == control.path && opt_view(op.value) == control_value(
        control.kind,
    )
}

/// `ops` holds one operation for each control that has a value, in order.
pub open spec fn saves_all(
    ops: Seq<ClientJsonPatchOperation>,
    controls: Seq<FieldControl>,
) -> bool
    decreases controls.len(),
{
    if controls.len() == 0 {
        ops.len() == 0
    } else if control_value(controls.last()@.kind) is Some {
        ops.len() > 0 && saves(ops.last(), controls.last()@) && saves_all(
            ops.drop_last(),
            controls.drop_last(),
        )
    } else {
        saves_all(ops, controls.drop_last())
    }
}

/// Returns the patch that saves the controls.
pub fn save_operations(controls: &Vec<FieldControl>) -> (r: Vec<ClientJsonPatchOperation>)
    ensures
        saves_all(r@, controls@),
{
    let mut out: Vec<ClientJsonPatchOperation> = Vec::new();
    let mut i: usize = 0;
    while i < controls.len()
        invariant
            i <= controls.len(),
            saves_all(out@, controls@.take(i as int)),
        decreases controls.len() - i,
    {
        let control = &controls[i];
        let ghost before = out@;
        assert(controls@.take(i + 1).drop_last() =~= controls@.take(i as int));
        assert(controls@.take(i + 1).last() == *control);
        if let Some(value) = control.value() {
            out.push(replace(control.setting_path(), value));
            assert(out@.drop_last() =~= before);
        }
        i += 1;
    }
    assert(controls@.take(i as int) =~= controls@);
    out
}

/// Some control was changed.
pub open spec fn some_changed(controls: Seq<FieldControl>) -> bool {
    exists|i: int|
        0 <= i < controls.len() && control_value((#[trigger] controls[i])@.kind)
            != controls[i]@.baseline
}

/// Tells whether closing the window would lose a change, so that the user is
/// asked first.
pub fn must_confirm_discard(controls: &Vec<FieldControl>) -> (r: bool)
    ensures
        r == some_changed(controls@),
{
    let mut i: usize = 0;
    while i < controls.len()
        invariant
            i <= controls.len(),
            forall|j: int|
                0 <= j < i ==> control_value((#[trigger] controls@[j])@.kind)
                    == controls@[j]@.baseline,
        decreases controls.len() - i,
    {
        if controls[i].is_changed() {
            return true;
        }
        i += 1;
    }
    false
}

} // verus!
