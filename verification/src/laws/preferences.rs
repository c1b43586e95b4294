//! The settings: what a control holds and saves, how it starts, what a search
//! finds, and the list of projects.
use vstd::prelude::*;

use crate::client::types::ClientJsonPatchOperation;
use crate::json::{json_list, json_string};
use crate::linux::preferences_fields::{
    bare_path, classify, control_value, kept_parts, option_entries, saves_all, starts_as,
    texts_among, widget_name_for, ControlKind, FieldControl, FieldSpec, SettingValue,
};
use crate::linux::preferences_labels::{
    capital_words, category_name, option_text, title_key_of, title_of_field, titled, unified,
    SettingTextView,
};
use crate::linux::preferences_manifest::field_from;
use crate::linux::preferences_window::{
    category_page, editor_for, first_match, named_group, page_matches, persist_projects,
    preview_summary, project_rows, request_close, save_status, search_settings,
    show_project_manager, CategoryPage, CloseRequest, Editor, FieldTexts, ProjectChange,
    ProjectFollowUp, ProjectRow, SearchOutcome,
};
use crate::text::find::contains;
use crate::text::lines::lines_of;
use crate::text::number::signed_decimal;
use crate::text::order::ascii_lower;
use crate::text::split::{join, split_on};
use crate::text::{all_white, opt_view, trimmed, uppercase_of_char, views};

verus! {

// ---------------------------------------------------------------------------
// Controls.
// ---------------------------------------------------------------------------

/// What each control holds as JSON. A list without a choice, and what is only
/// summed up, hold nothing.
pub proof fn law_what_a_control_holds(on: bool, n: i64, text: String)
    ensures
        control_value(ControlKind::Switch(true)) == Some("true"@),
        control_value(ControlKind::Switch(false)) == Some("false"@),
        control_value(ControlKind::Integer(n)) == Some(signed_decimal(n as int)),
        control_value(ControlKind::Decimal(text)) == Some(text@),
        control_value(ControlKind::Text(text)) == Some(json_string(text@)),
        control_value(ControlKind::Select(Some(text))) == Some(json_string(text@)),
        control_value(ControlKind::FontPicker(Some(text))) == Some(json_string(text@)),
        control_value(ControlKind::Select(None)) is None,
        control_value(ControlKind::FontPicker(None)) is None,
        control_value(ControlKind::Summary) is None,
{
}

/// A list is saved as the texts between its commas, and lines as the texts on
/// them.
pub proof fn law_what_a_list_holds(text: String, parts: Seq<Seq<char>>, items: Seq<Seq<char>>)
    requires
        items.len() == parts.len(),
        forall|i: int| 0 <= i < parts.len() ==> #[trigger] items[i] == json_string(parts[i]),
    ensures
        parts == kept_parts(split_on(text@, ',')) ==> control_value(ControlKind::StringList(text))
            == Some(json_list(items)),
        parts == kept_parts(lines_of(text@)) ==> control_value(ControlKind::MultiLine(text))
            == Some(json_list(items)),
{
    assert(crate::linux::preferences_fields::quoted(parts) =~= items);
}

/// A text is in the list exactly where it is a part without the blanks around
/// it, and not empty. No empty text is in it.
pub proof fn law_which_parts_are_kept(parts: Seq<Seq<char>>, text: Seq<char>)
    ensures
        kept_parts(parts).contains(text) <==> text.len() > 0 && exists|i: int|
            0 <= i < parts.len() && trimmed(#[trigger] parts[i]) == text,
        kept_parts(parts).len() <= parts.len(),
    decreases parts.len(),
{
    if parts.len() > 0 {
        let init = parts.drop_last();
        law_which_parts_are_kept(init, text);
        let rest = kept_parts(init);
        let all = kept_parts(parts);
        assert(parts.last() == parts[parts.len() - 1]);
        assert forall|i: int| 0 <= i < init.len() implies #[trigger] init[i] == parts[i] by {}
        if rest.contains(text) {
            let n = choose|n: int| 0 <= n < rest.len() && rest[n] == text;
            assert(all[n] == text);
        }
        if all.contains(text) && !rest.contains(text) {
            let n = choose|n: int| 0 <= n < all.len() && all[n] == text;
            if n < rest.len() {
                assert(rest[n] == text);
            }
            assert(trimmed(parts[parts.len() - 1]) == text);
        }
        if text.len() > 0 && trimmed(parts.last()) == text {
            assert(all[all.len() - 1] == text);
        }
        if text.len() > 0 && exists|i: int|
            0 <= i < parts.len() && trimmed(#[trigger] parts[i]) == text {
            let i = choose|i: int| 0 <= i < parts.len() && trimmed(#[trigger] parts[i]) == text;
            if i < init.len() {
                assert(init[i] == parts[i]);
            }
        }
    }
}

/// Each control that holds something is saved under its path with what it
/// holds, and nothing else is saved.
pub proof fn law_what_is_saved(
    ops: Seq<ClientJsonPatchOperation>,
    controls: Seq<FieldControl>,
    k: int,
    n: int,
)
    requires
        saves_all(ops, controls),
    ensures
        ops.len() <= controls.len(),
        0 <= k < controls.len() && control_value(controls[k]@.kind) is Some ==> exists|n: int|
            0 <= n < ops.len() && (#[trigger] ops[n]).op@ == "replace"@ && ops[n].path@
                == controls[k]@.path && opt_view(ops[n].value) == control_value(controls[k]@.kind),
        0 <= n < ops.len() ==> exists|k: int|
            0 <= k < controls.len() && ops[n].path@ == (#[trigger] controls[k])@.path && opt_view(
                ops[n].value,
            ) == control_value(controls[k]@.kind) && ops[n].value is Some && ops[n].op@
                == "replace"@,
    decreases controls.len(),
{
    if controls.len() > 0 {
        let init = controls.drop_last();
        let given = control_value(controls.last()@.kind) is Some;
        let rest = if given {
            ops.drop_last()
        } else {
            ops
        };
        law_what_is_saved(rest, init, k, n);
        assert(controls.last() == controls[controls.len() - 1]);
        if 0 <= k < init.len() && control_value(controls[k]@.kind) is Some {
            assert(init[k] == controls[k]);
            let m = choose|n: int|
                0 <= n < rest.len() && (#[trigger] rest[n]).op@ == "replace"@ && rest[n].path@
                    == init[k]@.path && opt_view(rest[n].value) == control_value(init[k]@.kind);
            assert(ops[m] == rest[m]);
        }
        if k == init.len() && given {
            assert(ops[ops.len() - 1] == ops.last());
        }
        if 0 <= n < rest.len() {
            assert(ops[n] == rest[n]);
            let j = choose|k: int|
                0 <= k < init.len() && rest[n].path@ == (#[trigger] init[k])@.path && opt_view(
                    rest[n].value,
                ) == control_value(init[k]@.kind) && rest[n].value is Some && rest[n].op@
                    == "replace"@;
            assert(init[j] == controls[j]);
        } else if 0 <= n < ops.len() {
            assert(ops[n] == ops.last());
            assert(controls[controls.len() - 1]@.path == ops[n].path@);
        }
    }
}

/// Closing asks first exactly where a control differs from what it started
/// with, unless closing was allowed.
pub proof fn law_when_closing_asks(
    allowed: bool,
    controls: Vec<FieldControl>,
    r: CloseRequest,
    k: int,
)
    requires
        call_ensures(request_close, (allowed, &controls), r),
    ensures
        allowed ==> r == CloseRequest::Proceed,
        !allowed && 0 <= k < controls@.len() && control_value(controls@[k]@.kind)
            != controls@[k]@.baseline ==> r == CloseRequest::ConfirmDiscard,
        (forall|j: int|
            0 <= j < controls@.len() ==> control_value((#[trigger] controls@[j])@.kind)
                == controls@[j]@.baseline) ==> r == CloseRequest::Proceed,
{
}

/// How a stored value is read: the two words of a switch, a text, a list of
/// texts, or something else; what is not stored is missing.
pub proof fn law_how_a_value_is_read(
    text: &str,
    string: String,
    list: Vec<String>,
    missing: SettingValue,
    as_text: SettingValue,
    as_list: SettingValue,
    other: SettingValue,
)
    requires
        call_ensures(classify, (None, None, None), missing),
        call_ensures(classify, (Some(text), Some(string), None), as_text),
        call_ensures(classify, (Some(text), None, Some(list)), as_list),
        call_ensures(classify, (Some(text), None, None), other),
    ensures
        missing is Missing,
        text@ == "true"@ ==> other == SettingValue::Switch(true),
        text@ == "false"@ ==> other == SettingValue::Switch(false),
        text@ != "true"@ && text@ != "false"@ ==> other is Other && (
        as_text matches SettingValue::Text(t) && t@ == string@) && (
        as_list matches SettingValue::Texts(l) && views(l@) == views(list@)),
{
    reveal_strlit("true");
    reveal_strlit("false");
    assert("true"@.len() != "false"@.len());
}

/// Each control starts with what is stored, in its own form.
pub proof fn law_how_a_control_starts(
    kind: ControlKind,
    field: FieldSpec,
    value: SettingValue,
    number: ControlKind,
)
    requires
        starts_as(kind, field, value, number),
    ensures
        field.control@ == "switch"@ ==> (kind matches ControlKind::Switch(on) && (on <==> value
            == SettingValue::Switch(true))),
        field.control@ == "number"@ ==> kind == number,
        field.control@ == "text"@ ==> (value matches SettingValue::Text(t) ==> (
        kind matches ControlKind::Text(s) && s@ == t@)),
        field.control@ == "multiline"@ ==> (value matches SettingValue::Texts(l) ==> (
        kind matches ControlKind::MultiLine(s) && s@ == join(views(l@), "\n"@))),
        field.control@ == "font_fallback"@ ==> (value matches SettingValue::Texts(l) ==> (
        kind matches ControlKind::StringList(s) && s@ == join(views(l@), ", "@))),
        field.control@ == "select"@ || field.control@ == "theme_picker"@ ==> (
        value matches SettingValue::Text(t) ==> (kind matches ControlKind::Select(Some(s)) && s@
            == t@)),
        field.control@ == "font_picker"@ ==> (value matches SettingValue::Text(t) ==> (t@.len() > 0
            ==> (kind matches ControlKind::FontPicker(Some(s)) && s@ == t@)) && (t@.len() == 0
            ==> kind == ControlKind::FontPicker(None))),
        field.control@ == "project_editor"@ || field.control@ == "shortcut_editor"@ ==> kind
            is Summary,
{
    reveal_strlit("switch");
    reveal_strlit("number");
    reveal_strlit("text");
    reveal_strlit("multiline");
    reveal_strlit("font_fallback");
    reveal_strlit("select");
    reveal_strlit("theme_picker");
    reveal_strlit("font_picker");
    reveal_strlit("project_editor");
    reveal_strlit("shortcut_editor");
    assert("switch"@.len() == 6 && "number"@.len() == 6 && "select"@.len() == 6);
    assert("switch"@[1] == 'w' && "number"@[1] == 'u' && "select"@[1] == 'e');
    assert("text"@.len() == 4 && "multiline"@.len() == 9 && "font_fallback"@.len() == 13);
    assert("theme_picker"@.len() == 12 && "font_picker"@.len() == 11);
    assert("project_editor"@.len() == 14 && "shortcut_editor"@.len() == 15);
}

/// A list of choices offers what its field offers, in that order, and the
/// active value at the end where it is none of these.
pub proof fn law_which_choices_are_offered(field: FieldSpec, active: Seq<char>, i: int)
    ensures
        views(field.options@).contains(active) ==> option_entries(field, active).len()
            == field.options@.len(),
        !views(field.options@).contains(active) ==> option_entries(field, active).len()
            == field.options@.len() + 1 && option_entries(field, active).last().0 == active,
        0 <= i < field.options@.len() ==> option_entries(field, active)[i].0
            == field.options@[i]@ && option_entries(field, active)[i].1 == option_text(
            field.path@,
            field.options@[i]@,
        ),
{
}

/// The texts among the elements of a list, in their order.
pub proof fn law_texts_of_a_list(elements: Seq<Seq<char>>, next: Seq<char>, text: Seq<char>)
    ensures
        crate::json::read::string_in(next) == Some(text) ==> texts_among(elements.push(next))
            == texts_among(elements).push(text),
        crate::json::read::string_in(next) is None ==> texts_among(elements.push(next))
            == texts_among(elements),
        elements.len() == 0 ==> texts_among(elements).len() == 0,
{
    assert(elements.push(next).drop_last() =~= elements);
}

/// A widget is named after its path: without the slashes before it, and with a
/// hyphen for each slash and tilde in it.
pub proof fn law_names_of_widgets(path: &str, r: String, rest: Seq<char>, n: nat, i: int)
    requires
        call_ensures(widget_name_for, (path,), r),
        path@ == Seq::new(n, |k: int| '/') + rest,
        rest.len() > 0,
        rest[0] != '/',
        0 <= i < rest.len(),
    ensures
        r@.len() == 14 + rest.len(),
        r@.take(14) == "muxterm-prefs-"@,
        rest[i] == '/' || rest[i] == '~' ==> r@[14 + i] == '-',
        rest[i] != '/' && rest[i] != '~' ==> r@[14 + i] == rest[i],
{
    reveal_strlit("muxterm-prefs-");
    lemma_bare(path@, rest, n);
    assert(r@.take(14) =~= "muxterm-prefs-"@);
}

proof fn lemma_bare(path: Seq<char>, rest: Seq<char>, n: nat)
    requires
        path == Seq::new(n, |k: int| '/') + rest,
        rest.len() > 0,
        rest[0] != '/',
    ensures
        bare_path(path) == rest,
    decreases n,
{
    if n > 0 {
        assert(path[0] == '/');
        assert(path.drop_first() =~= Seq::new((n - 1) as nat, |k: int| '/') + rest);
        lemma_bare(path.drop_first(), rest, (n - 1) as nat);
    } else {
        assert(path =~= rest);
    }
}

// ---------------------------------------------------------------------------
// Words.
// ---------------------------------------------------------------------------

/// Underscores and hyphens part words, and in a path full stops and slashes
/// too.
pub proof fn law_what_parts_words(s: Seq<char>, i: int)
    requires
        0 <= i < s.len(),
    ensures
        unified(s, true).len() == s.len() && unified(s, false).len() == s.len(),
        s[i] == '_' || s[i] == '-' ==> unified(s, true)[i] == '_' && unified(s, false)[i] == '_',
        s[i] == '.' || s[i] == '/' ==> unified(s, true)[i] == '_' && unified(s, false)[i] == s[i],
        s[i] != '_' && s[i] != '-' && s[i] != '.' && s[i] != '/' ==> unified(s, true)[i] == s[i]
            && unified(s, false)[i] == s[i],
{
}

/// A word starts with a capital, the words of a title have spaces between
/// them, and what is empty is no word.
pub proof fn law_how_titles_are_written(
    words: Seq<Seq<char>>,
    next: Seq<char>,
    word: Seq<char>,
    wide: bool,
)
    ensures
        next.len() == 0 ==> capital_words(words.push(next)) == capital_words(words),
        next.len() > 0 ==> capital_words(words.push(next)) == capital_words(words).push(
            uppercase_of_char(next[0]) + next.skip(1),
        ),
        word.len() > 0 && !word.contains('_') && !word.contains('-') && !word.contains('.')
            && !word.contains('/') ==> titled(word, wide) == uppercase_of_char(word[0]) + word.skip(
            1,
        ),
        titled(word, wide) == join(capital_words(split_on(unified(word, wide), '_')), " "@),
{
    assert(words.push(next).drop_last() =~= words);
    if word.len() > 0 && !word.contains('_') && !word.contains('-') && !word.contains('.')
        && !word.contains('/') {
        assert forall|i: int| 0 <= i < word.len() implies #[trigger] unified(word, wide)[i]
            == word[i] by {
            assert(word.contains(word[i]));
        }
        assert(unified(word, wide) =~= word);
        crate::text::split::lemma_split_whole(word, '_');
        let one = seq![word];
        assert(one.drop_last() =~= Seq::<Seq<char>>::empty());
        assert(capital_words(one.drop_last()) =~= Seq::<Seq<char>>::empty());
        assert(capital_words(one) =~= seq![uppercase_of_char(word[0]) + word.skip(1)]);
    }
}

/// A setting without words of its own is titled by the end of its key, else by
/// the last part of its path.
pub proof fn law_titles_of_other_settings(path: Seq<char>, tail: Seq<char>, a: Seq<char>,
    b: Seq<char>)
    requires
        title_key_of(path) is None,
        !b.contains('/'),
        path == a + seq!['/'] + b,
    ensures
        tail.len() > 0 ==> title_of_field(path, "settings."@ + tail) == SettingTextView::Plain(
            titled(tail, true),
        ),
        title_of_field(path, ""@) == SettingTextView::Plain(titled(b, true)),
{
    reveal_strlit("settings.");
    reveal_strlit("");
    let s = "settings."@ + tail;
    assert(s.take(9) =~= "settings."@);
    assert(s.skip(9) =~= tail);
    crate::text::split::lemma_split_push(a, '/', b);
}

/// A page is named by the end of its key where it has one, else by its name.
pub proof fn law_names_of_pages(id: Seq<char>, tail: Seq<char>, key: Seq<char>)
    ensures
        tail.len() > 0 ==> category_name(id, "settings."@ + tail) == titled(tail, false),
        key.len() <= 9 ==> category_name(id, key) == titled(id, false),
        key.len() >= 9 && key.take(9) != "settings."@ ==> category_name(id, key) == titled(
            id,
            false,
        ),
        named_group(None) == "settings"@,
        all_white(id) ==> named_group(Some(id)) == "settings"@,
        !all_white(id) ==> named_group(Some(id)) == id,
{
    reveal_strlit("settings.");
    let s = "settings."@ + tail;
    assert(s.take(9) =~= "settings."@);
    assert(s.skip(9) =~= tail);
}

/// A field of the manifest has its own values, and a text that is committed
/// where it says nothing else.
pub proof fn law_fields_of_the_manifest(
    path: Seq<char>,
    control: Seq<char>,
    options: Seq<Seq<char>>,
    key: Seq<char>,
    apply: Seq<char>,
)
    ensures
        ({
            let f = field_from(Some(path), Some(control), options, Some(key), Some(apply));
            f.path == path && f.control == control && f.options == options && f.title_key == key
                && f.apply == apply
        }),
        ({
            let f = field_from(None, None, options, None, None);
            f.path == ""@ && f.control == "text"@ && f.options == options && f.title_key == ""@
                && f.apply == "commit"@
        }),
{
}

// ---------------------------------------------------------------------------
// The search.
// ---------------------------------------------------------------------------

/// A setting is found where its text holds the query, in whatever case; a page
/// is found where one of its settings is, and the search goes to the first
/// such page.
pub proof fn law_what_a_search_of_settings_finds(
    pages: Vec<CategoryPage>,
    entered: &str,
    r: SearchOutcome,
    i: int,
    k: int,
)
    requires
        call_ensures(search_settings, (&pages, entered), r),
        0 <= i < pages@.len(),
        0 <= k < pages@[i].fields@.len(),
    ensures
        ({
            let query = ascii_lower(trimmed(entered@));
            &&& r.fields@[i]@[k] <==> query.len() == 0 || contains(
                ascii_lower(pages@[i].fields@[k]@),
                query,
            )
            &&& r.fields@[i]@[k] ==> r.pages@[i]
            &&& r.pages@[i] ==> query.len() == 0 || exists|m: int|
                0 <= m < pages@[i].fields@.len() && #[trigger] r.fields@[i]@[m]
            &&& r.goto matches Some(g) ==> g < pages@.len() && r.pages@[g as int]
            &&& r.fields@[i]@[k] ==> (r.goto matches Some(g) && g <= i)
        }),
{
    let query = ascii_lower(trimmed(entered@));
    let q = crate::linux::preferences_window::search_query(entered@);
    assert(q == query);
    assert(r.fields@[i]@.len() == pages@[i].fields@.len());
    if r.fields@[i]@[k] {
        assert(crate::linux::preferences_window::field_shown(q, pages@[i].fields@[k]@));
        assert(page_matches(q, pages@[i]));
        lemma_first_match(q, pages@, i);
    }
    if r.pages@[i] && query.len() > 0 {
        assert(page_matches(q, pages@[i]));
        let m = choose|m: int|
            0 <= m < pages@[i].fields@.len() && crate::linux::preferences_window::field_shown(
                q,
                (#[trigger] pages@[i].fields@[m])@,
            );
        assert(r.fields@[i]@[m]);
    }
    crate::linux::preferences_window::law_search_goes_to_a_match(r, q, pages@);
}

proof fn lemma_first_match(query: Seq<char>, pages: Seq<CategoryPage>, i: int)
    requires
        0 <= i < pages.len(),
        page_matches(query, pages[i]),
    ensures
        first_match(query, pages) matches Some(g) && 0 <= g <= i,
    decreases pages.len(),
{
    let init = pages.drop_last();
    if i < init.len() {
        assert(init[i] == pages[i]);
        lemma_first_match(query, init, i);
    } else {
        lemma_match_bound(query, init);
    }
}

proof fn lemma_match_bound(query: Seq<char>, pages: Seq<CategoryPage>)
    ensures
        first_match(query, pages) matches Some(g) ==> 0 <= g < pages.len(),
    decreases pages.len(),
{
    if pages.len() > 0 {
        lemma_match_bound(query, pages.drop_last());
    }
}

/// A setting is searched by its page, its path, its title and its description.
pub proof fn law_what_a_setting_is_searched_by(
    id: &str,
    fields: Vec<FieldTexts>,
    r: CategoryPage,
    i: int,
)
    requires
        call_ensures(category_page, (Some(id), &fields), r),
        !all_white(id@),
        0 <= i < fields@.len(),
    ensures
        r.id@ == id@,
        r.fields@.len() == fields@.len(),
        r.fields@[i]@ == id@ + " "@ + fields@[i].path@ + " "@ + fields@[i].title@ + " "@
            + fields@[i].description@,
{
}

// ---------------------------------------------------------------------------
// The window and the projects.
// ---------------------------------------------------------------------------

/// Projects and shortcuts have editors of their own; what cannot be saved is
/// said; and the preview names the font, its size and the theme.
pub proof fn law_texts_of_the_settings_window(
    path: &str,
    editor: Option<Editor>,
    error: String,
    saved: Option<String>,
    failed: Option<String>,
    family: &str,
    size: &str,
    theme: &str,
    named: String,
    unnamed: String,
)
    requires
        call_ensures(editor_for, (path,), editor),
        call_ensures(save_status, (Ok(()),), saved),
        call_ensures(save_status, (Err(error),), failed),
        call_ensures(preview_summary, (Some(family), size, theme), named),
        call_ensures(preview_summary, (None, size, theme), unnamed),
    ensures
        path@ == "/projects"@ ==> editor == Some(Editor::Projects),
        path@ == "/shortcuts/overrides"@ ==> editor == Some(Editor::Shortcuts),
        path@ != "/projects"@ && path@ != "/shortcuts/overrides"@ ==> editor is None,
        saved is None,
        opt_view(failed) == Some("Could not save settings: "@ + error@),
        family@.len() > 0 ==> named@ == family@ + "  ·  "@ + size@ + " pt  ·  "@ + theme@,
        unnamed@ == "JetBrains Mono"@ + "  ·  "@ + size@ + " pt  ·  "@ + theme@,
{
    reveal_strlit("/projects");
    reveal_strlit("/shortcuts/overrides");
    assert("/projects"@.len() != "/shortcuts/overrides"@.len());
}

/// A project is listed by its name, with its path, transport and runtime, and
/// the list is saved as the documents of its projects, in their order.
pub proof fn law_rows_of_projects(
    projects: Vec<ProjectRow>,
    r: Vec<(String, String)>,
    op: ClientJsonPatchOperation,
    documents: Seq<Seq<char>>,
    i: int,
)
    requires
        call_ensures(project_rows, (&projects,), r),
        call_ensures(persist_projects, (&projects,), op),
        documents.len() == projects@.len(),
        forall|k: int|
            0 <= k < projects@.len() ==> #[trigger] documents[k] == projects@[k].document@,
    ensures
        r@.len() == projects@.len(),
        0 <= i < projects@.len() ==> r@[i].0@ == projects@[i].name@ && r@[i].1@
            == projects@[i].path@ + "  ·  "@ + projects@[i].transport@ + " / "@
            + projects@[i].runtime@,
        op.op@ == "replace"@ && op.path@ == "/projects"@ && opt_view(op.value) == Some(
            json_list(documents),
        ),
{
    assert(crate::linux::preferences_window::documents_of(projects@) =~= documents);
}

/// After a change that worked the rest of the program is told, unless the file
/// changed by itself; the list is read again after what it does not show yet.
pub proof fn law_what_follows_a_change_of_projects(
    change: ProjectChange,
    worked: ProjectFollowUp,
    failed: ProjectFollowUp,
)
    requires
        call_ensures(show_project_manager, (change, true), worked),
        call_ensures(show_project_manager, (change, false), failed),
    ensures
        !failed.notify && !failed.refresh,
        change == ProjectChange::Added ==> worked.notify && worked.refresh,
        change == ProjectChange::Edited ==> worked.notify && !worked.refresh,
        change == ProjectChange::Removed ==> worked.notify && !worked.refresh,
        change == ProjectChange::FileChanged ==> !worked.notify && worked.refresh,
{
}

} // verus!
