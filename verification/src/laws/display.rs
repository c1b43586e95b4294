//! What is displayed: styled text, the banner of updates, the stack of scenes,
//! lists to pick from, pasted images and small labels.
use vstd::prelude::*;

use crate::linux::image_paste::{is_too_large, pasted_log, PasteError};
use crate::linux::input_bar::target_label;
use crate::linux::overlay::empty_overlay;
use crate::linux::quick_pick_model::{
    filter_items, freeform_filter, fuzzy, panel_list_heights, QuickPickItem,
};
use crate::linux::scene_stack::{ensured, removed, SceneStackView};
use crate::linux::terminal::font_registry::{
    bundled_font_path, register_bundled_fonts, FontError, FontStep,
};
use crate::linux::terminal::styled_text::{
    attribute_colour, colour_style, entity_char, first_word, last_open, name_style, numeric_entity,
    open_style, rendered, tag_step, tag_style,
};
use crate::linux::update_banner::{
    applied, content_of, handle_update_action, BannerLabel, BannerTextView, ClientUpdatePhase,
    UpdateAction, UpdateBannerView, UpdateStatusView,
};
use crate::linux::window::{close_intent, should_poll_status, CloseIntent};
use crate::text::find::{after_first, contains, places, starts_with};
use crate::text::number::{decimal, u32_of};
use crate::text::split::first_index;
use crate::text::{is_white, lowercase_of, trimmed};

verus! {

// ---------------------------------------------------------------------------
// Styled text.
// ---------------------------------------------------------------------------

/// Each named style has its code: bold 1, italic 3, underlined 4, blinking 5
/// and struck out 9. Any other name has none.
pub proof fn law_codes_of_names(name: Seq<char>)
    ensures
        name_style("b"@) == "\x1b[1m"@,
        name_style("i"@) == "\x1b[3m"@,
        name_style("u"@) == "\x1b[4m"@,
        name_style("blink"@) == "\x1b[5m"@,
        name_style("strike"@) == "\x1b[9m"@,
        name != "b"@ && name != "i"@ && name != "u"@ && name != "blink"@ && name != "strike"@
            ==> name_style(name).len() == 0,
{
    reveal_strlit("b");
    reveal_strlit("i");
    reveal_strlit("u");
    reveal_strlit("blink");
    reveal_strlit("strike");
    assert("b"@[0] == 'b' && "i"@[0] == 'i' && "u"@[0] == 'u');
    assert("b"@.len() == 1 && "i"@.len() == 1 && "u"@.len() == 1);
    assert("blink"@.len() == 5 && "strike"@.len() == 6);
}

/// A colour is set by its red, green and blue part, in this order.
pub proof fn law_codes_of_colours(code: nat, r: u8, g: u8, b: u8)
    ensures
        colour_style(code, (r as u32 * 65536 + g as u32 * 256 + b as u32) as u32) == "\x1b["@
            + decimal(code) + ";2;"@ + decimal(r as nat) + ";"@ + decimal(g as nat) + ";"@
            + decimal(b as nat) + "m"@,
{
    let rgb: u32 = (r as u32 * 65536 + g as u32 * 256 + b as u32) as u32;
    assert(rgb == r * 65536 + g * 256 + b);
    assert(rgb / 65536 == r);
    assert(rgb / 256 % 256 == g);
    assert(rgb % 256 == b);
}

/// The colour of an attribute is written in the six digits after its name.
pub proof fn law_the_colour_of_an_attribute(tag: Seq<char>, name: Seq<char>, value: Seq<char>)
    requires
        after_first(tag, name) == Some(value),
    ensures
        value.len() < 6 ==> attribute_colour(tag, name) is None,
        value.len() >= 6 ==> attribute_colour(tag, name) == u32_of(value.take(6), 16),
{
}

/// What follows a text where it first occurs.
pub proof fn law_what_follows_the_first(h: Seq<char>, n: Seq<char>, i: int)
    requires
        0 <= i <= h.len(),
    ensures
        starts_with(h.skip(i), n) && (forall|j: int|
            0 <= j < i ==> !starts_with(#[trigger] h.skip(j), n)) ==> after_first(h, n) == Some(
            h.skip(i + n.len()),
        ),
    decreases i,
{
    if starts_with(h.skip(i), n) && (forall|j: int|
        0 <= j < i ==> !starts_with(#[trigger] h.skip(j), n)) {
        assert(h.skip(0) =~= h);
        if i > 0 {
            assert(!starts_with(h.skip(0), n));
            let rest = h.drop_first();
            assert(rest.skip(i - 1) =~= h.skip(i));
            assert forall|j: int| 0 <= j < i - 1 implies !starts_with(
                #[trigger] rest.skip(j),
                n,
            ) by {
                assert(rest.skip(j) =~= h.skip(j + 1));
            }
            law_what_follows_the_first(rest, n, i - 1);
            assert(rest.skip(i - 1 + n.len()) =~= h.skip(i + n.len()));
        }
    }
}

/// The style of a tag is that of its name, of its colour with code 38, of its
/// background with code 48, and the line above with code 53, in this order.
pub proof fn law_the_style_of_a_tag(tag: Seq<char>, fg: u32, bg: u32)
    ensures
        attribute_colour(tag, "color=\"#"@) is None && attribute_colour(
            tag,
            "background-color:#"@,
        ) is None && !contains(tag, "text-decoration-line:overline"@) ==> tag_style(tag)
            == name_style(first_word(tag)),
        attribute_colour(tag, "color=\"#"@) == Some(fg) && attribute_colour(
            tag,
            "background-color:#"@,
        ) is None && !contains(tag, "text-decoration-line:overline"@) ==> tag_style(tag)
            == name_style(first_word(tag)) + colour_style(38, fg),
        attribute_colour(tag, "color=\"#"@) is None && attribute_colour(
            tag,
            "background-color:#"@,
        ) == Some(bg) && !contains(tag, "text-decoration-line:overline"@) ==> tag_style(tag)
            == name_style(first_word(tag)) + colour_style(48, bg),
        attribute_colour(tag, "color=\"#"@) == Some(fg) && attribute_colour(
            tag,
            "background-color:#"@,
        ) == Some(bg) && contains(tag, "text-decoration-line:overline"@) ==> tag_style(tag)
            == name_style(first_word(tag)) + colour_style(38, fg) + colour_style(48, bg)
            + "\x1b[53m"@,
        attribute_colour(tag, "color=\"#"@) is None && attribute_colour(
            tag,
            "background-color:#"@,
        ) is None && contains(tag, "text-decoration-line:overline"@) ==> tag_style(tag)
            == name_style(first_word(tag)) + "\x1b[53m"@,
{
    let none = Seq::<char>::empty();
    let name = name_style(first_word(tag));
    assert(name + none =~= name);
    assert(name + none + none =~= name);
    assert(name + none + none + none =~= name);
    assert(name + colour_style(38, fg) + none =~= name + colour_style(38, fg));
    assert(name + none + colour_style(48, bg) + none =~= name + colour_style(48, bg));
    assert(tag_style(tag).len() >= 0);
    if attribute_colour(tag, "color=\"#"@) == Some(fg) {
        assert(name + colour_style(38, fg) + none + none =~= name + colour_style(38, fg));
    }
}

/// The word of a tag is what stands before its first blank, after those that
/// it starts with.
pub proof fn law_the_word_of_a_tag(blank: Seq<char>, word: Seq<char>, rest: Seq<char>)
    requires
        forall|i: int| 0 <= i < blank.len() ==> is_white(#[trigger] blank[i]),
        forall|i: int| 0 <= i < word.len() ==> !is_white(#[trigger] word[i]),
        word.len() > 0,
        rest.len() == 0 || is_white(rest[0]),
    ensures
        first_word(blank + word + rest) == word,
    decreases blank.len(),
{
    let s = blank + word + rest;
    if blank.len() > 0 {
        let tail = blank.drop_first();
        assert(s[0] == blank[0]);
        assert(s.drop_first() =~= tail + word + rest);
        assert forall|i: int| 0 <= i < tail.len() implies is_white(#[trigger] tail[i]) by {
            assert(tail[i] == blank[i + 1]);
        }
        law_the_word_of_a_tag(tail, word, rest);
    } else {
        assert(s =~= word + rest);
        assert(s[0] == word[0]);
        lemma_word(word, rest);
    }
}

proof fn lemma_word(word: Seq<char>, rest: Seq<char>)
    requires
        forall|i: int| 0 <= i < word.len() ==> !is_white(#[trigger] word[i]),
        rest.len() == 0 || is_white(rest[0]),
    ensures
        crate::linux::terminal::styled_text::word_prefix(word + rest) == word,
    decreases word.len(),
{
    let s = word + rest;
    if word.len() > 0 {
        let tail = word.drop_first();
        assert(s[0] == word[0]);
        assert(s.drop_first() =~= tail + rest);
        assert forall|i: int| 0 <= i < tail.len() implies !is_white(#[trigger] tail[i]) by {
            assert(tail[i] == word[i + 1]);
        }
        lemma_word(tail, rest);
        assert(seq![word[0]] + tail =~= word);
    } else {
        assert(s =~= rest);
        assert(word =~= Seq::<char>::empty());
    }
}

/// Each named entity stands for its character; a number stands for the
/// character of that code, in base 16 after an `x` and in base 10 else.
pub proof fn law_what_entities_stand_for(digits: Seq<char>, n: u32)
    ensures
        entity_char("lt"@) == Some('<'),
        entity_char("gt"@) == Some('>'),
        entity_char("amp"@) == Some('&'),
        entity_char("quot"@) == Some('"'),
        entity_char("apos"@) == Some('\''),
        u32_of(digits, 16) == Some(n) && n <= 0xd7ff ==> numeric_entity("#x"@ + digits) == Some(
            n as char,
        ),
        u32_of(digits, 10) == Some(n) && n <= 0xd7ff && (digits.len() == 0 || digits[0] != 'x')
            ==> numeric_entity("#"@ + digits) == Some(n as char),
        u32_of(digits, 16) == Some(n) && 0xe000 <= n <= 0x10ffff ==> numeric_entity("#x"@ + digits)
            == Some(n as char),
        u32_of(digits, 16) == Some(n) && 0xd800 <= n <= 0xdfff ==> numeric_entity("#x"@ + digits)
            is None,
        u32_of(digits, 16) == Some(n) && n > 0x10ffff ==> numeric_entity("#x"@ + digits) is None,
{
    reveal(entity_char);
    reveal_strlit("lt");
    reveal_strlit("gt");
    reveal_strlit("amp");
    reveal_strlit("quot");
    reveal_strlit("apos");
    reveal_strlit("#x");
    reveal_strlit("#");
    assert("lt"@[0] != "gt"@[0]);
    assert("lt"@.len() == 2 && "gt"@.len() == 2 && "amp"@.len() == 3);
    assert("quot"@[0] != "apos"@[0] && "quot"@.len() == 4 && "apos"@.len() == 4);
    let hex = "#x"@ + digits;
    assert(hex.take(2) =~= "#x"@);
    assert(hex.skip(2) =~= digits);
    let dec = "#"@ + digits;
    assert(dec.take(1) =~= "#"@);
    assert(dec.skip(1) =~= digits);
    if digits.len() == 0 || digits[0] != 'x' {
        if starts_with(dec, "#x"@) {
            assert(dec.take(2)[1] == 'x');
            assert(dec[1] == digits[0]);
        }
    }
}

/// An opening tag with a style is remembered under its name; one without is
/// not. A closing tag resets and restores what was open before the last tag of
/// its name; one that was never opened does nothing.
pub proof fn law_what_tags_do(tag: Seq<char>, open: Seq<(Seq<char>, Seq<char>)>, i: int)
    ensures
        first_word(tag).len() > 0 && first_word(tag)[0] != '/' && tag_style(tag).len() > 0
            ==> tag_step(tag, open).0 == tag_style(tag) && tag_step(tag, open).1 == open.push(
            (first_word(tag), tag_style(tag)),
        ),
        first_word(tag).len() > 0 && first_word(tag)[0] != '/' && tag_style(tag).len() == 0
            ==> tag_step(tag, open).0.len() == 0 && tag_step(tag, open).1 == open,
        first_word(tag).len() > 0 && first_word(tag)[0] == '/' && 0 <= i < open.len() && open[i].0
            == first_word(tag).skip(1) && (forall|j: int|
            i < j < open.len() ==> (#[trigger] open[j]).0 != first_word(tag).skip(1)) ==> tag_step(
            tag,
            open,
        ).0 == "\x1b[0m"@ + open_style(open.take(i)) && tag_step(tag, open).1 == open.take(i),
        first_word(tag).len() > 0 && first_word(tag)[0] == '/' && (forall|j: int|
            0 <= j < open.len() ==> (#[trigger] open[j]).0 != first_word(tag).skip(1)) ==> tag_step(
            tag,
            open,
        ).0.len() == 0 && tag_step(tag, open).1 == open,
{
    reveal(tag_step);
    lemma_last_open(open, first_word(tag).skip(1), i);
}

proof fn lemma_last_open(open: Seq<(Seq<char>, Seq<char>)>, name: Seq<char>, i: int)
    ensures
        0 <= i < open.len() && open[i].0 == name && (forall|j: int|
            i < j < open.len() ==> (#[trigger] open[j]).0 != name) ==> last_open(open, name)
            == Some(i),
        (forall|j: int| 0 <= j < open.len() ==> (#[trigger] open[j]).0 != name) ==> last_open(
            open,
            name,
        ) is None,
    decreases open.len(),
{
    if open.len() > 0 {
        let init = open.drop_last();
        lemma_last_open(init, name, i);
        assert(open.last() == open[open.len() - 1]);
        assert forall|j: int| 0 <= j < init.len() implies #[trigger] init[j] == open[j] by {}
    }
}

/// A tag ends at its first bracket; one that does not end takes the rest of
/// the text with it. What follows it is rendered with what is open after it.
pub proof fn law_how_a_tag_is_rendered(
    tag: Seq<char>,
    rest: Seq<char>,
    open: Seq<(Seq<char>, Seq<char>)>,
)
    requires
        !tag.contains('>'),
    ensures
        rendered(seq!['<'] + tag + seq!['>'] + rest, open) == tag_step(tag, open).0 + rendered(
            rest,
            tag_step(tag, open).1,
        ),
        rendered(seq!['<'] + tag, open).len() == 0,
{
    let s = seq!['<'] + tag + seq!['>'] + rest;
    assert(s.skip(1) =~= tag + seq!['>'] + rest);
    lemma_first(tag, '>', rest);
    assert(s.subrange(1, 1 + tag.len() as int) =~= tag);
    assert(s.skip(2 + tag.len() as int) =~= rest);
    let t = seq!['<'] + tag;
    assert(t.skip(1) =~= tag);
    lemma_never(tag, '>');
}

/// An ampersand that starts no entity is a character like any other.
pub proof fn law_a_lone_ampersand_stays(
    name: Seq<char>,
    rest: Seq<char>,
    open: Seq<(Seq<char>, Seq<char>)>,
)
    requires
        !name.contains(';'),
    ensures
        rendered(seq!['&'] + name, open) == seq!['&'] + rendered(name, open),
        entity_char(name) is None ==> rendered(seq!['&'] + name + seq![';'] + rest, open) == seq![
            '&',
        ] + rendered(name + seq![';'] + rest, open),
{
    let t = seq!['&'] + name;
    assert forall|i: int| 0 <= i < t.len() implies t[i] != ';' by {
        if i > 0 {
            assert(name.contains(name[i - 1]));
        }
    }
    lemma_never(t, ';');
    assert(t.drop_first() =~= name);
    let s = t + seq![';'] + rest;
    lemma_first(t, ';', rest);
    assert(s =~= seq!['&'] + name + seq![';'] + rest);
    assert(s.subrange(1, t.len() as int) =~= name);
    assert(s.drop_first() =~= name + seq![';'] + rest);
}

proof fn lemma_first(a: Seq<char>, c: char, rest: Seq<char>)
    requires
        !a.contains(c),
    ensures
        first_index(a + seq![c] + rest, c) == a.len(),
    decreases a.len(),
{
    let s = a + seq![c] + rest;
    if a.len() > 0 {
        assert(a.contains(a[0]));
        let tail = a.drop_first();
        assert forall|i: int| 0 <= i < tail.len() implies tail[i] != c by {
            assert(a.contains(a[i + 1]));
        }
        lemma_first(tail, c, rest);
        assert(s.drop_first() =~= tail + seq![c] + rest);
    } else {
        assert(s[0] == c);
    }
}

proof fn lemma_never(a: Seq<char>, c: char)
    requires
        !a.contains(c),
    ensures
        first_index(a, c) == a.len(),
    decreases a.len(),
{
    if a.len() > 0 {
        assert(a.contains(a[0]));
        let tail = a.drop_first();
        assert forall|i: int| 0 <= i < tail.len() implies tail[i] != c by {
            assert(a.contains(a[i + 1]));
        }
        lemma_never(tail, c);
    }
}

/// Open styles are written from the outermost to the innermost.
pub proof fn law_open_styles_in_order(open: Seq<(Seq<char>, Seq<char>)>, next: (Seq<char>,
    Seq<char>))
    ensures
        open_style(open.push(next)) == open_style(open) + next.1,
        open.len() == 0 ==> open_style(open).len() == 0,
{
    assert(open.push(next).drop_last() =~= open);
}

// ---------------------------------------------------------------------------
// The banner.
// ---------------------------------------------------------------------------

/// What the banner says in each phase, and whether its button works.
pub proof fn law_what_the_banner_says(s: UpdateStatusView)
    ensures
        s.phase == ClientUpdatePhase::Available ==> (content_of(s) matches Some(c) && (
        c.text matches BannerTextView::Available { version } && (s.version is Some ==> version
            == s.version->0)) && c.action == BannerLabel::InstallNow && c.actionable),
        s.phase == ClientUpdatePhase::Installing ==> (content_of(s) matches Some(c) && c.text
            is Installing && c.action == BannerLabel::Installing && !c.actionable),
        s.phase == ClientUpdatePhase::Installed ==> (content_of(s) matches Some(c) && c.text
            is InstalledRestart && c.action == BannerLabel::InstalledRestart && !c.actionable),
        s.phase == ClientUpdatePhase::Failed ==> (content_of(s) matches Some(c) && (
        c.text matches BannerTextView::Failed { message } && (s.message is Some ==> message
            == s.message->0)) && c.action == BannerLabel::Retry && c.actionable),
        s.phase == ClientUpdatePhase::Checking ==> (content_of(s) matches Some(c) && c.text
            is Checking && c.action == BannerLabel::Checking && !c.actionable),
        s.phase == ClientUpdatePhase::UpToDate || s.phase == ClientUpdatePhase::Idle
            ==> content_of(s) is None,
{
}

/// A new state shows the banner where it has something to say, unless its
/// version was dismissed; a state that is shown already changes nothing.
pub proof fn law_when_the_banner_shows(b: UpdateBannerView, s: UpdateStatusView, version: Seq<char>)
    ensures
        b.last_rendered == Some(s) ==> applied(b, s) == b,
        b.last_rendered != Some(s) ==> applied(b, s).last_rendered == Some(s),
        applied(b, s).dismissed_version == b.dismissed_version,
        b.last_rendered != Some(s) && s.version == Some(version) && version.len() > 0
            && b.dismissed_version == Some(version) ==> !applied(b, s).visible,
        b.last_rendered != Some(s) && b.dismissed_version is None ==> (applied(b, s).visible
            <==> s.phase != ClientUpdatePhase::UpToDate && s.phase != ClientUpdatePhase::Idle),
        b.last_rendered != Some(s) && s.version == Some(version) && b.dismissed_version != Some(
            version,
        ) ==> (applied(b, s).visible <==> s.phase != ClientUpdatePhase::UpToDate && s.phase
            != ClientUpdatePhase::Idle),
        b.last_rendered != Some(s) && b.dismissed_version is None && content_of(s) is Some
            ==> applied(b, s).content == content_of(s),
{
}

/// The button installs what is available and checks again after a failure; in
/// any other phase it does nothing.
pub proof fn law_what_the_button_does(phase: ClientUpdatePhase, r: UpdateAction)
    requires
        call_ensures(handle_update_action, (phase,), r),
    ensures
        r == UpdateAction::Install <==> phase == ClientUpdatePhase::Available,
        r == UpdateAction::Check <==> phase == ClientUpdatePhase::Failed,
{
}

// ---------------------------------------------------------------------------
// Scenes.
// ---------------------------------------------------------------------------

/// A scene that is new goes on top and the visible one stays; removing the
/// visible one shows the top of what is left.
pub proof fn law_scenes_come_and_go(s: SceneStackView, id: Seq<char>)
    ensures
        ensured(s, id).order.contains(id),
        ensured(s, id).visible == s.visible,
        !s.order.contains(id) ==> ensured(s, id).order.len() == s.order.len() + 1 && ensured(
            s,
            id,
        ).order.last() == id && ensured(s, id).order.drop_last() == s.order,
        s.order.contains(id) ==> ensured(s, id) == s,
        !removed(s, id).order.contains(id),
        s.visible != Some(id) ==> removed(s, id).visible == s.visible,
        s.visible == Some(id) && removed(s, id).order.len() > 0 ==> removed(s, id).visible == Some(
            removed(s, id).order.last(),
        ),
        s.visible == Some(id) && removed(s, id).order.len() == 0 ==> removed(s, id).visible is None,
{
    if !s.order.contains(id) {
        let order = s.order.push(id);
        assert(order[order.len() - 1] == id);
        assert(order.drop_last() =~= s.order);
    }
    crate::linux::scene_stack::law_only_the_removed_scene_goes(s, id, id);
}

/// A scene that was just put on top is removed again without a trace.
pub proof fn law_removing_undoes_adding(s: SceneStackView, id: Seq<char>)
    requires
        !s.order.contains(id),
        s.visible != Some(id),
    ensures
        removed(ensured(s, id), id) == s,
{
    let f = crate::linux::scene_stack::is_other(id);
    let order = s.order;
    lemma_keep_all(order, id);
    assert(order.push(id).drop_last() =~= order);
    reveal(Seq::filter);
    assert(order.push(id).filter(f) == order.filter(f));
}

proof fn lemma_keep_all(order: Seq<Seq<char>>, id: Seq<char>)
    requires
        !order.contains(id),
    ensures
        order.filter(crate::linux::scene_stack::is_other(id)) == order,
    decreases order.len(),
{
    reveal(Seq::filter);
    if order.len() > 0 {
        let init = order.drop_last();
        assert forall|i: int| 0 <= i < init.len() implies init[i] != id by {
            assert(order.contains(order[i]));
        }
        lemma_keep_all(init, id);
        assert(order.contains(order[order.len() - 1]));
        assert(init.push(order.last()) =~= order);
    } else {
        assert(order.filter(crate::linux::scene_stack::is_other(id)) =~= order);
    }
}

// ---------------------------------------------------------------------------
// Lists to pick from.
// ---------------------------------------------------------------------------

/// A query fits where its letters occur in their order, in whatever case.
pub proof fn law_when_a_query_fits(query: Seq<char>, target: Seq<char>)
    ensures
        query.len() == 0 ==> fuzzy(query, target),
        query.len() > 0 ==> (fuzzy(query, target) <==> exists|at: Seq<int>|
            places(at, lowercase_of(query), lowercase_of(target))),
{
    crate::text::find::law_subsequence_is_placement(lowercase_of(query), lowercase_of(target));
}

/// An item is listed exactly where its label or its detail fits the query.
pub proof fn law_which_items_are_listed(
    items: Vec<QuickPickItem>,
    query: &str,
    r: Vec<QuickPickItem>,
    item: QuickPickItem,
)
    requires
        call_ensures(filter_items, (&items, query), r),
    ensures
        r@.contains(item) <==> items@.contains(item) && (fuzzy(query@, item.label@) || (item.detail
            is Some && fuzzy(query@, item.detail->0@))),
{
    let f = crate::linux::quick_pick_model::item_matches(query@);
    lemma_filtered(items@, f, item);
}

proof fn lemma_filtered(
    items: Seq<QuickPickItem>,
    f: spec_fn(QuickPickItem) -> bool,
    item: QuickPickItem,
)
    ensures
        items.filter(f).contains(item) <==> items.contains(item) && f(item),
    decreases items.len(),
{
    reveal(Seq::filter);
    if items.len() > 0 {
        let init = items.drop_last();
        let rest = init.filter(f);
        let all = items.filter(f);
        lemma_filtered(init, f, item);
        if all.contains(item) {
            let n = choose|n: int| 0 <= n < all.len() && all[n] == item;
            if n < rest.len() {
                assert(rest[n] == item);
                let k = choose|k: int| 0 <= k < init.len() && init[k] == item;
                assert(items[k] == item);
            } else {
                assert(items[items.len() - 1] == item);
            }
        }
        if items.contains(item) && f(item) {
            let k = choose|k: int| 0 <= k < items.len() && items[k] == item;
            if k < init.len() {
                assert(init[k] == item);
                let n = choose|n: int| 0 <= n < rest.len() && rest[n] == item;
                assert(all[n] == item);
            } else {
                assert(all[all.len() - 1] == item);
            }
        }
    }
}

/// What is typed is the first item of a list that takes free text; the items
/// that fit it follow.
pub proof fn law_what_is_typed_comes_first(
    presets: Vec<QuickPickItem>,
    query: &str,
    typed: &str,
    detail: &str,
    r: Vec<QuickPickItem>,
    listed: Vec<QuickPickItem>,
)
    requires
        typed@ == trimmed(query@),
        call_ensures(freeform_filter, (&presets, query, detail), r),
        call_ensures(filter_items, (&presets, typed), listed),
    ensures
        trimmed(query@).len() == 0 ==> r@ == presets@,
        trimmed(query@).len() > 0 ==> r@.len() >= 1 && r@[0].label@ == trimmed(query@)
            && r@[0].detail is Some && r@[0].detail->0@ == detail@ && r@[0].id@ == "__typed__"@
            && r@.skip(1) == listed@,
{
}

/// A list is half as high as its window, at least 200 and at most 420, and its
/// rows leave room for the entry.
pub proof fn law_how_high_a_list_is(h: i32, r: (i32, i32))
    requires
        call_ensures(panel_list_heights, (h,), r),
    ensures
        h <= 400 ==> r.0 == 200,
        h >= 840 ==> r.0 == 420,
        400 <= h <= 841 ==> 2 * r.0 <= h <= 2 * r.0 + 1,
        r.0 - r.1 == 44,
{
}

// ---------------------------------------------------------------------------
// Pasted images, fonts and labels.
// ---------------------------------------------------------------------------

/// What went wrong with an image is said in words.
pub proof fn law_words_of_paste_errors(message: String)
    ensures
        PasteError::PaneClosed.text() == "Original pane was closed; image was not pasted."@,
        PasteError::NoImage.text() == "Clipboard has no image"@,
        PasteError::TooLarge.text() == "Clipboard image is too large"@,
        PasteError::Undecodable.text() == "Cannot decode clipboard image"@,
        PasteError::InProgress.text() == "An image paste is already in progress."@,
        PasteError::Other(message).text() == message@,
{
}

/// An image is too large by one of its sides or by its pixels.
pub proof fn law_which_images_are_too_large(w: i32, h: i32, r: bool)
    requires
        w >= 0,
        h >= 0,
        call_ensures(is_too_large, (w, h), r),
    ensures
        r <==> w > 16384 || h > 16384 || w * h > 67108864,
{
}

/// The bundled font lies below its root, with one slash between.
pub proof fn law_where_the_font_lies(root: &str, r: String)
    requires
        call_ensures(bundled_font_path, (root,), r),
    ensures
        root@.len() == 0 || root@.last() == '/' ==> r@ == root@
            + "assets/fonts/JetBrainsMono-Regular.ttf"@,
        root@.len() > 0 && root@.last() != '/' ==> r@ == root@ + "/"@
            + "assets/fonts/JetBrainsMono-Regular.ttf"@,
{
}

/// The font is looked for, then a configuration, then it is installed and
/// built; the first step that fails is the error.
pub proof fn law_how_the_font_is_registered(
    path: &str,
    found: Result<FontStep, FontError>,
    lost: Result<FontStep, FontError>,
    configured: Result<FontStep, FontError>,
    bare: Result<FontStep, FontError>,
    installed: Result<FontStep, FontError>,
    refused: Result<FontStep, FontError>,
)
    requires
        call_ensures(register_bundled_fonts, (path, FontStep::Look, true), found),
        call_ensures(register_bundled_fonts, (path, FontStep::Look, false), lost),
        call_ensures(register_bundled_fonts, (path, FontStep::Configure, true), configured),
        call_ensures(register_bundled_fonts, (path, FontStep::Configure, false), bare),
        call_ensures(register_bundled_fonts, (path, FontStep::Install, true), installed),
        call_ensures(register_bundled_fonts, (path, FontStep::Install, false), refused),
    ensures
        path@.contains('\0') ==> (found matches Err(FontError::PathContainsNul)),
        !path@.contains('\0') ==> (found matches Ok(FontStep::Configure)),
        lost matches Err(FontError::Missing(p)) && p@ == path@,
        configured matches Ok(FontStep::Install),
        bare matches Err(FontError::NoConfiguration),
        installed matches Ok(FontStep::Build),
        refused matches Err(FontError::Rejected(p)) && p@ == path@,
{
}

/// The bar of input names its pane, and the empty overlay shows nothing.
pub proof fn law_labels_at_rest(pane: u32, path: &str, log: String)
    requires
        call_ensures(pasted_log, (path,), log),
    ensures
        target_label(Some(pane)) == "@"@ + decimal(pane as nat),
        target_label(None) == "@?"@,
        log@ == "Image pasted: "@ + path@,
        ({
            let o = empty_overlay();
            !o.jump_latest && o.jump_label == "↓"@ && o.jump_unseen == 0 && !o.disconnect
                && !o.search_highlight && !o.pane_find && !o.last_seen && o.command_ok is None
                && o.command_fail is None
        }),
{
}

/// Only quitting ends the program; the state is asked for where nobody reports
/// it, once the interval is over.
pub proof fn law_when_the_window_ends_and_asks(
    quit: bool,
    intent: CloseIntent,
    reported: bool,
    last: u64,
    now: u64,
    interval: u64,
    asks: bool,
)
    requires
        call_ensures(close_intent, (quit,), intent),
        call_ensures(should_poll_status, (reported, last, now, interval), asks),
    ensures
        intent == CloseIntent::Quit <==> quit,
        intent == CloseIntent::HideKeepPolling <==> !quit,
        reported ==> !asks,
        !reported && now >= last + interval ==> asks,
        !reported && last <= now < last + interval ==> !asks,
        !reported && now < last && interval > 0 ==> !asks,
{
}

} // verus!
