//! Turns the HTML that a terminal surface exports of its screen into lines
//! with SGR escape sequences.
use vstd::prelude::*;
use vstd::string::*;

use crate::text::find::{
    after_first, contains, contains_chars, find_after, has_prefix, starts_with,
};
use crate::text::number::{decimal, parse_u32, push_decimal, u32_of};
use crate::text::split::{first_index, lemma_first_index, lemma_first_index_bound};
use crate::text::{
    char_of_code, chars_of, is_white, is_whitespace, push_char, same, scalar_value, string_of,
};

verus! {

// ---------------------------------------------------------------------------
// Words and tags.
// ---------------------------------------------------------------------------

/// The characters of `s` up to its first white space.
pub open spec fn word_prefix(s: Seq<char>) -> Seq<char>
    decreases s.len(),
{
    if s.len() == 0 || is_white(s[0]) {
        Seq::<char>::empty()
    } else {
        seq![s[0]] + word_prefix(s.drop_first())
    }
}

/// The first word of `s`, without the white space before it.
pub open spec fn first_word(s: Seq<char>) -> Seq<char>
    decreases s.len(),
{
    if s.len() > 0 && is_white(s[0]) {
        first_word(s.drop_first())
    } else {
        word_prefix(s)
    }
}

/// Returns the first word of `tag`.
fn word_of(tag: &Vec<char>) -> (r: String)
    ensures
        r@ == first_word(tag@),
{
    let mut i: usize = 0;
    assert(tag@.skip(0) =~= tag@);
    while i < tag.len() && is_whitespace(tag[i])
        invariant
            i <= tag.len(),
            first_word(tag@) == first_word(tag@.skip(i as int)),
        decreases tag.len() - i,
    {
        assert(tag@.skip(i as int).drop_first() =~= tag@.skip(i + 1));
        i += 1;
    }
    let mut j: usize = i;
    let ghost rest = tag@.skip(i as int);
    assert(first_word(rest) == word_prefix(rest));
    assert(tag@.subrange(i as int, i as int) + word_prefix(tag@.skip(i as int)) =~= word_prefix(
        rest,
    ));
    while j < tag.len() && !is_whitespace(tag[j])
        invariant
            i <= j <= tag.len(),
            word_prefix(rest) == tag@.subrange(i as int, j as int) + word_prefix(
                tag@.skip(j as int),
            ),
        decreases tag.len() - j,
    {
        assert(tag@.skip(j as int).drop_first() =~= tag@.skip(j + 1));
        assert(tag@.subrange(i as int, j + 1) =~= tag@.subrange(i as int, j as int).push(
            tag@[j as int],
        ));
        assert(tag@.subrange(i as int, j as int) + (seq![tag@[j as int]] + word_prefix(
            tag@.skip(j + 1),
        )) =~= tag@.subrange(i as int, j + 1) + word_prefix(tag@.skip(j + 1)));
        j += 1;
    }
    assert(word_prefix(tag@.skip(j as int)) =~= Seq::<char>::empty());
    assert(word_prefix(rest) =~= tag@.subrange(i as int, j as int));
    string_of(tag, i, j)
}

// ---------------------------------------------------------------------------
// The style of an opening tag.
// ---------------------------------------------------------------------------

/// The sequence that switches an element of the given name on.
pub open spec fn name_style(name: Seq<char>) -> Seq<char> {
    if name == "b"@ {
        "\x1b[1m"@
    } else if name == "i"@ {
        "\x1b[3m"@
    } else if name == "u"@ {
        "\x1b[4m"@
    } else if name == "strike"@ {
        "\x1b[9m"@
    } else if name == "blink"@ {
        "\x1b[5m"@
    } else {
        Seq::<char>::empty()
    }
}

/// The sequence that selects a direct colour: 38 for the text, 48 for what is
/// behind it.
pub open spec fn colour_style(code: nat, rgb: u32) -> Seq<char> {
    "\x1b["@ + decimal(code) + ";2;"@ + decimal((rgb / 65536) as nat) + ";"@ + decimal(
        (rgb / 256 % 256) as nat,
    ) + ";"@ + decimal((rgb % 256) as nat) + "m"@
}

/// The colour that stands in six hexadecimal digits behind `attribute`.
pub open spec fn attribute_colour(tag: Seq<char>, attribute: Seq<char>) -> Option<u32> {
    match after_first(tag, attribute) {
        Some(value) => if value.len() >= 6 {
            u32_of(value.take(6), 16)
        } else {
            None
        },
        None => None,
    }
}

/// The sequence for a colour attribute of a tag; empty where it has none.
pub open spec fn attribute_style(tag: Seq<char>, attribute: Seq<char>, code: nat) -> Seq<char> {
    match attribute_colour(tag, attribute) {
        Some(rgb) => colour_style(code, rgb),
        None => Seq::<char>::empty(),
    }
}

/// The sequences that an opening tag stands for.
pub open spec fn tag_style(tag: Seq<char>) -> Seq<char> {
    name_style(first_word(tag)) + attribute_style(tag, "color=\"#"@, 38) + attribute_style(
        tag,
        "background-color:#"@,
        48,
    ) + (if contains(tag, "text-decoration-line:overline"@) {
        "\x1b[53m"@
    } else {
        Seq::<char>::empty()
    })
}

fn push_attribute(style: &mut String, tag: &Vec<char>, attribute: &str, code: u64)
    ensures
        final(style)@ == old(style)@ + attribute_style(tag@, attribute@, code as nat),
{
    let wanted = chars_of(attribute);
    let ghost before = style@;
    if let Some(at) = find_after(tag, &wanted) {
        let ghost value = tag@.skip(at as int);
        if tag.len() - at >= 6 {
            let mut hex: Vec<char> = Vec::new();
            let mut k: usize = 0;
            while k < 6
                invariant
                    k <= 6,
                    at + 6 <= tag.len(),
                    value == tag@.skip(at as int),
                    hex@ == value.take(k as int),
                decreases 6 - k,
            {
                hex.push(tag[at + k]);
                assert(value.take(k + 1) =~= value.take(k as int).push(value[k as int]));
                k += 1;
            }
            assert(hex@.skip(0) =~= value.take(6));
            if let Some(rgb) = parse_u32(&hex, 0, 16) {
                style.append("\x1b[");
                push_decimal(style, code);
                style.append(";2;");
                push_decimal(style, (rgb / 65536) as u64);
                style.append(";");
                push_decimal(style, (rgb / 256 % 256) as u64);
                style.append(";");
                push_decimal(style, (rgb % 256) as u64);
                style.append("m");
                assert(style@ =~= before + colour_style(code as nat, rgb));
                return ;
            }
        }
    }
    assert(style@ =~= before + Seq::<char>::empty());
}

fn style_of_name(name: &str) -> (r: String)
    ensures
        r@ == name_style(name@),
{
    if same(name, "b") {
        "\x1b[1m".to_owned()
    } else if same(name, "i") {
        "\x1b[3m".to_owned()
    } else if same(name, "u") {
        "\x1b[4m".to_owned()
    } else if same(name, "strike") {
        "\x1b[9m".to_owned()
    } else if same(name, "blink") {
        "\x1b[5m".to_owned()
    } else {
        String::new()
    }
}

fn style_of_tag(tag: &Vec<char>, name: &str) -> (r: String)
    requires
        name@ == first_word(tag@),
    ensures
        r@ == tag_style(tag@),
{
    let mut style = style_of_name(name);
    push_attribute(&mut style, tag, "color=\"#", 38);
    push_attribute(&mut style, tag, "background-color:#", 48);
    let overline = chars_of("text-decoration-line:overline");
    if contains_chars(tag, &overline) {
        style.append("\x1b[53m");
    }
    assert(style@ =~= tag_style(tag@));
    style
}

// ---------------------------------------------------------------------------
// Entities.
// ---------------------------------------------------------------------------

/// The character that a numeric entity names, by its hexadecimal or its
/// decimal code.
pub open spec fn numeric_entity(entity: Seq<char>) -> Option<char> {
    let hex = if starts_with(entity, "#x"@) {
        u32_of(entity.skip(2), 16)
    } else {
        None
    };
    let code = if hex is Some {
        hex
    } else if starts_with(entity, "#"@) {
        u32_of(entity.skip(1), 10)
    } else {
        None
    };
    match code {
        Some(n) => scalar_value(n),
        None => None,
    }
}

/// The character that an entity stands for, by the text between `&` and `;`.
#[verifier::opaque]
pub open spec fn entity_char(entity: Seq<char>) -> Option<char> {
    if entity == "lt"@ {
        Some('<')
    } else if entity == "gt"@ {
        Some('>')
    } else if entity == "amp"@ {
        Some('&')
    } else if entity == "quot"@ {
        Some('"')
    } else if entity == "apos"@ {
        Some('\'')
    } else {
        numeric_entity(entity)
    }
}

fn char_of_entity(entity: &Vec<char>) -> (r: Option<char>)
    ensures
        r == entity_char(entity@),
{
    reveal(entity_char);
    let text = string_of(entity, 0, entity.len());
    assert(text@ =~= entity@);
    if same(text.as_str(), "lt") {
        return Some('<');
    }
    if same(text.as_str(), "gt") {
        return Some('>');
    }
    if same(text.as_str(), "amp") {
        return Some('&');
    }
    if same(text.as_str(), "quot") {
        return Some('"');
    }
    if same(text.as_str(), "apos") {
        return Some('\'');
    }
    proof {
        reveal_strlit("#x");
        reveal_strlit("#");
    }
    let hex_mark = chars_of("#x");
    let mark = chars_of("#");
    if has_prefix(entity, &hex_mark) {
        if let Some(code) = parse_u32(entity, 2, 16) {
            return char_of_code(code);
        }
    }
    if has_prefix(entity, &mark) {
        if let Some(code) = parse_u32(entity, 1, 10) {
            return char_of_code(code);
        }
    }
    None
}

// ---------------------------------------------------------------------------
// The whole text.
// ---------------------------------------------------------------------------

/// The innermost open element of the given name.
pub open spec fn last_open(open: Seq<(Seq<char>, Seq<char>)>, name: Seq<char>) -> Option<int>
    decreases open.len(),
{
    if open.len() == 0 {
        None
    } else if open.last().0 == name {
        Some(open.len() - 1)
    } else {
        last_open(open.drop_last(), name)
    }
}

/// The sequences of the open elements, outermost first.
pub open spec fn open_style(open: Seq<(Seq<char>, Seq<char>)>) -> Seq<char>
    decreases open.len(),
{
    if open.len() == 0 {
        Seq::<char>::empty()
    } else {
        open_style(open.drop_last()) + open.last().1
    }
}

/// What a tag writes, and the open elements behind it.
#[verifier::opaque]
pub open spec fn tag_step(tag: Seq<char>, open: Seq<(Seq<char>, Seq<char>)>) -> (
    Seq<char>,
    Seq<(Seq<char>, Seq<char>)>,
) {
    let name = first_word(tag);
    if name.len() > 0 && name[0] == '/' {
        match last_open(open, name.skip(1)) {
            Some(i) => ("\x1b[0m"@ + open_style(open.take(i)), open.take(i)),
            None => (Seq::<char>::empty(), open),
        }
    } else {
        let style = tag_style(tag);
        if style.len() == 0 {
            (style, open)
        } else {
            (style, open.push((name, style)))
        }
    }
}

/// The text behind `<`, cut at the `>` that ends the tag.
pub open spec fn tag_at(rest: Seq<char>) -> Option<(Seq<char>, Seq<char>)> {
    let end = first_index(rest.skip(1), '>');
    if end < rest.len() - 1 {
        Some((rest.subrange(1, end + 1), rest.skip(end + 2)))
    } else {
        None
    }
}

/// The character of the entity at the start of `rest`, and what follows it.
pub open spec fn entity_at(rest: Seq<char>) -> Option<(char, Seq<char>)> {
    let end = first_index(rest, ';');
    if end < rest.len() {
        match entity_char(rest.subrange(1, end)) {
            Some(c) => Some((c, rest.skip(end + 1))),
            None => None,
        }
    } else {
        None
    }
}

/// What `rest` renders to where the elements `open` are open: tags become
/// escape sequences, entities the characters they name, and everything else
/// stays. A tag without an end drops what is left.
pub open spec fn rendered(rest: Seq<char>, open: Seq<(Seq<char>, Seq<char>)>) -> Seq<char>
    decreases rest.len(),
    via rendered_decreases
{
    if rest.len() == 0 {
        Seq::<char>::empty()
    } else if rest[0] == '<' {
        match tag_at(rest) {
            Some((tag, after)) => tag_step(tag, open).0 + rendered(after, tag_step(tag, open).1),
            None => Seq::<char>::empty(),
        }
    } else if rest[0] == '&' {
        match entity_at(rest) {
            Some((c, after)) => seq![c] + rendered(after, open),
            None => seq!['&'] + rendered(rest.drop_first(), open),
        }
    } else {
        seq![rest[0]] + rendered(rest.drop_first(), open)
    }
}

#[via_fn]
proof fn rendered_decreases(rest: Seq<char>, open: Seq<(Seq<char>, Seq<char>)>) {
    lemma_first_index_bound(rest.skip(1), '>');
    lemma_first_index_bound(rest, ';');
}

/// The names and sequences of the open elements.
pub open spec fn open_views(styles: Seq<(String, String)>) -> Seq<(Seq<char>, Seq<char>)> {
    Seq::new(styles.len(), |i: int| (styles[i].0@, styles[i].1@))
}

/// Applies one tag: writes its sequences and keeps track of what is open.
fn apply_tag(out: &mut String, styles: &mut Vec<(String, String)>, tag: &Vec<char>)
    ensures
        final(out)@ == old(out)@ + tag_step(tag@, open_views(old(styles)@)).0,
        open_views(final(styles)@) == tag_step(tag@, open_views(old(styles)@)).1,
{
    reveal(tag_step);
    let name = word_of(tag);
    let letters = chars_of(name.as_str());
    let ghost before = out@;
    let ghost open = open_views(styles@);
    if letters.len() > 0 && letters[0] == '/' {
        let closing = string_of(&letters, 1, letters.len());
        assert(closing@ =~= name@.skip(1));
        let mut n: usize = styles.len();
        assert(open.take(n as int) =~= open);
        while n > 0
            invariant
                n <= styles.len(),
                styles@ == old(styles)@,
                open == open_views(styles@),
                out@ == before,
                before == old(out)@,
                name@ == first_word(tag@),
                name@.len() > 0 && name@[0] == '/',
                closing@ == name@.skip(1),
                last_open(open, closing@) == last_open(open.take(n as int), closing@),
            decreases n,
        {
            assert(open.take(n as int).drop_last() =~= open.take(n - 1));
            assert(open.take(n as int).last() == open[n - 1]);
            if same(styles[n - 1].0.as_str(), closing.as_str()) {
                styles.truncate(n - 1);
                out.append("\x1b[0m");
                let ghost kept = open.take(n - 1);
                assert(open_views(styles@) =~= kept);
                assert(kept.take(0) =~= Seq::<(Seq<char>, Seq<char>)>::empty());
                assert(out@ =~= before + "\x1b[0m"@ + open_style(kept.take(0)));
                let mut k: usize = 0;
                while k < styles.len()
                    invariant
                        k <= styles.len(),
                        kept == open_views(styles@),
                        out@ == before + "\x1b[0m"@ + open_style(kept.take(k as int)),
                    decreases styles.len() - k,
                {
                    assert(kept.take(k + 1).drop_last() =~= kept.take(k as int));
                    out.append(styles[k].1.as_str());
                    assert(out@ =~= before + "\x1b[0m"@ + open_style(kept.take(k + 1)));
                    k += 1;
                }
                assert(kept.take(k as int) =~= kept);
                proof {
                    reveal(tag_step);
                    assert(out@ =~= before + ("\x1b[0m"@ + open_style(kept)));
                }
                return ;
            }
            n -= 1;
        }
        assert(out@ =~= before + Seq::<char>::empty());
    } else {
        let style = style_of_tag(tag, name.as_str());
        if !style.as_str().is_empty() {
            out.append(style.as_str());
            styles.push((name, style));
            assert(open_views(styles@) =~= open.push((name@, style@)));
        } else {
            assert(out@ =~= before + style@);
        }
    }
}

/// Returns the position of the first `c` of `v` at or behind `from`, or the
/// length of `v`.
fn index_from(v: &Vec<char>, from: usize, c: char) -> (r: usize)
    requires
        from <= v.len(),
    ensures
        from <= r <= v.len(),
        r - from == first_index(v@.skip(from as int), c),
        r < v.len() ==> v@[r as int] == c,
{
    let mut i: usize = from;
    while i < v.len() && v[i] != c
        invariant
            from <= i <= v.len(),
            forall|j: int| from <= j < i ==> v@[j] != c,
        decreases v.len() - i,
    {
        i += 1;
    }
    proof {
        let s = v@.skip(from as int);
        assert forall|j: int| 0 <= j < i - from implies s[j] != c by {
            assert(s[j] == v@[from + j]);
        }
        lemma_first_index(s, c, i - from);
    }
    i
}

fn slice_of(v: &Vec<char>, from: usize, to: usize) -> (r: Vec<char>)
    requires
        from <= to <= v.len(),
    ensures
        r@ == v@.subrange(from as int, to as int),
{
    let mut out: Vec<char> = Vec::new();
    let mut i: usize = from;
    while i < to
        invariant
            from <= i <= to <= v.len(),
            out@ == v@.subrange(from as int, i as int),
        decreases to - i,
    {
        out.push(v[i]);
        assert(v@.subrange(from as int, i + 1) =~= v@.subrange(from as int, i as int).push(
            v@[i as int],
        ));
        i += 1;
    }
    out
}

proof fn lemma_append(a: Seq<char>, b: Seq<char>, c: Seq<char>)
    ensures
        (a + b) + c == a + (b + c),
{
    assert((a + b) + c =~= a + (b + c));
}

/// Returns the text of an HTML export with its tags turned into SGR sequences
/// and its entities into characters.
pub fn html_to_ansi(html: &str) -> (r: String)
    ensures
        r@ == rendered(html@, Seq::<(Seq<char>, Seq<char>)>::empty()),
{
    let v = chars_of(html);
    let mut out = String::new();
    let mut styles: Vec<(String, String)> = Vec::new();
    let mut p: usize = 0;
    assert(open_views(styles@) =~= Seq::<(Seq<char>, Seq<char>)>::empty());
    assert(v@.skip(0) =~= html@);
    assert(out@ + rendered(html@, open_views(styles@)) =~= rendered(html@, open_views(styles@)));
    while p < v.len()
        invariant
            p <= v.len(),
            v@ == html@,
            out@ + rendered(v@.skip(p as int), open_views(styles@)) == rendered(
                html@,
                Seq::<(Seq<char>, Seq<char>)>::empty(),
            ),
        decreases v.len() - p,
    {
        let ghost rest = v@.skip(p as int);
        let ghost before = out@;
        let ghost open = open_views(styles@);
        if v[p] == '<' {
            let end = index_from(&v, p + 1, '>');
            assert(rest.skip(1) =~= v@.skip(p + 1));
            if end == v.len() {
                assert(tag_at(rest) is None);
                assert(out@ + Seq::<char>::empty() =~= out@);
                return out;
            }
            let tag = slice_of(&v, p + 1, end);
            let ghost k = first_index(rest.skip(1), '>');
            assert(tag@ =~= rest.subrange(1, k + 1));
            assert(v@.skip(end + 1) =~= rest.skip(k + 2));
            apply_tag(&mut out, &mut styles, &tag);
            p = end + 1;
            proof {
                let step = tag_step(tag@, open);
                let after = v@.skip(p as int);
                assert(tag_at(rest) == Some((tag@, after)));
                assert(rendered(rest, open) == step.0 + rendered(after, step.1));
                lemma_append(before, step.0, rendered(after, step.1));
            }
        } else if v[p] == '&' {
            let end = index_from(&v, p, ';');
            if end < v.len() {
                let entity = slice_of(&v, p + 1, end);
                let ghost k = first_index(rest, ';');
                assert(entity@ =~= rest.subrange(1, k));
                if let Some(c) = char_of_entity(&entity) {
                    push_char(&mut out, c);
                    p = end + 1;
                    proof {
                        let after = v@.skip(p as int);
                        assert(after =~= rest.skip(k + 1));
                        assert(entity_at(rest) == Some((c, after)));
                        assert(out@ =~= before + seq![c]);
                        lemma_append(before, seq![c], rendered(after, open));
                    }
                    continue ;
                }
            }
            push_char(&mut out, '&');
            p += 1;
            proof {
                let after = v@.skip(p as int);
                assert(after =~= rest.drop_first());
                assert(entity_at(rest) is None);
                assert(out@ =~= before + seq!['&']);
                lemma_append(before, seq!['&'], rendered(after, open));
            }
        } else {
            push_char(&mut out, v[p]);
            p += 1;
            proof {
                let after = v@.skip(p as int);
                assert(after =~= rest.drop_first());
                assert(out@ =~= before + seq![rest[0]]);
                lemma_append(before, seq![rest[0]], rendered(after, open));
            }
        }
    }
    assert(out@ + Seq::<char>::empty() =~= out@);
    out
}

// ---------------------------------------------------------------------------
// Laws.
// ---------------------------------------------------------------------------

/// Text in which no tag and no entity starts.
pub open spec fn is_plain(s: Seq<char>) -> bool {
    forall|i: int| 0 <= i < s.len() ==> s[i] != '<' && s[i] != '&'
}

/// Text without tags and entities comes out unchanged, whatever is open, and
/// does not change how the text behind it renders.
pub proof fn law_plain_text_is_kept(
    text: Seq<char>,
    rest: Seq<char>,
    open: Seq<(Seq<char>, Seq<char>)>,
)
    requires
        is_plain(text),
    ensures
        rendered(text + rest, open) == text + rendered(rest, open),
        rendered(text, open) == text,
    decreases text.len(),
{
    if text.len() == 0 {
        assert(text + rest =~= rest);
        assert(text + rendered(rest, open) =~= rendered(rest, open));
        assert(text =~= Seq::<char>::empty());
    } else {
        let tail = text.drop_first();
        assert(is_plain(tail));
        law_plain_text_is_kept(tail, rest, open);
        assert((text + rest).drop_first() =~= tail + rest);
        assert((text + rest)[0] == text[0]);
        assert(seq![text[0]] + (tail + rendered(rest, open)) =~= text + rendered(rest, open));
        assert(seq![text[0]] + tail =~= text);
    }
}

/// Renders the tag at the start of a text.
proof fn lemma_rendered_tag(
    tag: Seq<char>,
    rest: Seq<char>,
    open: Seq<(Seq<char>, Seq<char>)>,
)
    requires
        !tag.contains('>'),
    ensures
        rendered(seq!['<'] + tag + seq!['>'] + rest, open) == tag_step(tag, open).0 + rendered(
            rest,
            tag_step(tag, open).1,
        ),
{
    let all = seq!['<'] + tag + seq!['>'] + rest;
    let body = all.skip(1);
    assert(body =~= tag + seq!['>'] + rest);
    assert forall|j: int| 0 <= j < tag.len() implies body[j] != '>' by {
        assert(body[j] == tag[j]);
        assert(tag.contains(tag[j]));
    }
    lemma_first_index(body, '>', tag.len() as int);
    assert(all.subrange(1, tag.len() as int + 1) =~= tag);
    assert(all.skip(tag.len() as int + 2) =~= rest);
    assert(tag_at(all) == Some((tag, rest)));
}

/// An entity stands for its character: `&`, its name and `;` render as that
/// character and leave the rest of the text as it is.
pub proof fn law_entity_stands_for_its_character(
    entity: Seq<char>,
    c: char,
    rest: Seq<char>,
    open: Seq<(Seq<char>, Seq<char>)>,
)
    requires
        entity_char(entity) == Some(c),
        !entity.contains(';'),
    ensures
        rendered(seq!['&'] + entity + seq![';'] + rest, open) == seq![c] + rendered(rest, open),
{
    let all = seq!['&'] + entity + seq![';'] + rest;
    assert forall|j: int| 0 <= j < entity.len() + 1 implies all[j] != ';' by {
        if j > 0 {
            assert(all[j] == entity[j - 1]);
            assert(entity.contains(entity[j - 1]));
        }
    }
    lemma_first_index(all, ';', entity.len() as int + 1);
    assert(all.subrange(1, entity.len() as int + 1) =~= entity);
    assert(all.skip(entity.len() as int + 2) =~= rest);
    assert(entity_at(all) == Some((c, rest)));
}

/// A character as it is written in HTML.
pub open spec fn html_char(c: char) -> Seq<char> {
    if c == '<' {
        seq!['&'] + "lt"@ + seq![';']
    } else if c == '>' {
        seq!['&'] + "gt"@ + seq![';']
    } else if c == '&' {
        seq!['&'] + "amp"@ + seq![';']
    } else if c == '"' {
        seq!['&'] + "quot"@ + seq![';']
    } else if c == '\'' {
        seq!['&'] + "apos"@ + seq![';']
    } else {
        seq![c]
    }
}

/// A text as it is written in HTML.
pub open spec fn html_text(text: Seq<char>) -> Seq<char>
    decreases text.len(),
{
    if text.len() == 0 {
        Seq::<char>::empty()
    } else {
        html_char(text[0]) + html_text(text.drop_first())
    }
}

proof fn lemma_html_char_reads_back(
    c: char,
    rest: Seq<char>,
    open: Seq<(Seq<char>, Seq<char>)>,
)
    ensures
        rendered(html_char(c) + rest, open) == seq![c] + rendered(rest, open),
{
    reveal(entity_char);
    reveal_strlit("lt");
    reveal_strlit("gt");
    reveal_strlit("amp");
    reveal_strlit("quot");
    reveal_strlit("apos");
    assert("lt"@[0] != "gt"@[0]);
    assert("amp"@.len() != "lt"@.len() && "amp"@.len() != "gt"@.len());
    assert("quot"@.len() != "lt"@.len() && "quot"@.len() != "amp"@.len());
    assert("apos"@.len() != "lt"@.len() && "apos"@.len() != "amp"@.len());
    assert("quot"@[0] != "apos"@[0]);
    if c == '<' {
        law_entity_stands_for_its_character("lt"@, c, rest, open);
    } else if c == '>' {
        law_entity_stands_for_its_character("gt"@, c, rest, open);
    } else if c == '&' {
        law_entity_stands_for_its_character("amp"@, c, rest, open);
    } else if c == '"' {
        law_entity_stands_for_its_character("quot"@, c, rest, open);
    } else if c == '\'' {
        law_entity_stands_for_its_character("apos"@, c, rest, open);
    } else {
        law_plain_text_is_kept(seq![c], rest, open);
    }
}

/// Any text that is written in HTML comes out as it was, whatever is open, and
/// does not change how the text behind it renders.
pub proof fn law_escaped_text_reads_back(
    text: Seq<char>,
    rest: Seq<char>,
    open: Seq<(Seq<char>, Seq<char>)>,
)
    ensures
        rendered(html_text(text) + rest, open) == text + rendered(rest, open),
    decreases text.len(),
{
    if text.len() == 0 {
        assert(html_text(text) + rest =~= rest);
        assert(text + rendered(rest, open) =~= rendered(rest, open));
    } else {
        let tail = text.drop_first();
        law_escaped_text_reads_back(tail, rest, open);
        lemma_html_char_reads_back(text[0], html_text(tail) + rest, open);
        assert(html_text(text) + rest =~= html_char(text[0]) + (html_text(tail) + rest));
        assert(seq![text[0]] + (tail + rendered(rest, open)) =~= text + rendered(rest, open));
    }
}

proof fn lemma_word_prefix(s: Seq<char>)
    ensures
        forall|i: int| 0 <= i < word_prefix(s).len() ==> !is_white(#[trigger] word_prefix(s)[i]),
        forall|i: int|
            0 <= i < word_prefix(s).len() ==> s.contains(#[trigger] word_prefix(s)[i]),
    decreases s.len(),
{
    if s.len() > 0 && !is_white(s[0]) {
        let tail = s.drop_first();
        lemma_word_prefix(tail);
        let w = word_prefix(s);
        assert forall|i: int| 0 <= i < w.len() implies !is_white(#[trigger] w[i]) && s.contains(
            w[i],
        ) by {
            if i > 0 {
                assert(w[i] == word_prefix(tail)[i - 1]);
                let k = choose|k: int| 0 <= k < tail.len() && tail[k] == w[i];
                assert(s[k + 1] == w[i]);
            } else {
                assert(s[0] == w[0]);
            }
        }
    }
}

proof fn lemma_first_word(s: Seq<char>)
    ensures
        forall|i: int| 0 <= i < first_word(s).len() ==> !is_white(#[trigger] first_word(s)[i]),
        forall|i: int| 0 <= i < first_word(s).len() ==> s.contains(#[trigger] first_word(s)[i]),
    decreases s.len(),
{
    if s.len() > 0 && is_white(s[0]) {
        let tail = s.drop_first();
        lemma_first_word(tail);
        assert forall|i: int| 0 <= i < first_word(s).len() implies s.contains(
            #[trigger] first_word(s)[i],
        ) by {
            assert(tail.contains(first_word(tail)[i]));
            let k = choose|k: int| 0 <= k < tail.len() && tail[k] == first_word(tail)[i];
            assert(s[k + 1] == first_word(s)[i]);
        }
    } else {
        lemma_word_prefix(s);
    }
}

proof fn lemma_word_is_itself(s: Seq<char>)
    requires
        forall|i: int| 0 <= i < s.len() ==> !is_white(#[trigger] s[i]),
    ensures
        word_prefix(s) == s,
    decreases s.len(),
{
    if s.len() > 0 {
        lemma_word_is_itself(s.drop_first());
        assert(seq![s[0]] + s.drop_first() =~= s);
    } else {
        assert(s =~= Seq::<char>::empty());
    }
}

/// The tag that closes an element drops it and restores what is around it.
proof fn lemma_closing_step(
    name: Seq<char>,
    style: Seq<char>,
    open: Seq<(Seq<char>, Seq<char>)>,
)
    requires
        forall|i: int| 0 <= i < name.len() ==> !is_white(#[trigger] name[i]),
    ensures
        tag_step(seq!['/'] + name, open.push((name, style))) == (
            "\x1b[0m"@ + open_style(open),
            open,
        ),
{
    reveal(tag_step);
    let inner = open.push((name, style));
    let closing = seq!['/'] + name;
    assert forall|i: int| 0 <= i < closing.len() implies !is_white(#[trigger] closing[i]) by {
        if i > 0 {
            assert(closing[i] == name[i - 1]);
        }
    }
    lemma_word_is_itself(closing);
    assert(first_word(closing) == closing);
    assert(closing.skip(1) =~= name);
    assert(inner.last().0 == name);
    assert(inner.take(open.len() as int) =~= open);
}

proof fn lemma_opening_step(tag: Seq<char>, open: Seq<(Seq<char>, Seq<char>)>)
    requires
        tag_style(tag).len() > 0,
        first_word(tag).len() > 0 ==> first_word(tag)[0] != '/',
    ensures
        tag_step(tag, open) == (tag_style(tag), open.push((first_word(tag), tag_style(tag)))),
{
    reveal(tag_step);
}

/// A styled element switches its style on, shows its text, and its closing
/// tag gives back exactly the styles that were open around it.
pub proof fn law_closing_tag_restores_the_outer_style(
    tag: Seq<char>,
    text: Seq<char>,
    rest: Seq<char>,
    open: Seq<(Seq<char>, Seq<char>)>,
)
    requires
        !tag.contains('>'),
        is_plain(text),
        tag_style(tag).len() > 0,
        first_word(tag).len() > 0 ==> first_word(tag)[0] != '/',
    ensures
        rendered(
            (seq!['<'] + tag + seq!['>']) + (text + (seq!['<'] + (seq!['/'] + first_word(tag))
                + seq!['>'] + rest)),
            open,
        ) == tag_style(tag) + (text + (("\x1b[0m"@ + open_style(open)) + rendered(rest, open))),
{
    let name = first_word(tag);
    let style = tag_style(tag);
    let inner = open.push((name, style));
    let closing = seq!['/'] + name;
    let tail = seq!['<'] + closing + seq!['>'] + rest;
    lemma_first_word(tag);
    assert forall|i: int| 0 <= i < closing.len() implies closing[i] != '>' by {
        if i > 0 {
            assert(closing[i] == name[i - 1]);
            assert(tag.contains(name[i - 1]));
        }
    }
    assert(!closing.contains('>'));
    lemma_closing_step(name, style, open);
    lemma_rendered_tag(closing, rest, inner);
    law_plain_text_is_kept(text, tail, inner);
    lemma_opening_step(tag, open);
    lemma_rendered_tag(tag, text + tail, open);
}

} // verus!
