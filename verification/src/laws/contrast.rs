//! Readable text: which colours are judged, and what is put into the stream.
use vstd::prelude::*;
use vstd::string::*;

use crate::client::types::{ClientRgb, ClientTheme};
use crate::linux::terminal::contrast::{
    all_answered, answered, ascii, bytes_of, corrected, judged, judged_at, observed, observed_all,
    original_foreground, placed, plain_style, resolved, rgb_sequence, run, stepped, GuardView,
    StyleEvent, TermColor, TextAttribute,
};
use crate::linux::terminal::style_parser::{
    attribute_named, color_named, completed, steps_of, variant_named, Reported,
};
use crate::text::number::decimal;

verus! {

// ---------------------------------------------------------------------------
// Colours.
// ---------------------------------------------------------------------------

/// The first sixteen palette numbers are the sixteen colours of the theme, in
/// their order.
pub proof fn law_palette_numbers_are_the_colours_of_the_theme(theme: ClientTheme, i: u32)
    requires
        i < 16,
    ensures
        resolved(theme, TermColor::Indexed(i)) == theme.colors@[i as int],
{
}

/// The two named colours are those of the theme, a colour that is spelled out
/// is itself, and a number outside the palette is drawn as the foreground.
pub proof fn law_named_colours_are_those_of_the_theme(theme: ClientTheme, rgb: ClientRgb, i: u32)
    requires
        i >= 256,
    ensures
        resolved(theme, TermColor::Foreground) == theme.foreground,
        resolved(theme, TermColor::Background) == theme.background,
        resolved(theme, TermColor::Spec(rgb)) == rgb,
        resolved(theme, TermColor::Indexed(i)) == theme.foreground,
{
}

/// The six levels of a channel in the colour cube.
pub open spec fn levels() -> Seq<u8> {
    seq![0u8, 95u8, 135u8, 175u8, 215u8, 255u8]
}

/// From 16 on the palette is a cube: 36 numbers for a step of red, 6 for one
/// of green, 1 for one of blue.
pub proof fn law_palette_holds_a_cube(theme: ClientTheme, red: u32, green: u32, blue: u32)
    requires
        red < 6,
        green < 6,
        blue < 6,
    ensures
        resolved(theme, TermColor::Indexed((16 + 36 * red + 6 * green + blue) as u32)) == ClientRgb(
            levels()[red as int],
            levels()[green as int],
            levels()[blue as int],
        ),
{
    let n = 36 * red + 6 * green + blue;
    assert(n / 36 == red && n / 6 % 6 == green && n % 6 == blue);
}

/// From 232 on the palette is a ramp of greys, ten apart, from almost black.
pub proof fn law_palette_ends_in_greys(theme: ClientTheme, k: u32)
    requires
        k < 24,
    ensures
        ({
            let c = resolved(theme, TermColor::Indexed((232 + k) as u32));
            c.0 == 8 + 10 * k && c.1 == c.0 && c.2 == c.0
        }),
{
}

/// Every number of the palette is one of the theme, of the cube or of the
/// greys, so that the three laws say all of it.
pub proof fn law_palette_is_covered(i: u32) -> (r: (u32, u32, u32))
    requires
        16 <= i < 232,
    ensures
        r.0 < 6 && r.1 < 6 && r.2 < 6,
        i == 16 + 36 * r.0 + 6 * r.1 + r.2,
{
    let n = i - 16;
    ((n / 36) as u32, (n / 6 % 6) as u32, (n % 6) as u32)
}

// ---------------------------------------------------------------------------
// What is judged.
// ---------------------------------------------------------------------------

/// The text colour is judged against the colour behind it, both as the theme
/// shows them, whenever an attribute changed outside reverse video.
pub proof fn law_the_shown_colours_are_judged(s: GuardView, i: u32, j: u32)
    requires
        s.changed,
        !s.style.reverse,
        i < 16,
        j < 16,
    ensures
        s.style.fg == TermColor::Indexed(i) && s.style.bg == TermColor::Indexed(j) ==> judged(s)
            == Some((s.theme.colors@[i as int], s.theme.colors@[j as int])),
        s.style.fg == TermColor::Indexed(i) && s.style.bg == TermColor::Background ==> judged(s)
            == Some((s.theme.colors@[i as int], s.theme.background)),
        s.style.fg == TermColor::Foreground && s.style.bg == TermColor::Indexed(j) ==> judged(s)
            == Some((s.theme.foreground, s.theme.colors@[j as int])),
        s.style.fg == TermColor::Foreground && s.style.bg == TermColor::Background ==> judged(s)
            == Some((s.theme.foreground, s.theme.background)),
        judged(s) == Some((resolved(s.theme, s.style.fg), resolved(s.theme, s.style.bg))),
{
}

/// Nothing is judged without a change, and nothing in reverse video.
pub proof fn law_nothing_else_is_judged(s: GuardView)
    ensures
        !s.changed || s.style.reverse ==> judged(s) is None,
{
}

// ---------------------------------------------------------------------------
// What attributes do.
// ---------------------------------------------------------------------------

/// Each attribute changes its own part of the style and asks for a judgement.
/// A new text colour ends the correction of the old one, since the terminal
/// has it already.
pub proof fn law_an_attribute_changes_its_own_part(s: GuardView, color: TermColor)
    ensures
        ({
            let t = observed(s, StyleEvent::Attribute(TextAttribute::Foreground(color)));
            &&& t.style.fg == color && t.style.correction is None
            &&& t.style.bg == s.style.bg && t.style.reverse == s.style.reverse
            &&& t.changed && t.saved == s.saved && t.theme == s.theme
        }),
        ({
            let t = observed(s, StyleEvent::Attribute(TextAttribute::Background(color)));
            &&& t.style.bg == color && t.style.correction == s.style.correction
            &&& t.style.fg == s.style.fg && t.style.reverse == s.style.reverse
            &&& t.changed && t.saved == s.saved && t.theme == s.theme
        }),
        ({
            let t = observed(s, StyleEvent::Attribute(TextAttribute::Reverse));
            &&& t.style.reverse && t.style.fg == s.style.fg && t.style.bg == s.style.bg
            &&& t.style.correction == s.style.correction && t.changed
        }),
        ({
            let t = observed(s, StyleEvent::Attribute(TextAttribute::CancelReverse));
            &&& !t.style.reverse && t.style.fg == s.style.fg && t.style.bg == s.style.bg
            &&& t.style.correction == s.style.correction && t.changed
        }),
        ({
            let t = observed(s, StyleEvent::Attribute(TextAttribute::Other));
            t.style == s.style && t.changed
        }),
        ({
            let t = observed(s, StyleEvent::Attribute(TextAttribute::Reset));
            &&& t.style.fg == TermColor::Foreground && t.style.bg == TermColor::Background
            &&& !t.style.reverse && t.style.correction is None && t.changed
        }),
{
}

/// Reverse video and its end undo one another.
pub proof fn law_reverse_is_cancelled(s: GuardView)
    requires
        !s.style.reverse,
    ensures
        observed(
            observed(s, StyleEvent::Attribute(TextAttribute::Reverse)),
            StyleEvent::Attribute(TextAttribute::CancelReverse),
        ).style == s.style,
{
}

/// No event saves the cursor or resets the terminal.
pub open spec fn saves_nothing(events: Seq<StyleEvent>) -> bool {
    forall|i: int|
        0 <= i < events.len() ==> !(#[trigger] events[i] is SaveCursor)
            && !(events[i] is ResetState)
}

proof fn lemma_saved_stays(s: GuardView, events: Seq<StyleEvent>)
    requires
        saves_nothing(events),
    ensures
        observed_all(s, events).saved == s.saved,
        observed_all(s, events).theme == s.theme,
    decreases events.len(),
{
    if events.len() > 0 {
        let init = events.drop_last();
        assert forall|i: int| 0 <= i < init.len() implies !(#[trigger] init[i] is SaveCursor) && !(
        init[i] is ResetState) by {
            assert(init[i] == events[i]);
        }
        lemma_saved_stays(s, init);
        assert(!(events[events.len() - 1] is SaveCursor));
    }
}

/// Restoring the cursor gives back the style that was in force when it was
/// saved, whatever attributes came between, and has it judged anew.
pub proof fn law_restoring_gives_back_the_saved_style(s: GuardView, between: Seq<StyleEvent>)
    requires
        saves_nothing(between),
    ensures
        ({
            let saved = observed(s, StyleEvent::SaveCursor);
            let t = observed(observed_all(saved, between), StyleEvent::RestoreCursor);
            t.style == s.style && t.changed
        }),
{
    lemma_saved_stays(observed(s, StyleEvent::SaveCursor), between);
}

/// Saving changes nothing that is in force, and a full reset forgets both
/// styles.
pub proof fn law_saving_and_resetting(s: GuardView)
    ensures
        ({
            let t = observed(s, StyleEvent::SaveCursor);
            t.style == s.style && t.changed == s.changed && t.saved == s.style
        }),
        ({
            let t = observed(s, StyleEvent::ResetState);
            &&& t.style.fg == TermColor::Foreground && t.style.bg == TermColor::Background
            &&& !t.style.reverse && t.style.correction is None
            &&& t.saved == t.style && t.changed == s.changed
        }),
{
}

// ---------------------------------------------------------------------------
// What is put into the stream.
// ---------------------------------------------------------------------------

/// A colour is selected by `ESC [ 38 ; 2 ; r ; g ; b m`, with its channels in
/// decimal.
pub proof fn law_a_colour_is_selected_by_its_channels(rgb: ClientRgb)
    ensures
        rgb_sequence(rgb) == seq![27u8, 91u8, 51u8, 56u8, 59u8, 50u8, 59u8] + ascii(
            decimal(rgb.0 as nat),
        ) + seq![59u8] + ascii(decimal(rgb.1 as nat)) + seq![59u8] + ascii(decimal(rgb.2 as nat))
            + seq![109u8],
{
    reveal_strlit("\x1b[38;2;");
    reveal_strlit(";");
    reveal_strlit("m");
    assert(ascii("\x1b[38;2;"@) =~= seq![27u8, 91u8, 51u8, 56u8, 59u8, 50u8, 59u8]);
    assert(ascii(";"@) =~= seq![59u8]);
    assert(ascii("m"@) =~= seq![109u8]);
}

/// The application's colour comes back as the theme shows it; the default one
/// by `ESC [ 39 m`.
pub proof fn law_the_original_colour_comes_back(s: GuardView, i: u32, rgb: ClientRgb)
    requires
        i < 16,
    ensures
        s.style.fg == TermColor::Foreground ==> original_foreground(s) == seq![
            27u8,
            91u8,
            51u8,
            57u8,
            109u8,
        ],
        s.style.fg == TermColor::Indexed(i) ==> original_foreground(s) == rgb_sequence(
            s.theme.colors@[i as int],
        ),
        s.style.fg == TermColor::Background ==> original_foreground(s) == rgb_sequence(
            s.theme.background,
        ),
        s.style.fg == TermColor::Spec(rgb) ==> original_foreground(s) == rgb_sequence(rgb),
{
    reveal_strlit("\x1b[39m");
    assert(ascii("\x1b[39m"@) =~= seq![27u8, 91u8, 51u8, 57u8, 109u8]);
}

/// A byte of ASCII passes at once, behind what was held back. After a change
/// the colour that the judgement asks for follows it where another one is in
/// force, the original one where none is asked for any more, and nothing else.
pub proof fn law_a_correction_follows_its_byte(
    s: GuardView,
    byte: u8,
    events: Seq<StyleEvent>,
    answer: Option<ClientRgb>,
)
    requires
        byte < 128,
        observed_all(s, events).utf8 == s.utf8,
    ensures
        ({
            let seen = observed_all(s, events);
            let (end, out) = stepped(s, (byte, events), answer);
            let passed = s.utf8.push(byte);
            &&& end.utf8.len() == 0 && end.printed is None && !end.changed
            &&& end.style.fg == seen.style.fg && end.style.bg == seen.style.bg
            &&& !seen.changed ==> out == passed && end.style == seen.style
            &&& seen.changed ==> end.style.correction == answer
            &&& seen.changed && answer == seen.style.correction ==> out == passed
            &&& seen.changed && answer != seen.style.correction ==> out == passed + (match answer {
                Some(rgb) => rgb_sequence(rgb),
                None => original_foreground(seen),
            })
        }),
{
    let seen = observed_all(s, events);
    let passed = s.utf8.push(byte);
    let (held, bytes) = placed(seen, byte);
    assert(bytes == passed);
    assert(passed + Seq::<u8>::empty() =~= passed);
    assert(original_foreground(held) == original_foreground(seen));
}

/// From a plain style, a text colour of the palette is judged as the theme's
/// and what the judgement asks for stands right behind the sequence.
pub proof fn law_a_palette_colour_is_corrected(
    s: GuardView,
    byte: u8,
    i: u32,
    answer: Option<ClientRgb>,
)
    requires
        byte < 128,
        i < 16,
        !s.style.reverse,
        s.style.bg == TermColor::Background,
    ensures
        ({
            let events = seq![StyleEvent::Attribute(TextAttribute::Foreground(TermColor::Indexed(i)))];
            let (held, _) = placed(observed_all(s, events), byte);
            &&& judged(held) == Some((s.theme.colors@[i as int], s.theme.background))
            &&& stepped(s, (byte, events), answer).1 == s.utf8.push(byte) + (match answer {
                Some(rgb) => rgb_sequence(rgb),
                None => Seq::<u8>::empty(),
            })
        }),
{
    let events = seq![StyleEvent::Attribute(TextAttribute::Foreground(TermColor::Indexed(i)))];
    assert(events.drop_last() =~= Seq::<StyleEvent>::empty());
    assert(observed_all(s, events.drop_last()) == s);
    assert(observed_all(s, events) == observed(s, events.last()));
    law_a_correction_follows_its_byte(s, byte, events, answer);
    assert(s.utf8.push(byte) + Seq::<u8>::empty() =~= s.utf8.push(byte));
}

/// A Braille character keeps the application's colour: that is selected before
/// it and the correction behind it. Any other character passes alone.
pub proof fn law_braille_keeps_its_colour(s: GuardView, byte: u8, c: char)
    requires
        byte >= 128,
        s.printed == Some(c),
    ensures
        ({
            let (end, out) = placed(s, byte);
            let held = s.utf8.push(byte);
            &&& end.utf8.len() == 0 && end.printed is None && end.style == s.style
            &&& 0x2800 <= c as u32 <= 0x28ff && s.style.correction is Some ==> out
                == original_foreground(s) + held + rgb_sequence(s.style.correction->0)
            &&& !(0x2800 <= c as u32 <= 0x28ff) || s.style.correction is None ==> out == held
        }),
{
    let held = s.utf8.push(byte);
    assert(Seq::<u8>::empty() + held + Seq::<u8>::empty() =~= held);
    assert('\u{2800}' as u32 == 0x2800 && '\u{28ff}' as u32 == 0x28ff);
}

/// A byte of a character that is not complete is held back, for four bytes at
/// most.
pub proof fn law_part_of_a_character_is_held(s: GuardView, byte: u8)
    requires
        byte >= 128,
        s.printed is None,
    ensures
        s.utf8.len() < 3 ==> placed(s, byte).1.len() == 0 && placed(s, byte).0.utf8
            == s.utf8.push(byte),
        s.utf8.len() >= 3 ==> placed(s, byte).1 == s.utf8.push(byte) && placed(
            s,
            byte,
        ).0.utf8.len() == 0,
{
}

// ---------------------------------------------------------------------------
// No byte is lost.
// ---------------------------------------------------------------------------

/// The bytes of `part` stand in `whole`, in their order, at the places `at`.
pub open spec fn stands_at(at: Seq<int>, part: Seq<u8>, whole: Seq<u8>) -> bool {
    &&& at.len() == part.len()
    &&& forall|i: int|
        0 <= i < at.len() ==> 0 <= #[trigger] at[i] < whole.len() && whole[at[i]] == part[i]
    &&& forall|i: int, j: int| 0 <= i < j < at.len() ==> #[trigger] at[i] < #[trigger] at[j]
}

/// `part` stands in `whole` between `before` and `after`.
spec fn is_around(before: Seq<u8>, part: Seq<u8>, after: Seq<u8>, whole: Seq<u8>) -> bool {
    whole == before + part + after
}

proof fn lemma_whole_stands(part: Seq<u8>, before: Seq<u8>, after: Seq<u8>) -> (at: Seq<int>)
    ensures
        stands_at(at, part, before + part + after),
{
    let at = Seq::new(part.len(), |i: int| before.len() + i);
    at
}

proof fn lemma_events_hold(s: GuardView, events: Seq<StyleEvent>)
    ensures
        observed_all(s, events).utf8 == s.utf8,
    decreases events.len(),
{
    if events.len() > 0 {
        lemma_events_hold(s, events.drop_last());
    }
}

/// What a step writes and holds is the held bytes and the new one, in one
/// piece, with insertions around them.
proof fn lemma_step_writes_its_bytes(s: GuardView, byte: u8, answer: Option<ClientRgb>) -> (r: (
    Seq<u8>,
    Seq<u8>,
))
    ensures
        ({
            let (held, bytes) = placed(s, byte);
            let (end, more) = corrected(held, answer);
            is_around(r.0, s.utf8.push(byte), r.1, bytes + more + end.utf8)
        }),
{
    let none = Seq::<u8>::empty();
    let (held, bytes) = placed(s, byte);
    let (end, more) = corrected(held, answer);
    let word = s.utf8.push(byte);
    let tail = bytes + more + end.utf8;
    assert(end.utf8 == held.utf8);
    if byte < 0x80 || (s.printed is None && word.len() >= 4) {
        assert(bytes == word);
        assert(tail =~= none + word + (more + held.utf8));
        (none, more + held.utf8)
    } else if s.printed is Some {
        let c = s.printed->0;
        if s.style.correction is Some && '\u{2800}' <= c <= '\u{28ff}' {
            let x = original_foreground(s);
            let y = rgb_sequence(s.style.correction->0);
            assert(bytes == x + word + y);
            assert(tail =~= x + word + (y + more + held.utf8));
            (x, y + more + held.utf8)
        } else {
            assert(bytes =~= word);
            assert(tail =~= none + word + (more + held.utf8));
            (none, more + held.utf8)
        }
    } else {
        assert(held.utf8 == word);
        assert(bytes =~= none);
        assert(tail =~= more + word + none);
        (more, none)
    }
}

/// Places in what came out and is held stay places when the held bytes are
/// written anew with one more byte behind them.
proof fn lemma_places_move(
    p: Seq<int>,
    old: Seq<u8>,
    sent: Seq<u8>,
    held: Seq<u8>,
    byte: u8,
    before: Seq<u8>,
    after: Seq<u8>,
) -> (at: Seq<int>)
    requires
        stands_at(p, old, sent + held),
    ensures
        stands_at(at, old.push(byte), sent + (before + held.push(byte) + after)),
{
    let known = sent.len() as int;
    let shift = before.len() as int;
    let word = held.push(byte);
    let tail = before + word + after;
    let target = sent + tail;
    let next = old.push(byte);
    let at = Seq::new(
        next.len(),
        |i: int|
            if i < old.len() {
                if p[i] < known {
                    p[i]
                } else {
                    p[i] + shift
                }
            } else {
                known + shift + held.len()
            },
    );
    assert forall|i: int| 0 <= i < at.len() implies 0 <= #[trigger] at[i] < target.len()
        && target[at[i]] == next[i] by {
        if i < old.len() {
            assert(0 <= p[i] < (sent + held).len() && (sent + held)[p[i]] == old[i]);
            if p[i] >= known {
                let k = p[i] - known;
                assert((sent + held)[p[i]] == held[k]);
                assert(target[p[i] + shift] == tail[shift + k]);
                assert(tail[shift + k] == word[k]);
            }
        } else {
            assert(target[at[i]] == tail[shift + held.len()]);
            assert(tail[shift + held.len()] == word[held.len() as int]);
        }
    }
    assert forall|i: int,
        j: int| 0 <= i < j < at.len() implies #[trigger] at[i] < #[trigger] at[j] by {
        assert(0 <= p[i] < (sent + held).len());
        if j < old.len() {
            assert(p[i] < p[j]);
        }
    }
    at
}

/// Whatever is corrected, every byte that went in comes out, in its order;
/// what is still held back counts as the end.
pub proof fn law_every_byte_comes_out(
    s: GuardView,
    steps: Seq<(u8, Seq<StyleEvent>)>,
    answers: Seq<Option<ClientRgb>>,
) -> (at: Seq<int>)
    requires
        steps.len() == answers.len(),
    ensures
        stands_at(
            at,
            s.utf8 + bytes_of(steps),
            run(s, steps, answers).1 + run(s, steps, answers).0.utf8,
        ),
    decreases steps.len(),
{
    let none = Seq::<u8>::empty();
    if steps.len() == 0 {
        assert(s.utf8 + bytes_of(steps) =~= s.utf8);
        assert(none + s.utf8 + none =~= none + s.utf8);
        lemma_whole_stands(s.utf8, none, none)
    } else {
        let init = steps.drop_last();
        let mid = run(s, init, answers.drop_last());
        let p = law_every_byte_comes_out(s, init, answers.drop_last());
        let step = steps.last();
        let seen = observed_all(mid.0, step.1);
        lemma_events_hold(mid.0, step.1);
        let (before, after) = lemma_step_writes_its_bytes(seen, step.0, answers.last());
        let (held, bytes) = placed(seen, step.0);
        let (end, more) = corrected(held, answers.last());
        assert(run(s, steps, answers) == (end, mid.1 + (bytes + more)));
        assert(mid.1 + (bytes + more) + end.utf8 =~= mid.1 + (bytes + more + end.utf8));
        assert(bytes_of(steps) =~= bytes_of(init).push(step.0));
        assert(s.utf8 + bytes_of(steps) =~= (s.utf8 + bytes_of(init)).push(step.0));
        lemma_places_move(
            p,
            s.utf8 + bytes_of(init),
            mid.1,
            mid.0.utf8,
            step.0,
            before,
            after,
        )
    }
}

// ---------------------------------------------------------------------------
// Judgements and events.
// ---------------------------------------------------------------------------

/// A judgement is asked for with the colour of the text first and the colour
/// behind it second; where nothing is judged there is no answer.
pub proof fn law_how_a_judgement_is_asked_for<F: Fn(ClientRgb, ClientRgb) -> Option<ClientRgb>>(
    readable: F,
    fg: ClientRgb,
    bg: ClientRgb,
    answer: Option<ClientRgb>,
)
    ensures
        answered(readable, Some((fg, bg)), answer) <==> call_ensures(readable, (fg, bg), answer),
        answered(readable, None, answer) <==> answer is None,
{
}

/// Each answer of a run is to the colours that are shown after the byte before
/// it and what that byte completed.
pub proof fn law_every_step_is_judged<F: Fn(ClientRgb, ClientRgb) -> Option<ClientRgb>>(
    readable: F,
    s: GuardView,
    steps: Seq<(u8, Seq<StyleEvent>)>,
    answers: Seq<Option<ClientRgb>>,
    i: int,
)
    requires
        all_answered(readable, s, steps, answers),
        0 <= i < steps.len(),
    ensures
        answers.len() == steps.len(),
        ({
            let before = run(s, steps.take(i), answers.take(i)).0;
            let now = placed(observed_all(before, steps[i].1), steps[i].0).0;
            &&& now.changed && !now.style.reverse ==> call_ensures(
                readable,
                (resolved(now.theme, now.style.fg), resolved(now.theme, now.style.bg)),
                answers[i],
            )
            &&& !now.changed || now.style.reverse ==> answers[i] is None
        }),
{
    assert(answered(readable, judged_at(s, steps, answers, i), answers[i]));
}

/// At the start the text has the two colours of the theme, is not reversed and
/// not corrected.
pub proof fn law_the_style_at_the_start()
    ensures
        plain_style().fg == TermColor::Foreground,
        plain_style().bg == TermColor::Background,
        !plain_style().reverse,
        plain_style().correction is None,
{
}

/// Each attribute that is reported stands for the one of its own kind.
pub proof fn law_which_attribute_is_reported(attr: vte::ansi::Attr, color: vte::ansi::Color)
    ensures
        variant_named(attr) == Reported::Foreground(color) ==> attribute_named(attr)
            == TextAttribute::Foreground(color_named(color)),
        variant_named(attr) == Reported::Background(color) ==> attribute_named(attr)
            == TextAttribute::Background(color_named(color)),
        variant_named(attr) is Reset <==> attribute_named(attr) is Reset,
        variant_named(attr) is Reverse <==> attribute_named(attr) is Reverse,
        variant_named(attr) is CancelReverse <==> attribute_named(attr) is CancelReverse,
        variant_named(attr) is Other <==> attribute_named(attr) is Other,
{
}

/// What a byte completes depends on all bytes before it: a stream in two parts
/// gives the steps of the first and then those of the second after the first.
pub proof fn law_a_stream_is_read_in_parts(before: Seq<u8>, a: Seq<u8>, b: Seq<u8>, i: int)
    ensures
        steps_of(before, a).len() == a.len(),
        0 <= i < a.len() ==> steps_of(before, a)[i].0 == a[i] && steps_of(before, a)[i].1
            == completed(before + a.take(i), a[i]),
        steps_of(before, a + b) == steps_of(before, a) + steps_of(before + a, b),
{
    let whole = steps_of(before, a + b);
    let parts = steps_of(before, a) + steps_of(before + a, b);
    assert forall|k: int| 0 <= k < whole.len() implies whole[k] == parts[k] by {
        if k < a.len() {
            assert((a + b).take(k) =~= a.take(k));
        } else {
            assert(before + (a + b).take(k) =~= before + a + b.take(k - a.len()));
        }
    }
    assert(whole =~= parts);
}

} // verus!
