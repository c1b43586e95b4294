//! Keeps text readable that an application draws in a colour too close to
//! what is behind it.
//!
//! The guard follows the text attributes of a byte stream and puts colour
//! sequences of its own between the bytes. It holds no screen and changes no
//! byte that passes through. Which colours are too close is the caller's
//! judgement; a correction stands only between whole characters and whole
//! control sequences.
use vstd::prelude::*;
use vstd::string::*;

use crate::client::types::{ClientRgb, ClientTheme};
use crate::linux::terminal::style_parser::{fed, lemma_steps_of_parts, steps_of, StyleParser};
use crate::text::number::{decimal, decimal_string};

verus! {

/// A colour that an attribute selects.
#[derive(Debug, Clone, Copy, PartialEq, Eq, Structural)]
pub enum TermColor {
    Foreground,
    Background,
    /// A number of the palette, or of a further named colour from 256 on.
    Indexed(u32),
    Spec(ClientRgb),
}

/// A text attribute.
#[derive(Debug, Clone, Copy)]
pub enum TextAttribute {
    Reset,
    Foreground(TermColor),
    Background(TermColor),
    Reverse,
    CancelReverse,
    Other,
}

/// What one byte of the stream completed.
#[derive(Debug, Clone, Copy)]
pub enum StyleEvent {
    Print(char),
    Attribute(TextAttribute),
    SaveCursor,
    RestoreCursor,
    ResetState,
}

/// The attributes in force and the colour that was put in place of the
/// foreground.
#[derive(Debug, Clone, Copy)]
pub struct Style {
    pub fg: TermColor,
    pub bg: TermColor,
    pub reverse: bool,
    pub correction: Option<ClientRgb>,
}

/// The attributes after a reset.
pub open spec fn plain_style() -> Style {
    Style {
        fg: TermColor::Foreground,
        bg: TermColor::Background,
        reverse: false,
        correction: None,
    }
}

impl Default for Style {
    fn default() -> (r: Self)
        ensures
            r == plain_style(),
    {
        Style {
            fg: TermColor::Foreground,
            bg: TermColor::Background,
            reverse: false,
            correction: None,
        }
    }
}

/// The byte stream filter.
pub struct ContrastGuard {
    style: Style,
    saved: Style,
    changed: bool,
    theme: ClientTheme,
    printed: Option<char>,
    utf8: Vec<u8>,
}

/// What a guard holds: the attributes in force and those saved with the
/// cursor, whether an attribute changed since the last correction, the theme,
/// the character just printed and the bytes of an unfinished character.
pub struct GuardView {
    pub style: Style,
    pub saved: Style,
    pub changed: bool,
    pub theme: ClientTheme,
    pub printed: Option<char>,
    pub utf8: Seq<u8>,
}

impl View for ContrastGuard {
    type V = GuardView;

    closed spec fn view(&self) -> GuardView {
        GuardView {
            style: self.style,
            saved: self.saved,
            changed: self.changed,
            theme: self.theme,
            printed: self.printed,
            utf8: self.utf8@,
        }
    }
}

// ---------------------------------------------------------------------------
// Colours.
// ---------------------------------------------------------------------------

/// The level of one channel in the six steps of the colour cube.
pub open spec fn cube_level(n: int) -> int {
    if n == 0 {
        0
    } else {
        55 + 40 * n
    }
}

/// The colour of a palette number from 16 to 255: a cube of six levels per
/// channel, then a ramp of greys.
pub open spec fn palette_colour(index: int) -> ClientRgb {
    if index < 232 {
        let n = index - 16;
        ClientRgb(
            cube_level(n / 36) as u8,
            cube_level(n / 6 % 6) as u8,
            cube_level(n % 6) as u8,
        )
    } else {
        let level = (8 + 10 * (index - 232)) as u8;
        ClientRgb(level, level, level)
    }
}

fn cube(n: u32) -> (r: u8)
    requires
        n < 6,
    ensures
        r == cube_level(n as int),
{
    if n == 0 {
        0
    } else {
        (55 + 40 * n) as u8
    }
}

/// Returns the colour of a palette number from 16 to 255.
pub fn indexed_color(index: u32) -> (r: ClientRgb)
    requires
        16 <= index < 256,
    ensures
        r == palette_colour(index as int),
{
    if index < 232 {
        let n: u32 = index - 16;
        ClientRgb(cube(n / 36), cube(n / 6 % 6), cube(n % 6))
    } else {
        let level: u8 = (8 + 10 * (index - 232)) as u8;
        ClientRgb(level, level, level)
    }
}

/// The colour that is shown for `color` under a theme.
pub open spec fn resolved(theme: ClientTheme, color: TermColor) -> ClientRgb {
    match color {
        TermColor::Background => theme.background,
        TermColor::Foreground => theme.foreground,
        TermColor::Spec(rgb) => rgb,
        TermColor::Indexed(index) => if index < 16 {
            theme.colors@[index as int]
        } else if index < 256 {
            palette_colour(index as int)
        } else {
            theme.foreground
        },
    }
}

/// The bytes of a text in ASCII.
pub open spec fn ascii(s: Seq<char>) -> Seq<u8> {
    s.map_values(|c: char| (c as u32) as u8)
}

fn push_ascii(out: &mut Vec<u8>, s: &str)
    ensures
        final(out)@ == old(out)@ + ascii(s@),
{
    let ghost before = out@;
    for c in it: s.chars()
        invariant
            it.seq() == s@,
            out@ == before + ascii(it.seq().take(it.index())),
    {
        #[verifier::truncate]
        let b: u8 = (c as u32) as u8;
        out.push(b);
        assert(ascii(it.seq().take(it.index() + 1)) =~= ascii(it.seq().take(it.index())).push(b));
    }
    assert(s@.take(s@.len() as int) =~= s@);
}

/// The sequence that selects `rgb` for the text.
pub open spec fn rgb_sequence(rgb: ClientRgb) -> Seq<u8> {
    ascii("\x1b[38;2;"@) + ascii(decimal(rgb.0 as nat)) + ascii(";"@) + ascii(
        decimal(rgb.1 as nat),
    ) + ascii(";"@) + ascii(decimal(rgb.2 as nat)) + ascii("m"@)
}

/// Appends the sequence that selects `rgb` for the text.
pub fn write_rgb(out: &mut Vec<u8>, rgb: ClientRgb)
    ensures
        final(out)@ == old(out)@ + rgb_sequence(rgb),
{
    let ghost before = out@;
    push_ascii(out, "\x1b[38;2;");
    push_ascii(out, decimal_string(rgb.0 as u64).as_str());
    push_ascii(out, ";");
    push_ascii(out, decimal_string(rgb.1 as u64).as_str());
    push_ascii(out, ";");
    push_ascii(out, decimal_string(rgb.2 as u64).as_str());
    push_ascii(out, "m");
    assert(out@ =~= before + rgb_sequence(rgb));
}

/// The sequence that gives the text back the colour that the application
/// chose.
pub open spec fn original_foreground(s: GuardView) -> Seq<u8> {
    if s.style.fg == TermColor::Foreground {
        ascii("\x1b[39m"@)
    } else {
        rgb_sequence(resolved(s.theme, s.style.fg))
    }
}

// ---------------------------------------------------------------------------
// The state machine.
// ---------------------------------------------------------------------------

/// The attributes after one more of them.
pub open spec fn styled(style: Style, attribute: TextAttribute) -> Style {
    match attribute {
        TextAttribute::Reset => plain_style(),
        TextAttribute::Foreground(color) => Style { fg: color, correction: None, ..style },
        TextAttribute::Background(color) => Style { bg: color, ..style },
        TextAttribute::Reverse => Style { reverse: true, ..style },
        TextAttribute::CancelReverse => Style { reverse: false, ..style },
        TextAttribute::Other => style,
    }
}

/// The state after one event. A full reset forgets the attributes without a
/// correction of its own.
pub open spec fn observed(s: GuardView, event: StyleEvent) -> GuardView {
    match event {
        StyleEvent::Print(c) => GuardView { printed: Some(c), ..s },
        StyleEvent::Attribute(a) => GuardView { style: styled(s.style, a), changed: true, ..s },
        StyleEvent::SaveCursor => GuardView { saved: s.style, ..s },
        StyleEvent::RestoreCursor => GuardView { style: s.saved, changed: true, ..s },
        StyleEvent::ResetState => GuardView { style: plain_style(), saved: plain_style(), ..s },
    }
}

/// The state after all events of one byte.
pub open spec fn observed_all(s: GuardView, events: Seq<StyleEvent>) -> GuardView
    decreases events.len(),
{
    if events.len() == 0 {
        s
    } else {
        observed(observed_all(s, events.drop_last()), events.last())
    }
}

/// The Braille patterns, which applications use for graduated shades.
pub open spec fn is_decorative(c: char) -> bool {
    '\u{2800}' <= c <= '\u{28ff}'
}

/// Hands one byte on: at once, or together with the character it completes.
/// A decorative character keeps the colour that the application chose.
pub open spec fn placed(s: GuardView, byte: u8) -> (GuardView, Seq<u8>) {
    let nothing = Seq::<u8>::empty();
    if byte < 0x80 {
        (GuardView { utf8: nothing, printed: None, ..s }, s.utf8.push(byte))
    } else {
        let held = s.utf8.push(byte);
        match s.printed {
            Some(c) => {
                let (before, after) = match s.style.correction {
                    Some(rgb) => if is_decorative(c) {
                        (original_foreground(s), rgb_sequence(rgb))
                    } else {
                        (nothing, nothing)
                    },
                    None => (nothing, nothing),
                };
                (GuardView { utf8: nothing, printed: None, ..s }, before + held + after)
            },
            None => if held.len() >= 4 {
                (GuardView { utf8: nothing, ..s }, held)
            } else {
                (GuardView { utf8: held, ..s }, nothing)
            },
        }
    }
}

/// The colours to be judged: those in force after a change, but not in
/// reverse video, where the foreground is what is drawn behind the text.
pub open spec fn judged(s: GuardView) -> Option<(ClientRgb, ClientRgb)> {
    if s.changed && !s.style.reverse {
        Some((resolved(s.theme, s.style.fg), resolved(s.theme, s.style.bg)))
    } else {
        None
    }
}

/// Puts the answer to the judgement into force: the colour to use in place
/// of the foreground, or none.
pub open spec fn corrected(s: GuardView, answer: Option<ClientRgb>) -> (GuardView, Seq<u8>) {
    let settled = GuardView { changed: false, ..s };
    if !s.changed || answer == s.style.correction {
        (settled, Seq::<u8>::empty())
    } else {
        (
            GuardView { style: Style { correction: answer, ..s.style }, ..settled },
            match answer {
                Some(rgb) => rgb_sequence(rgb),
                None => original_foreground(s),
            },
        )
    }
}

/// One byte with its events and the answer to its judgement.
pub open spec fn stepped(
    s: GuardView,
    step: (u8, Seq<StyleEvent>),
    answer: Option<ClientRgb>,
) -> (GuardView, Seq<u8>) {
    let (held, bytes) = placed(observed_all(s, step.1), step.0);
    let (end, correction) = corrected(held, answer);
    (end, bytes + correction)
}

/// A run of bytes.
pub open spec fn run(
    s: GuardView,
    steps: Seq<(u8, Seq<StyleEvent>)>,
    answers: Seq<Option<ClientRgb>>,
) -> (GuardView, Seq<u8>)
    decreases steps.len(),
{
    if steps.len() == 0 {
        (s, Seq::<u8>::empty())
    } else {
        let (mid, bytes) = run(s, steps.drop_last(), answers.drop_last());
        let (end, more) = stepped(mid, steps.last(), answers.last());
        (end, bytes + more)
    }
}

/// What is to be judged at step `i` of a run.
pub open spec fn judged_at(
    s: GuardView,
    steps: Seq<(u8, Seq<StyleEvent>)>,
    answers: Seq<Option<ClientRgb>>,
    i: int,
) -> Option<(ClientRgb, ClientRgb)> {
    judged(placed(observed_all(run(s, steps.take(i), answers.take(i)).0, steps[i].1), steps[i].0).0)
}

/// `answer` is what `readable` gives for the judged colours, or nothing where
/// nothing is judged.
pub open spec fn answered<F: Fn(ClientRgb, ClientRgb) -> Option<ClientRgb>>(
    readable: F,
    colours: Option<(ClientRgb, ClientRgb)>,
    answer: Option<ClientRgb>,
) -> bool {
    match colours {
        Some((fg, bg)) => call_ensures(readable, (fg, bg), answer),
        None => answer is None,
    }
}

/// Every answer of a run is the one that `readable` gave.
pub open spec fn all_answered<F: Fn(ClientRgb, ClientRgb) -> Option<ClientRgb>>(
    readable: F,
    s: GuardView,
    steps: Seq<(u8, Seq<StyleEvent>)>,
    answers: Seq<Option<ClientRgb>>,
) -> bool {
    &&& answers.len() == steps.len()
    &&& forall|i: int|
        0 <= i < steps.len() ==> answered(
            readable,
            #[trigger] judged_at(s, steps, answers, i),
            answers[i],
        )
}

/// The bytes and events of a sequence of steps.
pub open spec fn step_views(steps: Seq<(u8, Vec<StyleEvent>)>) -> Seq<(u8, Seq<StyleEvent>)> {
    Seq::new(steps.len(), |i: int| (steps[i].0, steps[i].1@))
}

fn copy_theme(theme: &ClientTheme) -> (r: ClientTheme)
    ensures
        r == *theme,
{
    ClientTheme {
        name: theme.name.clone(),
        background: theme.background,
        foreground: theme.foreground,
        cursor: theme.cursor,
        colors: theme.colors,
    }
}

impl ContrastGuard {
    /// A guard with plain attributes that holds nothing back.
    pub fn new(theme: &ClientTheme) -> (r: Self)
        ensures
            r@ == (GuardView {
                style: plain_style(),
                saved: plain_style(),
                changed: false,
                theme: *theme,
                printed: None,
                utf8: Seq::<u8>::empty(),
            }),
    {
        ContrastGuard {
            style: Style::default(),
            saved: Style::default(),
            changed: false,
            theme: copy_theme(theme),
            printed: None,
            utf8: Vec::new(),
        }
    }

    /// Takes another theme. Nothing is corrected before the next attribute.
    pub fn set_theme(&mut self, theme: &ClientTheme)
        ensures
            final(self)@ == (GuardView { theme: *theme, ..old(self)@ }),
    {
        self.theme = copy_theme(theme);
    }

    /// Returns the colour that is shown for `color`.
    pub fn resolve(&self, color: TermColor) -> (r: ClientRgb)
        ensures
            r == resolved(self@.theme, color),
    {
        match color {
            TermColor::Background => self.theme.background,
            TermColor::Foreground => self.theme.foreground,
            TermColor::Spec(rgb) => rgb,
            TermColor::Indexed(index) => {
                if index < 16 {
                    self.theme.colors[index as usize]
                } else if index < 256 {
                    indexed_color(index)
                } else {
                    self.theme.foreground
                }
            },
        }
    }

    fn write_original_foreground(&self, out: &mut Vec<u8>)
        ensures
            final(out)@ == old(out)@ + original_foreground(self@),
    {
        if self.style.fg == TermColor::Foreground {
            push_ascii(out, "\x1b[39m");
        } else {
            write_rgb(out, self.resolve(self.style.fg));
        }
    }

    fn terminal_attribute(&mut self, attribute: TextAttribute)
        ensures
            final(self)@ == observed(old(self)@, StyleEvent::Attribute(attribute)),
    {
        match attribute {
            TextAttribute::Reset => {
                self.style = Style::default();
            },
            TextAttribute::Foreground(color) => {
                self.style.fg = color;
                self.style.correction = None;
            },
            TextAttribute::Background(color) => {
                self.style.bg = color;
            },
            TextAttribute::Reverse => {
                self.style.reverse = true;
            },
            TextAttribute::CancelReverse => {
                self.style.reverse = false;
            },
            TextAttribute::Other => {},
        }
        self.changed = true;
    }

    /// Takes note of one event.
    pub fn observe(&mut self, event: StyleEvent)
        ensures
            final(self)@ == observed(old(self)@, event),
    {
        match event {
            StyleEvent::Print(c) => {
                self.printed = Some(c);
            },
            StyleEvent::Attribute(attribute) => self.terminal_attribute(attribute),
            StyleEvent::SaveCursor => {
                self.saved = self.style;
            },
            StyleEvent::RestoreCursor => {
                self.style = self.saved;
                self.changed = true;
            },
            StyleEvent::ResetState => {
                self.style = Style::default();
                self.saved = Style::default();
            },
        }
    }

    fn place(&mut self, byte: u8, out: &mut Vec<u8>)
        ensures
            final(self)@ == placed(old(self)@, byte).0,
            final(out)@ == old(out)@ + placed(old(self)@, byte).1,
    {
        let ghost before = out@;
        let ghost s = self@;
        if byte < 0x80 {
            out.append(&mut self.utf8);
            self.printed = None;
            out.push(byte);
            assert(out@ =~= before + s.utf8.push(byte));
            assert(self.utf8@ =~= Seq::<u8>::empty());
        } else {
            self.utf8.push(byte);
            match self.printed.take() {
                Some(c) => {
                    let decorative = '\u{2800}' <= c && c <= '\u{28ff}';
                    if decorative && self.style.correction.is_some() {
                        self.write_original_foreground(out);
                    }
                    out.append(&mut self.utf8);
                    if decorative {
                        if let Some(rgb) = self.style.correction {
                            write_rgb(out, rgb);
                        }
                    }
                    assert(self.utf8@ =~= Seq::<u8>::empty());
                    assert(out@ =~= before + placed(s, byte).1);
                },
                None => {
                    if self.utf8.len() >= 4 {
                        out.append(&mut self.utf8);
                        assert(self.utf8@ =~= Seq::<u8>::empty());
                    } else {
                        assert(out@ =~= before + Seq::<u8>::empty());
                    }
                },
            }
        }
    }

    fn correct(&mut self, answer: Option<ClientRgb>, out: &mut Vec<u8>)
        ensures
            final(self)@ == corrected(old(self)@, answer).0,
            final(out)@ == old(out)@ + corrected(old(self)@, answer).1,
    {
        let ghost before = out@;
        let was = self.changed;
        self.changed = false;
        let same = match (answer, self.style.correction) {
            (Some(a), Some(b)) => a == b,
            (None, None) => true,
            _ => false,
        };
        if !was || same {
            assert(out@ =~= before + Seq::<u8>::empty());
            return ;
        }
        match answer {
            Some(rgb) => write_rgb(out, rgb),
            None => self.write_original_foreground(out),
        }
        self.style.correction = answer;
    }

    /// Passes a packet of bytes through, which `parser` reads on the way.
    /// `readable` tells which colour to use in place of a foreground that is
    /// too close to its background, if any.
    pub fn feed<F: Fn(ClientRgb, ClientRgb) -> Option<ClientRgb>>(
        &mut self,
        parser: &mut StyleParser,
        data: &Vec<u8>,
        readable: &F,
    ) -> (r: Vec<u8>)
        requires
            forall|fg: ClientRgb, bg: ClientRgb| call_requires(*readable, (fg, bg)),
        ensures
            fed(*final(parser)) == fed(*old(parser)) + data@,
            exists|answers: Seq<Option<ClientRgb>>| #[trigger]
                all_answered(
                    *readable,
                    old(self)@,
                    steps_of(fed(*old(parser)), data@),
                    answers,
                ) && run(old(self)@, steps_of(fed(*old(parser)), data@), answers) == (
                    final(self)@,
                    r@,
                ),
    {
        let ghost before = fed(*parser);
        let ghost wanted = steps_of(before, data@);
        let mut steps: Vec<(u8, Vec<StyleEvent>)> = Vec::new();
        let mut i: usize = 0;
        assert(before + data@.take(0) =~= before);
        assert(step_views(steps@) =~= wanted.take(0));
        while i < data.len()
            invariant
                i <= data.len(),
                before == fed(*old(parser)),
                wanted == steps_of(before, data@),
                fed(*parser) == before + data@.take(i as int),
                step_views(steps@) == wanted.take(i as int),
            decreases data.len() - i,
        {
            let ghost shown = steps@;
            let byte: u8 = data[i];
            let events = parser.step(byte);
            steps.push((byte, events));
            assert(before + data@.take(i + 1) =~= (before + data@.take(i as int)).push(byte));
            assert(step_views(steps@) =~= step_views(shown).push((byte, events@)));
            assert(wanted.take(i + 1) =~= wanted.take(i as int).push(wanted[i as int]));
            i += 1;
        }
        assert(data@.take(i as int) =~= data@);
        assert(wanted.take(i as int) =~= wanted);
        self.feed_steps(&steps, readable)
    }

    /// Passes a packet of bytes through, each with the events it completed.
    /// `readable` tells which colour to use in place of a foreground that is
    /// too close to its background, if any.
    pub fn feed_steps<F: Fn(ClientRgb, ClientRgb) -> Option<ClientRgb>>(
        &mut self,
        steps: &Vec<(u8, Vec<StyleEvent>)>,
        readable: &F,
    ) -> (r: Vec<u8>)
        requires
            forall|fg: ClientRgb, bg: ClientRgb| call_requires(*readable, (fg, bg)),
        ensures
            exists|answers: Seq<Option<ClientRgb>>| #[trigger]
                all_answered(*readable, old(self)@, step_views(steps@), answers) && run(
                    old(self)@,
                    step_views(steps@),
                    answers,
                ) == (final(self)@, r@),
    {
        let ghost start = self@;
        let ghost all = step_views(steps@);
        let ghost mut answers = Seq::<Option<ClientRgb>>::empty();
        let mut out: Vec<u8> = Vec::new();
        let mut i: usize = 0;
        assert(all.take(0) =~= Seq::<(u8, Seq<StyleEvent>)>::empty());
        while i < steps.len()
            invariant
                i <= steps.len(),
                start == old(self)@,
                all == step_views(steps@),
                all_answered(*readable, start, all.take(i as int), answers),
                run(start, all.take(i as int), answers) == (self@, out@),
                forall|fg: ClientRgb, bg: ClientRgb| call_requires(*readable, (fg, bg)),
            decreases steps.len() - i,
        {
            let ghost mid = self@;
            let ghost sent = out@;
            let step = &steps[i];
            let mut k: usize = 0;
            assert(step.1@.take(0) =~= Seq::<StyleEvent>::empty());
            while k < step.1.len()
                invariant
                    k <= step.1.len(),
                    self@ == observed_all(mid, step.1@.take(k as int)),
                decreases step.1.len() - k,
            {
                assert(step.1@.take(k + 1).drop_last() =~= step.1@.take(k as int));
                self.observe(step.1[k]);
                k += 1;
            }
            assert(step.1@.take(k as int) =~= step.1@);
            self.place(step.0, &mut out);
            let answer = if self.changed && !self.style.reverse {
                readable(self.resolve(self.style.fg), self.resolve(self.style.bg))
            } else {
                None
            };
            let ghost held = self@;
            self.correct(answer, &mut out);
            proof {
                let so_far = all.take(i as int);
                let next = all.take(i + 1);
                let more = answers.push(answer);
                assert(next.drop_last() =~= so_far);
                assert(more.drop_last() =~= answers);
                assert(next.last() == (step.0, step.1@));
                assert(out@ =~= sent + stepped(mid, next.last(), answer).1);
                assert(run(start, next, more) == (self@, out@));
                assert forall|j: int| 0 <= j < next.len() implies answered(
                    *readable,
                    #[trigger] judged_at(start, next, more, j),
                    more[j],
                ) by {
                    if j < i {
                        assert(next.take(j) =~= so_far.take(j));
                        assert(more.take(j) =~= answers.take(j));
                        assert(judged_at(start, next, more, j) == judged_at(
                            start,
                            so_far,
                            answers,
                            j,
                        ));
                    } else {
                        assert(next.take(j) =~= so_far);
                        assert(more.take(j) =~= answers);
                    }
                }
                answers = more;
            }
            i += 1;
        }
        assert(all.take(i as int) =~= all);
        out
    }
}

// ---------------------------------------------------------------------------
// Laws.
// ---------------------------------------------------------------------------

/// Where a packet ends makes no difference: two packets give what the two of
/// them in one give.
pub proof fn law_packet_boundaries_do_not_matter(
    s: GuardView,
    first: Seq<(u8, Seq<StyleEvent>)>,
    second: Seq<(u8, Seq<StyleEvent>)>,
    answers: Seq<Option<ClientRgb>>,
    more: Seq<Option<ClientRgb>>,
)
    requires
        first.len() == answers.len(),
        second.len() == more.len(),
    ensures
        ({
            let a = run(s, first, answers);
            let b = run(a.0, second, more);
            run(s, first + second, answers + more) == (b.0, a.1 + b.1)
        }),
    decreases second.len(),
{
    let all = first + second;
    let given = answers + more;
    if second.len() == 0 {
        assert(all =~= first);
        assert(given =~= answers);
        let a = run(s, first, answers);
        assert(a.1 + Seq::<u8>::empty() =~= a.1);
    } else {
        assert(all.drop_last() =~= first + second.drop_last());
        assert(given.drop_last() =~= answers + more.drop_last());
        assert(all.last() == second.last());
        assert(given.last() == more.last());
        law_packet_boundaries_do_not_matter(
            s,
            first,
            second.drop_last(),
            answers,
            more.drop_last(),
        );
        let a = run(s, first, answers);
        let m = run(a.0, second.drop_last(), more.drop_last());
        let e = stepped(m.0, second.last(), more.last());
        assert((a.1 + m.1) + e.1 =~= a.1 + (m.1 + e.1));
    }
}

/// The judgement of two colours is always the same.
pub open spec fn is_settled<F: Fn(ClientRgb, ClientRgb) -> Option<ClientRgb>>(readable: F) -> bool {
    forall|fg: ClientRgb, bg: ClientRgb, a: Option<ClientRgb>, b: Option<ClientRgb>|
        #[trigger] call_ensures(readable, (fg, bg), a) && #[trigger] call_ensures(
            readable,
            (fg, bg),
            b,
        ) ==> a == b
}

proof fn lemma_answers_of_start<F: Fn(ClientRgb, ClientRgb) -> Option<ClientRgb>>(
    readable: F,
    s: GuardView,
    steps: Seq<(u8, Seq<StyleEvent>)>,
    answers: Seq<Option<ClientRgb>>,
)
    requires
        steps.len() > 0,
        all_answered(readable, s, steps, answers),
    ensures
        all_answered(readable, s, steps.drop_last(), answers.drop_last()),
        answered(
            readable,
            judged_at(s, steps, answers, steps.len() - 1),
            answers.last(),
        ),
{
    let init = steps.drop_last();
    let given = answers.drop_last();
    assert forall|i: int| 0 <= i < init.len() implies answered(
        readable,
        #[trigger] judged_at(s, init, given, i),
        given[i],
    ) by {
        assert(init.take(i) =~= steps.take(i));
        assert(given.take(i) =~= answers.take(i));
        assert(judged_at(s, init, given, i) == judged_at(s, steps, answers, i));
    }
    assert(answered(readable, judged_at(s, steps, answers, steps.len() - 1), answers.last()));
}

proof fn lemma_answers_are_unique<F: Fn(ClientRgb, ClientRgb) -> Option<ClientRgb>>(
    readable: F,
    s: GuardView,
    steps: Seq<(u8, Seq<StyleEvent>)>,
    answers: Seq<Option<ClientRgb>>,
    others: Seq<Option<ClientRgb>>,
)
    requires
        is_settled(readable),
        all_answered(readable, s, steps, answers),
        all_answered(readable, s, steps, others),
    ensures
        answers == others,
    decreases steps.len(),
{
    if steps.len() > 0 {
        lemma_answers_of_start(readable, s, steps, answers);
        lemma_answers_of_start(readable, s, steps, others);
        lemma_answers_are_unique(
            readable,
            s,
            steps.drop_last(),
            answers.drop_last(),
            others.drop_last(),
        );
        let n = steps.len() - 1;
        assert(answers.take(n) =~= answers.drop_last());
        assert(others.take(n) =~= others.drop_last());
        assert(judged_at(s, steps, answers, n) == judged_at(s, steps, others, n));
        assert(answers.last() == others.last());
        assert(answers =~= answers.drop_last().push(answers.last()));
        assert(others =~= others.drop_last().push(others.last()));
    } else {
        assert(answers =~= others);
    }
}

proof fn lemma_answers_join<F: Fn(ClientRgb, ClientRgb) -> Option<ClientRgb>>(
    readable: F,
    s: GuardView,
    first: Seq<(u8, Seq<StyleEvent>)>,
    second: Seq<(u8, Seq<StyleEvent>)>,
    answers: Seq<Option<ClientRgb>>,
    more: Seq<Option<ClientRgb>>,
)
    requires
        all_answered(readable, s, first, answers),
        all_answered(readable, run(s, first, answers).0, second, more),
    ensures
        all_answered(readable, s, first + second, answers + more),
{
    let all = first + second;
    let given = answers + more;
    let mid = run(s, first, answers).0;
    assert forall|i: int| 0 <= i < all.len() implies answered(
        readable,
        #[trigger] judged_at(s, all, given, i),
        given[i],
    ) by {
        if i < first.len() {
            assert(all.take(i) =~= first.take(i));
            assert(given.take(i) =~= answers.take(i));
            assert(judged_at(s, all, given, i) == judged_at(s, first, answers, i));
        } else {
            let k = i - first.len();
            assert(all.take(i) =~= first + second.take(k));
            assert(given.take(i) =~= answers + more.take(k));
            law_packet_boundaries_do_not_matter(s, first, second.take(k), answers, more.take(k));
            assert(judged_at(s, all, given, i) == judged_at(mid, second, more, k));
        }
    }
}

/// A stream may be cut anywhere, also inside a character, a control sequence
/// or a synchronized frame: the two parts fed one after the other give what
/// the whole gives, as long as the judgement of two colours does not change.
/// `before` is what the parser was handed before them.
pub proof fn law_cut_makes_no_difference<F: Fn(ClientRgb, ClientRgb) -> Option<ClientRgb>>(
    readable: F,
    s: GuardView,
    before: Seq<u8>,
    a: Seq<u8>,
    b: Seq<u8>,
    first: Seq<Option<ClientRgb>>,
    second: Seq<Option<ClientRgb>>,
    whole: Seq<Option<ClientRgb>>,
)
    requires
        is_settled(readable),
        all_answered(readable, s, steps_of(before, a), first),
        all_answered(
            readable,
            run(s, steps_of(before, a), first).0,
            steps_of(before + a, b),
            second,
        ),
        all_answered(readable, s, steps_of(before, a + b), whole),
    ensures
        ({
            let x = run(s, steps_of(before, a), first);
            let y = run(x.0, steps_of(before + a, b), second);
            run(s, steps_of(before, a + b), whole) == (y.0, x.1 + y.1)
        }),
{
    let p = steps_of(before, a);
    let q = steps_of(before + a, b);
    lemma_steps_of_parts(before, a, b);
    lemma_answers_join(readable, s, p, q, first, second);
    lemma_answers_are_unique(readable, s, p + q, first + second, whole);
    law_packet_boundaries_do_not_matter(s, p, q, first, second);
}

proof fn lemma_events_keep_held_bytes(s: GuardView, events: Seq<StyleEvent>)
    ensures
        observed_all(s, events).utf8 == s.utf8,
        observed_all(s, events).theme == s.theme,
    decreases events.len(),
{
    if events.len() > 0 {
        lemma_events_keep_held_bytes(s, events.drop_last());
    }
}

/// Never more than three bytes are held back, fewer than any character with a
/// further byte needs.
pub proof fn law_held_bytes_are_part_of_one_character(
    s: GuardView,
    steps: Seq<(u8, Seq<StyleEvent>)>,
    answers: Seq<Option<ClientRgb>>,
)
    requires
        s.utf8.len() < 4,
        steps.len() == answers.len(),
    ensures
        run(s, steps, answers).0.utf8.len() < 4,
    decreases steps.len(),
{
    if steps.len() > 0 {
        law_held_bytes_are_part_of_one_character(s, steps.drop_last(), answers.drop_last());
        let mid = run(s, steps.drop_last(), answers.drop_last()).0;
        lemma_events_keep_held_bytes(mid, steps.last().1);
    }
}

/// The bytes of a sequence of steps.
pub open spec fn bytes_of(steps: Seq<(u8, Seq<StyleEvent>)>) -> Seq<u8> {
    steps.map_values(|step: (u8, Seq<StyleEvent>)| step.0)
}

proof fn lemma_events_add_no_correction(s: GuardView, events: Seq<StyleEvent>)
    requires
        s.style.correction is None,
        s.saved.correction is None,
    ensures
        observed_all(s, events).style.correction is None,
        observed_all(s, events).saved.correction is None,
    decreases events.len(),
{
    if events.len() > 0 {
        lemma_events_add_no_correction(s, events.drop_last());
    }
}

/// A stream whose colours are all readable passes unchanged: what came out
/// and what is still held are the bytes that went in.
pub proof fn law_readable_stream_passes_unchanged(
    s: GuardView,
    steps: Seq<(u8, Seq<StyleEvent>)>,
    answers: Seq<Option<ClientRgb>>,
)
    requires
        s.style.correction is None,
        s.saved.correction is None,
        steps.len() == answers.len(),
        forall|i: int| 0 <= i < answers.len() ==> (#[trigger] answers[i]) is None,
    ensures
        ({
            let end = run(s, steps, answers);
            end.1 + end.0.utf8 == s.utf8 + bytes_of(steps)
        }),
        run(s, steps, answers).0.style.correction is None,
        run(s, steps, answers).0.saved.correction is None,
    decreases steps.len(),
{
    if steps.len() == 0 {
        assert(Seq::<u8>::empty() + s.utf8 =~= s.utf8 + bytes_of(steps));
    } else {
        let init = steps.drop_last();
        let given = answers.drop_last();
        assert forall|i: int| 0 <= i < given.len() implies (#[trigger] given[i]) is None by {
            assert(given[i] == answers[i]);
        }
        law_readable_stream_passes_unchanged(s, init, given);
        let mid = run(s, init, given);
        let step = steps.last();
        lemma_events_keep_held_bytes(mid.0, step.1);
        lemma_events_add_no_correction(mid.0, step.1);
        let seen = observed_all(mid.0, step.1);
        let held = placed(seen, step.0);
        assert(answers.last() is None);
        let end = corrected(held.0, answers.last());
        assert(end.1 =~= Seq::<u8>::empty());
        assert(held.1 + held.0.utf8 =~= seen.utf8.push(step.0));
        assert(bytes_of(steps) =~= bytes_of(init).push(step.0));
        let all = run(s, steps, answers);
        assert(all.1 + all.0.utf8 =~= mid.1 + (held.1 + held.0.utf8));
        assert(mid.1 + mid.0.utf8.push(step.0) =~= (mid.1 + mid.0.utf8).push(step.0));
        assert((s.utf8 + bytes_of(init)).push(step.0) =~= s.utf8 + bytes_of(steps));
    }
}

/// In reverse video no correction is in force once an attribute was seen.
pub proof fn law_reverse_video_is_not_corrected(s: GuardView, byte: u8, events: Seq<StyleEvent>)
    requires
        observed_all(s, events).changed,
        observed_all(s, events).style.reverse,
    ensures
        judged(placed(observed_all(s, events), byte).0) is None,
        stepped(s, (byte, events), None).0.style.correction is None,
{
}

} // verus!
