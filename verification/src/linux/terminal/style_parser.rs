//! The parser of control sequences behind the contrast guard.
//!
//! `vte` reads the bytes; a recorder writes down what each of them completed.
use vstd::prelude::*;

use crate::client::types::ClientRgb;
use crate::linux::terminal::contrast::{StyleEvent, TermColor, TextAttribute};

verus! {

/// A text attribute as `vte` reports it.
#[verifier::external_type_specification]
#[verifier::external_body]
pub struct ExAttr(vte::ansi::Attr);

/// A colour as `vte` reports it.
#[verifier::external_type_specification]
#[verifier::external_body]
pub struct ExColor(vte::ansi::Color);

/// The colour that a colour of `vte` stands for.
pub uninterp spec fn color_named(color: vte::ansi::Color) -> TermColor;

/// `vte::ansi::Color`: the same colour as a value of this library. A named
/// colour other than the two of the theme keeps its number. The result is only
/// named, since a colour of `vte` cannot be looked into here.
#[verifier::external_body]
fn color_of(color: vte::ansi::Color) -> (r: TermColor)
    ensures
        r == color_named(color),
{
    match color {
        vte::ansi::Color::Named(vte::ansi::NamedColor::Foreground) => TermColor::Foreground,
        vte::ansi::Color::Named(vte::ansi::NamedColor::Background) => TermColor::Background,
        vte::ansi::Color::Named(named) => TermColor::Indexed(named as u32),
        vte::ansi::Color::Indexed(index) => TermColor::Indexed(u32::from(index)),
        vte::ansi::Color::Spec(rgb) => TermColor::Spec(ClientRgb(rgb.r, rgb.g, rgb.b)),
    }
}

/// An attribute as far as the guard tells attributes apart, with the colour
/// that `vte` reports.
pub enum Reported {
    Reset,
    Foreground(vte::ansi::Color),
    Background(vte::ansi::Color),
    Reverse,
    CancelReverse,
    Other,
}

/// The variant of an attribute of `vte`.
pub uninterp spec fn variant_named(attr: vte::ansi::Attr) -> Reported;

/// `vte::ansi::Attr`: the same attribute; those that touch neither colour nor
/// reverse video are one. The result is only named, since an attribute of `vte`
/// cannot be looked into here.
#[verifier::external_body]
fn reported(attr: vte::ansi::Attr) -> (r: Reported)
    ensures
        r == variant_named(attr),
{
    match attr {
        vte::ansi::Attr::Reset => Reported::Reset,
        vte::ansi::Attr::Foreground(color) => Reported::Foreground(color),
        vte::ansi::Attr::Background(color) => Reported::Background(color),
        vte::ansi::Attr::Reverse => Reported::Reverse,
        vte::ansi::Attr::CancelReverse => Reported::CancelReverse,
        _ => Reported::Other,
    }
}

/// The attribute that an attribute of `vte` stands for: the one of the same
/// variant, with the same colour.
pub open spec fn attribute_named(attr: vte::ansi::Attr) -> TextAttribute {
    match variant_named(attr) {
        Reported::Reset => TextAttribute::Reset,
        Reported::Foreground(color) => TextAttribute::Foreground(color_named(color)),
        Reported::Background(color) => TextAttribute::Background(color_named(color)),
        Reported::Reverse => TextAttribute::Reverse,
        Reported::CancelReverse => TextAttribute::CancelReverse,
        Reported::Other => TextAttribute::Other,
    }
}

/// Attributes are wanted at the byte that completes them, also inside a
/// synchronized frame, so that no frame is ever held back.
#[derive(Debug, Default)]
pub struct ImmediateAttributes;

impl vte::ansi::Timeout for ImmediateAttributes {
    fn set_timeout(&mut self, _duration: std::time::Duration) {
    }

    fn clear_timeout(&mut self) {
    }

    fn pending_timeout(&self) -> (r: bool)
        ensures
            !r,
    {
        false
    }
}

/// Writes down what the parser reports.
#[derive(Debug)]
pub struct Recorder {
    pub events: Vec<StyleEvent>,
}

impl vte::ansi::Handler for Recorder {
    fn input(&mut self, c: char)
        ensures
            final(self).events@ == old(self).events@.push(StyleEvent::Print(c)),
    {
        self.events.push(StyleEvent::Print(c));
    }

    fn terminal_attribute(&mut self, attr: vte::ansi::Attr)
        ensures
            final(self).events@ == old(self).events@.push(
                StyleEvent::Attribute(attribute_named(attr)),
            ),
    {
        let attribute = match reported(attr) {
            Reported::Reset => TextAttribute::Reset,
            Reported::Foreground(color) => TextAttribute::Foreground(color_of(color)),
            Reported::Background(color) => TextAttribute::Background(color_of(color)),
            Reported::Reverse => TextAttribute::Reverse,
            Reported::CancelReverse => TextAttribute::CancelReverse,
            Reported::Other => TextAttribute::Other,
        };
        self.events.push(StyleEvent::Attribute(attribute));
    }

    fn save_cursor_position(&mut self)
        ensures
            final(self).events@ == old(self).events@.push(StyleEvent::SaveCursor),
    {
        self.events.push(StyleEvent::SaveCursor);
    }

    fn restore_cursor_position(&mut self)
        ensures
            final(self).events@ == old(self).events@.push(StyleEvent::RestoreCursor),
    {
        self.events.push(StyleEvent::RestoreCursor);
    }

    fn reset_state(&mut self)
        ensures
            final(self).events@ == old(self).events@.push(StyleEvent::ResetState),
    {
        self.events.push(StyleEvent::ResetState);
    }
}

/// The parser of one byte stream.
#[verifier::external_body]
pub struct StyleParser {
    processor: vte::ansi::Processor<ImmediateAttributes>,
}

/// The bytes that a parser was handed.
pub uninterp spec fn fed(p: StyleParser) -> Seq<u8>;

/// What `vte::ansi::Processor::advance` reports for one byte to a recorder,
/// after the given bytes were handed over one by one.
pub uninterp spec fn completed(before: Seq<u8>, byte: u8) -> Seq<StyleEvent>;

/// `vte::ansi::Processor::default`: a parser that was handed nothing.
#[verifier::external_body]
fn fresh_parser() -> (r: StyleParser)
    ensures
        fed(r) == Seq::<u8>::empty(),
{
    StyleParser { processor: vte::ansi::Processor::default() }
}

/// `vte::ansi::Processor::advance` on one byte. What it reports depends on the
/// byte and on those before it alone, since no timeout is ever pending; it is
/// only named here.
#[verifier::external_body]
fn advance(p: &mut StyleParser, byte: u8) -> (r: Vec<StyleEvent>)
    ensures
        fed(*final(p)) == fed(*old(p)).push(byte),
        r@ == completed(fed(*old(p)), byte),
{
    let mut recorder = Recorder { events: Vec::new() };
    p.processor.advance(&mut recorder, &[byte]);
    recorder.events
}

impl StyleParser {
    /// A parser at the start of a stream.
    pub fn new() -> (r: Self)
        ensures
            fed(r) == Seq::<u8>::empty(),
    {
        fresh_parser()
    }

    /// Hands the parser one byte and returns what it completed.
    pub fn step(&mut self, byte: u8) -> (r: Vec<StyleEvent>)
        ensures
            fed(*final(self)) == fed(*old(self)).push(byte),
            r@ == completed(fed(*old(self)), byte),
    {
        advance(self, byte)
    }
}

/// The bytes of a packet, each with what it completed after the bytes before.
pub open spec fn steps_of(before: Seq<u8>, data: Seq<u8>) -> Seq<(u8, Seq<StyleEvent>)> {
    Seq::new(data.len(), |i: int| (data[i], completed(before + data.take(i), data[i])))
}

/// A packet is parsed as its parts are, one after the other.
pub proof fn lemma_steps_of_parts(before: Seq<u8>, a: Seq<u8>, b: Seq<u8>)
    ensures
        steps_of(before, a + b) == steps_of(before, a) + steps_of(before + a, b),
{
    let whole = steps_of(before, a + b);
    let parts = steps_of(before, a) + steps_of(before + a, b);
    assert forall|i: int| 0 <= i < whole.len() implies whole[i] == parts[i] by {
        if i < a.len() {
            assert((a + b).take(i) =~= a.take(i));
        } else {
            assert(before + (a + b).take(i) =~= (before + a) + b.take(i - a.len()));
        }
    }
    assert(whole =~= parts);
}

} // verus!
