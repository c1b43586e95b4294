use muxterm_frontend::client::types::{ClientRgb, ClientTheme};
use muxterm_frontend::linux::terminal::contrast::{
    indexed_color, write_rgb, ContrastGuard, StyleEvent, TermColor, TextAttribute,
};
use muxterm_frontend::linux::terminal::font_registry::{
    bundled_font_path, register_bundled_fonts, FontError, FontStep,
};
use muxterm_frontend::linux::terminal::style_parser::StyleParser;
use muxterm_frontend::linux::terminal::styled_text::html_to_ansi;

#[test]
fn the_parser_tells_attributes_and_colours_apart() {
    let reported = |text: &str| {
        let mut parser = StyleParser::new();
        let events: Vec<String> = text
            .bytes()
            .flat_map(|byte| parser.step(byte))
            .map(|event| format!("{event:?}"))
            .collect();
        events
    };
    let attribute =
        |attribute: TextAttribute| vec![format!("{:?}", StyleEvent::Attribute(attribute))];
    let rgb = TermColor::Spec(ClientRgb(1, 2, 3));
    for (text, expected) in [
        ("\x1b[0m", TextAttribute::Reset),
        ("\x1b[31m", TextAttribute::Foreground(TermColor::Indexed(1))),
        ("\x1b[42m", TextAttribute::Background(TermColor::Indexed(2))),
        ("\x1b[38;5;200m", TextAttribute::Foreground(TermColor::Indexed(200))),
        ("\x1b[38;2;1;2;3m", TextAttribute::Foreground(rgb)),
        ("\x1b[48;2;1;2;3m", TextAttribute::Background(rgb)),
        ("\x1b[39m", TextAttribute::Foreground(TermColor::Foreground)),
        ("\x1b[49m", TextAttribute::Background(TermColor::Background)),
        ("\x1b[7m", TextAttribute::Reverse),
        ("\x1b[27m", TextAttribute::CancelReverse),
        ("\x1b[1m", TextAttribute::Other),
    ] {
        assert_eq!(reported(text), attribute(expected), "{text:?}");
    }
    assert_eq!(reported("\x1b7"), vec![format!("{:?}", StyleEvent::SaveCursor)]);
    assert_eq!(reported("\x1b8"), vec![format!("{:?}", StyleEvent::RestoreCursor)]);
    assert_eq!(reported("\x1bc"), vec![format!("{:?}", StyleEvent::ResetState)]);
    assert_eq!(reported("\x1b[?2026h\x1b[7m"), attribute(TextAttribute::Reverse));
}

#[test]
fn preserves_nested_colors_and_escaped_text() {
    let ansi = html_to_ansi("<pre><font color=\"#FF0080\"><b>中&lt;&amp;</b>x</font>y</pre>");
    assert_eq!(
        ansi,
        "\x1b[38;2;255;0;128m\x1b[1m中<&\x1b[0m\x1b[38;2;255;0;128mx\x1b[0my"
    );
}

#[test]
fn plain_text_stays_as_it_is() {
    assert_eq!(html_to_ansi("a > b; \"c\"\n"), "a > b; \"c\"\n");
    assert_eq!(html_to_ansi(""), "");
}

#[test]
fn entities_name_characters() {
    assert_eq!(html_to_ansi("&lt;&gt;&amp;&quot;&apos;"), "<>&\"'");
    assert_eq!(html_to_ansi("&amp;lt;<b>&lt;b&gt;</b>"), "&lt;\x1b[1m<b>\x1b[0m");
    assert_eq!(html_to_ansi("&#x4e2d;&#65;&#x1F600;"), "中A😀");
    assert_eq!(html_to_ansi("&nosuch; & &#xd800; &#99999999999;"), "&nosuch; & &#xd800; &#99999999999;");
    assert_eq!(html_to_ansi("&lt"), "&lt");
}

#[test]
fn every_style_has_its_sequence() {
    assert_eq!(html_to_ansi("<i>a</i>"), "\x1b[3ma\x1b[0m");
    assert_eq!(html_to_ansi("<u>a</u>"), "\x1b[4ma\x1b[0m");
    assert_eq!(html_to_ansi("<strike>a</strike>"), "\x1b[9ma\x1b[0m");
    assert_eq!(html_to_ansi("<blink>a</blink>"), "\x1b[5ma\x1b[0m");
    assert_eq!(
        html_to_ansi("<span style=\"background-color:#010203\">a</span>"),
        "\x1b[48;2;1;2;3ma\x1b[0m"
    );
    assert_eq!(
        html_to_ansi("<span style=\"text-decoration-line:overline\">a</span>"),
        "\x1b[53ma\x1b[0m"
    );
    assert_eq!(html_to_ansi("<font color=\"#12\">a</font>"), "a");
    assert_eq!(html_to_ansi("<font color=\"#zzzzzz\">a</font>"), "a");
}

#[test]
fn an_open_tag_drops_the_rest_and_an_unknown_close_nothing() {
    assert_eq!(html_to_ansi("ab<font color"), "ab");
    assert_eq!(html_to_ansi("a</b>c"), "ac");
    assert_eq!(
        html_to_ansi("<b><i>x</b>y"),
        "\x1b[1m\x1b[3mx\x1b[0my"
    );
}

// ---------------------------------------------------------------------------
// The contrast guard behind a real parser of escape sequences.
// ---------------------------------------------------------------------------

struct Guard {
    parser: StyleParser,
    guard: ContrastGuard,
}

impl Guard {
    fn new(theme: &ClientTheme) -> Self {
        Guard { parser: StyleParser::new(), guard: ContrastGuard::new(theme) }
    }

    fn feed(&mut self, data: &[u8]) -> Vec<u8> {
        self.guard.feed(&mut self.parser, &data.to_vec(), &readable_foreground)
    }
}

fn luminance(rgb: ClientRgb) -> f64 {
    let linear = |c: u8| {
        let c = f64::from(c) / 255.0;
        if c <= 0.04045 {
            c / 12.92
        } else {
            ((c + 0.055) / 1.055).powf(2.4)
        }
    };
    0.2126 * linear(rgb.0) + 0.7152 * linear(rgb.1) + 0.0722 * linear(rgb.2)
}

fn readable_foreground(fg: ClientRgb, bg: ClientRgb) -> Option<ClientRgb> {
    let background = luminance(bg);
    let ratio = |color| {
        let foreground = luminance(color);
        (foreground.max(background) + 0.05) / (foreground.min(background) + 0.05)
    };
    if ratio(fg) >= 2.0 {
        return None;
    }
    let target = if background < 0.179 { 255.0 } else { 0.0 };
    for step in 1..=32 {
        let blend =
            |c: u8| (f64::from(c) + (target - f64::from(c)) * f64::from(step) / 32.0).round() as u8;
        let candidate = ClientRgb(blend(fg.0), blend(fg.1), blend(fg.2));
        if ratio(candidate) >= 4.5 {
            return Some(candidate);
        }
    }
    Some(ClientRgb(target as u8, target as u8, target as u8))
}

fn light_theme() -> ClientTheme {
    ClientTheme {
        name: "light".into(),
        background: ClientRgb(255, 255, 255),
        foreground: ClientRgb(31, 35, 40),
        cursor: ClientRgb(31, 35, 40),
        colors: [ClientRgb(0, 0, 0); 16],
    }
}

#[test]
fn reverse_video_keeps_application_background_and_restores_correction() {
    let mut guard = Guard::new(&light_theme());
    guard.feed(b"\x1b[38;2;248;248;180m");
    let reversed = guard.feed(b"\x1b[7mHTOP");
    assert_eq!(reversed, b"\x1b[7m\x1b[38;2;248;248;180mHTOP");
    let normal = guard.feed(b"\x1b[27mTEXT");
    assert_eq!(normal, b"\x1b[27m\x1b[38;2;116;116;84mTEXT");
}

#[test]
fn synchronized_codex_frame_corrects_colors_before_text_not_after_frame() {
    let body = "\x1b[0;38;2;248;248;180mCODE\x1b[0;48;2;31;31;31mINPUT中文⠁\x1b[0m";
    let mut expected = b"\x1b[?2026h".to_vec();
    expected.extend(Guard::new(&light_theme()).feed(body.as_bytes()));
    expected.extend_from_slice(b"\x1b[?2026l");
    let frame = format!("\x1b[?2026h{body}\x1b[?2026l");
    for split in 0..=frame.len() {
        let mut guard = Guard::new(&light_theme());
        let mut actual = guard.feed(&frame.as_bytes()[..split]);
        actual.extend(guard.feed(&frame.as_bytes()[split..]));
        assert_eq!(actual, expected, "synchronized frame split {split}");
    }
}

#[test]
fn codex_black_composer_keeps_input_visible_and_restores_default() {
    let mut guard = Guard::new(&light_theme());
    let mut expected = b"\x1b[48;2;20;20;20m".to_vec();
    write_rgb(
        &mut expected,
        readable_foreground(light_theme().foreground, ClientRgb(20, 20, 20)).unwrap(),
    );
    expected.extend_from_slice(b"INPUT\x1b[49m\x1b[39mnormal");
    assert_eq!(guard.feed(b"\x1b[48;2;20;20;20mINPUT\x1b[49mnormal"), expected);
    assert_eq!(
        guard.feed(b"\x1b[0;48;2;216;216;216mLIGHT"),
        b"\x1b[0;48;2;216;216;216mLIGHT"
    );
}

#[test]
fn fragmented_sequences_are_identical_and_readable_colors_are_preserved() {
    let readable = b"\x1b[0;38;2;12;123;234mREADABLE";
    assert_eq!(Guard::new(&light_theme()).feed(readable), readable);
    let bytes =
        "\x1b]0;title\x07\x1b[48:2::20:20:20m中文⠁\x1b[31mred\x1b[39mdefault\x1b[0m".as_bytes();
    let expected = Guard::new(&light_theme()).feed(bytes);
    assert!(String::from_utf8_lossy(&expected).contains("red"));
    for split in 0..=bytes.len() {
        let mut guard = Guard::new(&light_theme());
        let mut actual = guard.feed(&bytes[..split]);
        actual.extend(guard.feed(&bytes[split..]));
        assert_eq!(actual, expected, "split {split}");
    }
}

#[test]
fn history_cursor_save_restore_preserves_correction() {
    let mut guard = Guard::new(&light_theme());
    guard.feed(b"\x1b[40m");
    guard.feed(b"\x1b7\x1b[0mhistory\x1b8");
    assert_eq!(guard.feed(b"input\x1b[49m"), b"input\x1b[49m\x1b[39m");
}

#[test]
fn dark_theme_light_composer_and_hidden_text_keep_attributes() {
    let mut theme = light_theme();
    theme.foreground = ClientRgb(230, 232, 235);
    theme.background = ClientRgb(11, 13, 16);
    let mut guard = Guard::new(&theme);
    let mut expected = b"\x1b[48;5;231m".to_vec();
    write_rgb(
        &mut expected,
        readable_foreground(theme.foreground, ClientRgb(255, 255, 255)).unwrap(),
    );
    expected.extend_from_slice(b"\x1b[8msecret");
    assert_eq!(guard.feed(b"\x1b[48;5;231m\x1b[8msecret"), expected);
}

#[test]
fn explicit_dark_input_and_light_syntax_are_readable_without_extreme_colors() {
    for (fg, bg) in [
        (ClientRgb(20, 20, 20), ClientRgb(31, 31, 31)),
        (ClientRgb(248, 248, 242), ClientRgb(255, 255, 255)),
    ] {
        let fixed = readable_foreground(fg, bg).unwrap();
        let a = luminance(fixed);
        let b = luminance(bg);
        assert!((a.max(b) + 0.05) / (a.min(b) + 0.05) >= 4.5);
        assert_ne!(fixed, ClientRgb(0, 0, 0));
        assert_ne!(fixed, ClientRgb(255, 255, 255));
    }
    let mut guard = Guard::new(&light_theme());
    let output = guard.feed(b"\x1b[48;2;31;31;31m\x1b[38;2;20;20;20mINPUT");
    assert!(String::from_utf8_lossy(&output).contains("20;20;20m\x1b[38;2;"));
}

#[test]
fn sparkle_brightness_and_utf8_survive_every_packet_boundary() {
    let bytes =
        "\x1b]0;中文标题\x07\x1b[48;2;31;31;31m\x1b[38;2;40;40;40m⠁⢀文字\x1b[0m".as_bytes();
    let expected = Guard::new(&light_theme()).feed(bytes);
    assert!(String::from_utf8_lossy(&expected).contains("\x1b[38;2;40;40;40m⠁"));
    for split in 0..=bytes.len() {
        let mut guard = Guard::new(&light_theme());
        let mut actual = guard.feed(&bytes[..split]);
        actual.extend(guard.feed(&bytes[split..]));
        assert_eq!(actual, expected, "split {split}");
    }
}

#[test]
fn a_new_theme_is_used_for_the_next_attribute() {
    let mut guard = ContrastGuard::new(&light_theme());
    let mut dark = light_theme();
    dark.background = ClientRgb(0, 0, 0);
    guard.set_theme(&dark);
    assert_eq!(guard.resolve(TermColor::Background), ClientRgb(0, 0, 0));
    assert_eq!(guard.resolve(TermColor::Foreground), dark.foreground);
    assert_eq!(guard.resolve(TermColor::Indexed(300)), dark.foreground);
    let never = |_: ClientRgb, _: ClientRgb| None;
    assert_eq!(guard.feed_steps(&vec![(b'x', vec![StyleEvent::Print('x')])], &never), b"x");
    let red = |_: ClientRgb, _: ClientRgb| Some(ClientRgb(255, 0, 0));
    let step = (b'm', vec![StyleEvent::Attribute(TextAttribute::Other)]);
    assert_eq!(guard.feed_steps(&vec![step], &red), b"m\x1b[38;2;255;0;0m");
}

#[test]
fn palette_has_a_cube_and_greys() {
    assert_eq!(indexed_color(16), ClientRgb(0, 0, 0));
    assert_eq!(indexed_color(231), ClientRgb(255, 255, 255));
    assert_eq!(indexed_color(196), ClientRgb(255, 0, 0));
    assert_eq!(indexed_color(67), ClientRgb(95, 135, 175));
    assert_eq!(indexed_color(232), ClientRgb(8, 8, 8));
    assert_eq!(indexed_color(255), ClientRgb(238, 238, 238));
}

#[test]
fn font_lies_below_the_resources() {
    assert_eq!(bundled_font_path("/opt/app"), "/opt/app/assets/fonts/JetBrainsMono-Regular.ttf");
    assert_eq!(bundled_font_path("/opt/"), "/opt/assets/fonts/JetBrainsMono-Regular.ttf");
    assert_eq!(bundled_font_path(""), "assets/fonts/JetBrainsMono-Regular.ttf");
}

#[test]
fn font_registration_names_what_failed() {
    let path = "/f.ttf";
    assert_eq!(register_bundled_fonts(path, FontStep::Look, true), Ok(FontStep::Configure));
    assert_eq!(register_bundled_fonts(path, FontStep::Configure, true), Ok(FontStep::Install));
    assert_eq!(register_bundled_fonts(path, FontStep::Install, true), Ok(FontStep::Build));
    let message = |step| register_bundled_fonts(path, step, false).unwrap_err().message();
    assert_eq!(message(FontStep::Look), "bundled font missing: /f.ttf");
    assert_eq!(message(FontStep::Configure), "fontconfig current config is null");
    assert_eq!(message(FontStep::Install), "fontconfig rejected bundled font: /f.ttf");
    assert_eq!(
        register_bundled_fonts("a\0b", FontStep::Look, true),
        Err(FontError::PathContainsNul)
    );
}
