//! Themes, the look of the status bar and the language.
use vstd::prelude::*;
use vstd::string::*;

use crate::client::types::{ClientRgb, ClientTheme};
use crate::linux::quick_pick_model::QuickPickItem;
use crate::linux::target_config_window::{
    generation_after, law_later_request_makes_token_stale, next_generation,
};
use crate::linux::window_chrome::{css_colour, hex_colour};
use crate::text::order::{ascii_lower, ascii_lowercase};
use crate::text::{is_blank, opt_view, same, trimmed};

verus! {

// ---------------------------------------------------------------------------
// The size of the font.
// ---------------------------------------------------------------------------

/// How long a new size of the font waits until it is written, in milliseconds.
pub const FONT_PERSIST_MS: u64 = 300;

/// Numbers the changes of the size of the font, so that only the last of those
/// that follow one another is written.
#[derive(Debug)]
pub struct FontPersist {
    generation: u64,
}

impl View for FontPersist {
    type V = u64;

    closed spec fn view(&self) -> u64 {
        self.generation
    }
}

impl Default for FontPersist {
    fn default() -> (r: Self)
        ensures
            r@ == 0,
    {
        FontPersist { generation: 0 }
    }
}

impl FontPersist {
    /// Takes in a change of the size, and returns the token of the timer that
    /// writes it; there is none where the size stays as it is.
    pub fn schedule_font_persist(&mut self, changed: bool) -> (r: Option<u64>)
        ensures
            if changed {
                final(self)@ == next_generation(old(self)@) && r == Some(final(self)@)
            } else {
                final(self)@ == old(self)@ && r is None
            },
    {
        if changed {
            self.generation = self.generation.wrapping_add(1);
            Some(self.generation)
        } else {
            None
        }
    }

    /// Tells whether a timer writes its size: it does unless another change
    /// followed.
    pub fn font_timer(&self, token: u64) -> (r: bool)
        ensures
            r == (token == self@),
    {
        token == self.generation
    }
}

/// Of changes that follow one another only the last is written: each of the
/// `n` changes after one makes its timer write nothing.
pub proof fn law_only_the_last_size_is_written(token: u64, n: nat)
    requires
        n <= u64::MAX,
    ensures
        token == generation_after(token, n) <==> n == 0,
{
    if n > 0 {
        law_later_request_makes_token_stale(token, n);
    }
}

// ---------------------------------------------------------------------------
// Themes.
// ---------------------------------------------------------------------------

/// Where the status bar takes its colours from.
#[derive(Debug, Clone, Copy, PartialEq, Eq, Structural)]
pub enum StatusBarMode {
    Tmux,
    Theme,
}

/// The other mode.
pub open spec fn other_mode(mode: StatusBarMode) -> StatusBarMode {
    match mode {
        StatusBarMode::Tmux => StatusBarMode::Theme,
        StatusBarMode::Theme => StatusBarMode::Tmux,
    }
}

/// The name of a mode.
pub open spec fn mode_name(mode: StatusBarMode) -> Seq<char> {
    match mode {
        StatusBarMode::Tmux => "tmux"@,
        StatusBarMode::Theme => "theme"@,
    }
}

impl StatusBarMode {
    /// Returns the name of the mode.
    pub fn as_str(self) -> (r: &'static str)
        ensures
            r@ == mode_name(self),
    {
        match self {
            StatusBarMode::Tmux => "tmux",
            StatusBarMode::Theme => "theme",
        }
    }
}

/// Returns the mode that a toggle leads to; it is stored under
/// `statusbar.mode`.
pub fn toggle_status_mode(mode: StatusBarMode) -> (r: StatusBarMode)
    ensures
        r == other_mode(mode),
{
    match mode {
        StatusBarMode::Tmux => StatusBarMode::Theme,
        StatusBarMode::Theme => StatusBarMode::Tmux,
    }
}

/// Toggling twice changes nothing.
pub proof fn law_mode_toggles_back(mode: StatusBarMode)
    ensures
        other_mode(other_mode(mode)) == mode,
{
}

/// Returns the theme that the palette offers to switch to.
pub fn next_theme(current: &str) -> (r: &'static str)
    ensures
        r@ == if ascii_lower(current@) == "dark"@ {
            "Light"@
        } else {
            "Dark"@
        },
{
    let name = ascii_lowercase(current);
    if same(name.as_str(), "dark") {
        "Light"
    } else {
        "Dark"
    }
}

/// How a switch of themes ended: the new theme, or why the old one stays.
#[derive(Debug)]
pub enum ThemeSwitch {
    Applied { name: String, theme: ClientTheme },
    NotSaved,
    NotResolved,
}

/// Returns how a switch to `name` ended: `reply` is what the core answered
/// to the stored name, with the theme it resolved.
pub fn toggle_theme(name: &str, reply: Result<Option<ClientTheme>, ()>) -> (r: ThemeSwitch)
    ensures
        match reply {
            Err(_) => r is NotSaved,
            Ok(None) => r is NotResolved,
            Ok(Some(theme)) => r matches ThemeSwitch::Applied { name: n, theme: t } && n@ == name@
                && t == theme,
        },
{
    match reply {
        Err(_) => ThemeSwitch::NotSaved,
        Ok(None) => ThemeSwitch::NotResolved,
        Ok(Some(theme)) => ThemeSwitch::Applied { name: name.to_owned(), theme },
    }
}

/// The theme that the window shows, and the name it goes by.
#[derive(Debug)]
pub struct ShownTheme {
    pub name: String,
    pub theme: ClientTheme,
}

/// Returns the theme that a changed configuration leads to: the one that the
/// core resolved, else the fallback. Its name is kept in lower case.
pub fn apply_config_snapshot(
    theme_name: &str,
    resolved: Option<ClientTheme>,
    fallback: ClientTheme,
) -> (r: ShownTheme)
    ensures
        r.name@ == ascii_lower(theme_name@),
        r.theme == match resolved {
            Some(theme) => theme,
            None => fallback,
        },
{
    ShownTheme {
        name: ascii_lowercase(theme_name),
        theme: match resolved {
            Some(theme) => theme,
            None => fallback,
        },
    }
}

/// Returns the colours of text and background that the runtime is told of;
/// only tmux is told.
pub fn report_all_pane_colours(uses_tmux: bool, fg: ClientRgb, bg: ClientRgb) -> (r: Option<
    (String, String),
>)
    ensures
        match r {
            Some((f, b)) => uses_tmux && f@ == hex_colour(fg) && b@ == hex_colour(bg),
            None => !uses_tmux,
        },
{
    if uses_tmux {
        Some((css_colour(fg), css_colour(bg)))
    } else {
        None
    }
}

/// Returns the path of the configuration to edit, where the core named one.
pub fn preferences_path(path: Option<String>) -> (r: Option<String>)
    ensures
        r == (match path {
            Some(p) => if trimmed(p@).len() > 0 {
                Some(p)
            } else {
                None
            },
            None => None,
        }),
{
    match path {
        Some(p) => {
            if is_blank(p.as_str()) {
                None
            } else {
                Some(p)
            }
        },
        None => None,
    }
}

// ---------------------------------------------------------------------------
// The language.
// ---------------------------------------------------------------------------

/// A language of the user interface.
#[derive(Debug, Clone, Copy, PartialEq, Eq, Structural)]
pub enum Language {
    System,
    English,
    SimplifiedChinese,
}

/// The tag of a language.
pub open spec fn language_tag(language: Language) -> Seq<char> {
    match language {
        Language::System => "system"@,
        Language::English => "en"@,
        Language::SimplifiedChinese => "zh-CN"@,
    }
}

/// The language with a tag; English where the tag is none.
pub open spec fn tagged_language(tag: Seq<char>) -> Language {
    if tag == "system"@ {
        Language::System
    } else if tag == "zh-CN"@ {
        Language::SimplifiedChinese
    } else {
        Language::English
    }
}

impl Language {
    /// Returns the tag of the language.
    pub fn tag(self) -> (r: &'static str)
        ensures
            r@ == language_tag(self),
    {
        match self {
            Language::System => "system",
            Language::English => "en",
            Language::SimplifiedChinese => "zh-CN",
        }
    }

    /// Returns the language that an item of the list stands for.
    pub fn picked(id: &str) -> (r: Language)
        ensures
            r == tagged_language(id@),
    {
        if same(id, "system") {
            Language::System
        } else if same(id, "zh-CN") {
            Language::SimplifiedChinese
        } else {
            Language::English
        }
    }
}

/// The language that an item was made for is the one it stands for.
pub proof fn law_picked_language_is_the_listed_one(language: Language)
    ensures
        tagged_language(language_tag(language)) == language,
{
    reveal_strlit("system");
    reveal_strlit("zh-CN");
    reveal_strlit("en");
    assert("system"@.len() == 6);
    assert("zh-CN"@.len() == 5);
    assert("en"@.len() == 2);
}

/// An item of the list of languages: its name, marked where it is the one in
/// use.
pub open spec fn is_language_item(
    item: QuickPickItem,
    language: Language,
    name: Seq<char>,
    current: Language,
    mark: Seq<char>,
) -> bool {
    &&& item.id@ == language_tag(language)
    &&& item.label@ == name
    &&& opt_view(item.detail) == if language == current {
        Some(mark)
    } else {
        None
    }
}

fn language_item(language: Language, name: &str, current: Language, mark: &str) -> (r:
    QuickPickItem)
    ensures
        is_language_item(r, language, name@, current, mark@),
{
    QuickPickItem {
        id: language.tag().to_owned(),
        label: name.to_owned(),
        detail: if language == current {
            Some(mark.to_owned())
        } else {
            None
        },
    }
}

/// Returns the list of languages. The names are given in the user's language,
/// and so is the mark of the language in use.
pub fn language_items(
    system: &str,
    english: &str,
    chinese: &str,
    current: Language,
    mark: &str,
) -> (r: Vec<QuickPickItem>)
    ensures
        r@.len() == 3,
        is_language_item(r@[0], Language::System, system@, current, mark@),
        is_language_item(r@[1], Language::English, english@, current, mark@),
        is_language_item(r@[2], Language::SimplifiedChinese, chinese@, current, mark@),
{
    let mut items: Vec<QuickPickItem> = Vec::new();
    items.push(language_item(Language::System, system, current, mark));
    items.push(language_item(Language::English, english, current, mark));
    items.push(language_item(Language::SimplifiedChinese, chinese, current, mark));
    items
}

} // verus!
