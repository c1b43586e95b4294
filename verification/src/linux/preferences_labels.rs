//! The texts of the settings window.
//!
//! A text of the catalogue stands here by its key and is looked up in the
//! user's language; the other texts are the same in every language.
use vstd::prelude::*;
use vstd::string::*;

use crate::text::find::{has_prefix, starts_with};
use crate::text::split::{join, join_strings, split, split_on};
use crate::text::{
    char_to_uppercase, chars_of, concat2, push_char, same, string_of, uppercase_of_char, views,
};

verus! {

/// A text of the window: one of the catalogue by its key, or the text itself.
#[derive(Debug, PartialEq, Eq)]
pub enum SettingText {
    Key(&'static str),
    Plain(String),
}

/// The view of a [`SettingText`].
pub enum SettingTextView {
    Key(Seq<char>),
    Plain(Seq<char>),
}

impl View for SettingText {
    type V = SettingTextView;

    open spec fn view(&self) -> SettingTextView {
        match *self {
            SettingText::Key(key) => SettingTextView::Key(key@),
            SettingText::Plain(text) => SettingTextView::Plain(text@),
        }
    }
}

// ---------------------------------------------------------------------------
// Words.
// ---------------------------------------------------------------------------

/// The character separates the words of a key: an underscore or a hyphen,
/// and in a wide sense a dot or a slash too.
pub open spec fn is_separator(c: char, wide: bool) -> bool {
    c == '_' || c == '-' || (wide && (c == '.' || c == '/'))
}

/// The text with every separator written as an underscore.
pub open spec fn unified(s: Seq<char>, wide: bool) -> Seq<char> {
    s.map_values(
        |c: char|
            if is_separator(c, wide) {
                '_'
            } else {
                c
            },
    )
}

/// A word with a capital letter at its start.
pub open spec fn capitalised(word: Seq<char>) -> Seq<char> {
    uppercase_of_char(word[0]) + word.skip(1)
}

/// The words that are not empty, each with a capital letter.
pub open spec fn capital_words(words: Seq<Seq<char>>) -> Seq<Seq<char>>
    decreases words.len(),
{
    if words.len() == 0 {
        Seq::<Seq<char>>::empty()
    } else {
        let rest = capital_words(words.drop_last());
        if words.last().len() == 0 {
            rest
        } else {
            rest.push(capitalised(words.last()))
        }
    }
}

/// The words of a key as a title.
pub open spec fn titled(s: Seq<char>, wide: bool) -> Seq<char> {
    join(capital_words(split_on(unified(s, wide), '_')), " "@)
}

fn unify(s: &str, wide: bool) -> (r: String)
    ensures
        r@ == unified(s@, wide),
{
    let v = chars_of(s);
    let mut out = String::new();
    let mut i: usize = 0;
    while i < v.len()
        invariant
            i <= v.len(),
            v@ == s@,
            out@ == unified(s@, wide).take(i as int),
        decreases v.len() - i,
    {
        let c = v[i];
        let separator = c == '_' || c == '-' || (wide && (c == '.' || c == '/'));
        push_char(
            &mut out,
            if separator {
                '_'
            } else {
                c
            },
        );
        assert(unified(s@, wide).take(i + 1) =~= unified(s@, wide).take(i as int).push(
            unified(s@, wide)[i as int],
        ));
        i += 1;
    }
    assert(unified(s@, wide).take(i as int) =~= unified(s@, wide));
    out
}

fn title_words(s: &str, wide: bool) -> (r: String)
    ensures
        r@ == titled(s@, wide),
{
    let text = unify(s, wide);
    let words = split(text.as_str(), '_');
    let ghost all = views(words@);
    let mut out: Vec<String> = Vec::new();
    let mut i: usize = 0;
    assert(views(out@) =~= capital_words(all.take(0)));
    while i < words.len()
        invariant
            i <= words.len(),
            all == views(words@),
            views(out@) == capital_words(all.take(i as int)),
        decreases words.len() - i,
    {
        let ghost before = views(out@);
        let letters = chars_of(words[i].as_str());
        assert(all.take(i + 1).drop_last() =~= all.take(i as int));
        assert(all.take(i + 1).last() == letters@);
        if letters.len() > 0 {
            let head = char_to_uppercase(letters[0]);
            let tail = string_of(&letters, 1, letters.len());
            assert(tail@ =~= letters@.skip(1));
            out.push(concat2(head.as_str(), tail.as_str()));
            assert(views(out@) =~= before.push(capitalised(letters@)));
        }
        i += 1;
    }
    assert(all.take(i as int) =~= all);
    join_strings(&out, " ")
}

/// Returns the words of a key or a path as a title.
pub fn humanize_words(raw: &str) -> (r: String)
    ensures
        r@ == titled(raw@, true),
{
    title_words(raw, true)
}

/// The part of a title key behind its prefix, where there is something.
pub open spec fn key_tail(title_key: Seq<char>) -> Option<Seq<char>> {
    let prefix = "settings."@;
    if starts_with(title_key, prefix) && title_key.len() > prefix.len() {
        Some(title_key.skip(prefix.len() as int))
    } else {
        None
    }
}

fn tail_of_key(title_key: &str) -> (r: Option<String>)
    ensures
        match r {
            Some(t) => key_tail(title_key@) == Some(t@),
            None => key_tail(title_key@) is None,
        },
{
    let letters = chars_of(title_key);
    let prefix = chars_of("settings.");
    if has_prefix(&letters, &prefix) && letters.len() > prefix.len() {
        let tail = string_of(&letters, prefix.len(), letters.len());
        assert(tail@ =~= title_key@.skip(prefix@.len() as int));
        Some(tail)
    } else {
        None
    }
}

/// The title of a category: by its title key, else by its id.
pub open spec fn category_name(id: Seq<char>, title_key: Seq<char>) -> Seq<char> {
    titled(
        match key_tail(title_key) {
            Some(t) => t,
            None => id,
        },
        false,
    )
}

/// Returns the title of a category.
pub fn category_title(id: &str, title_key: &str) -> (r: String)
    ensures
        r@ == category_name(id@, title_key@),
{
    match tail_of_key(title_key) {
        Some(tail) => title_words(tail.as_str(), false),
        None => title_words(id, false),
    }
}

// ---------------------------------------------------------------------------
// Categories.
// ---------------------------------------------------------------------------

/// The title of the section of a known category.
pub open spec fn section_words(id: Seq<char>) -> Option<Seq<char>> {
    if id == "appearance"@ {
        Some("Terminal"@)
    } else if id == "runtime"@ {
        Some("Workspace defaults"@)
    } else if id == "attention"@ {
        Some("Attention"@)
    } else if id == "ui"@ {
        Some("Interface"@)
    } else if id == "ssh"@ {
        Some("SSH defaults"@)
    } else if id == "behavior"@ {
        Some("Exit behavior"@)
    } else if id == "platform"@ {
        Some("Platform"@)
    } else if id == "projects"@ {
        Some("Workspace profiles"@)
    } else if id == "shortcuts"@ {
        Some("Keyboard shortcuts"@)
    } else {
        None
    }
}

/// Returns the title of the section of a known category.
pub fn section_word(id: &str) -> (r: Option<&'static str>)
    ensures
        match r {
            Some(t) => section_words(id@) == Some(t@),
            None => section_words(id@) is None,
        },
{
    if same(id, "appearance") {
        Some("Terminal")
    } else if same(id, "runtime") {
        Some("Workspace defaults")
    } else if same(id, "attention") {
        Some("Attention")
    } else if same(id, "ui") {
        Some("Interface")
    } else if same(id, "ssh") {
        Some("SSH defaults")
    } else if same(id, "behavior") {
        Some("Exit behavior")
    } else if same(id, "platform") {
        Some("Platform")
    } else if same(id, "projects") {
        Some("Workspace profiles")
    } else if same(id, "shortcuts") {
        Some("Keyboard shortcuts")
    } else {
        None
    }
}

/// Returns the title of the section of a category.
pub fn section_title(id: &str, title_key: &str) -> (r: String)
    ensures
        r@ == match section_words(id@) {
            Some(t) => t,
            None => category_name(id@, title_key@),
        },
{
    match section_word(id) {
        Some(t) => t.to_owned(),
        None => category_title(id, title_key),
    }
}

/// The icon of a category.
pub open spec fn icon_of(id: Seq<char>) -> Seq<char> {
    if id == "appearance"@ {
        "Aa"@
    } else if id == "runtime"@ {
        "▣"@
    } else if id == "attention"@ {
        "◉"@
    } else if id == "ui"@ {
        "▤"@
    } else if id == "ssh"@ {
        "↗"@
    } else if id == "behavior"@ {
        "↯"@
    } else if id == "platform"@ {
        "⌘"@
    } else if id == "projects"@ {
        "▦"@
    } else if id == "shortcuts"@ {
        "⌨"@
    } else {
        "•"@
    }
}

/// Returns the icon of a category.
pub fn category_icon(id: &str) -> (r: &'static str)
    ensures
        r@ == icon_of(id@),
{
    if same(id, "appearance") {
        "Aa"
    } else if same(id, "runtime") {
        "▣"
    } else if same(id, "attention") {
        "◉"
    } else if same(id, "ui") {
        "▤"
    } else if same(id, "ssh") {
        "↗"
    } else if same(id, "behavior") {
        "↯"
    } else if same(id, "platform") {
        "⌘"
    } else if same(id, "projects") {
        "▦"
    } else if same(id, "shortcuts") {
        "⌨"
    } else {
        "•"
    }
}

/// The hint of a category.
pub open spec fn hint_of(id: Seq<char>) -> Seq<char> {
    if id == "appearance"@ {
        "Fonts & colors"@
    } else if id == "runtime"@ {
        "Workspaces"@
    } else if id == "attention"@ {
        "Agent signals"@
    } else if id == "ui"@ {
        "Window chrome"@
    } else if id == "ssh"@ {
        "Remote access"@
    } else if id == "behavior"@ {
        "Exit rules"@
    } else if id == "platform"@ {
        "Desktop specific"@
    } else if id == "projects"@ {
        "Launch profiles"@
    } else if id == "shortcuts"@ {
        "Keyboard"@
    } else {
        "General"@
    }
}

/// Returns the hint of a category.
pub fn category_hint(id: &str) -> (r: &'static str)
    ensures
        r@ == hint_of(id@),
{
    if same(id, "appearance") {
        "Fonts & colors"
    } else if same(id, "runtime") {
        "Workspaces"
    } else if same(id, "attention") {
        "Agent signals"
    } else if same(id, "ui") {
        "Window chrome"
    } else if same(id, "ssh") {
        "Remote access"
    } else if same(id, "behavior") {
        "Exit rules"
    } else if same(id, "platform") {
        "Desktop specific"
    } else if same(id, "projects") {
        "Launch profiles"
    } else if same(id, "shortcuts") {
        "Keyboard"
    } else {
        "General"
    }
}

/// The description of a category.
pub open spec fn description_of(id: Seq<char>) -> Seq<char> {
    if id == "appearance"@ {
        "Tune the terminal you look at all day: type, scale, and color."@
    } else if id == "runtime"@ {
        "Set defaults for new workspaces, panes, and terminal history."@
    } else if id == "attention"@ {
        "Decide when Muxterm should surface work that needs your attention."@
    } else if id == "ui"@ {
        "Shape the surrounding window chrome and tab bar."@
    } else if id == "ssh"@ {
        "Defaults used when opening remote workspaces over SSH."@
    } else if id == "behavior"@ {
        "Choose what Muxterm does when panes or commands exit."@
    } else if id == "platform"@ {
        "Options specific to the desktop platform you are running on."@
    } else if id == "projects"@ {
        "Save the workspaces you return to most often."@
    } else if id == "shortcuts"@ {
        "Choose a keyboard preset and customize individual actions."@
    } else {
        "Configure this part of Muxterm."@
    }
}

/// Returns the description of a category.
pub fn category_description(id: &str) -> (r: &'static str)
    ensures
        r@ == description_of(id@),
{
    if same(id, "appearance") {
        "Tune the terminal you look at all day: type, scale, and color."
    } else if same(id, "runtime") {
        "Set defaults for new workspaces, panes, and terminal history."
    } else if same(id, "attention") {
        "Decide when Muxterm should surface work that needs your attention."
    } else if same(id, "ui") {
        "Shape the surrounding window chrome and tab bar."
    } else if same(id, "ssh") {
        "Defaults used when opening remote workspaces over SSH."
    } else if same(id, "behavior") {
        "Choose what Muxterm does when panes or commands exit."
    } else if same(id, "platform") {
        "Options specific to the desktop platform you are running on."
    } else if same(id, "projects") {
        "Save the workspaces you return to most often."
    } else if same(id, "shortcuts") {
        "Choose a keyboard preset and customize individual actions."
    } else {
        "Configure this part of Muxterm."
    }
}

// ---------------------------------------------------------------------------
// Fields.
// ---------------------------------------------------------------------------

/// The key of the title of a known field.
pub open spec fn title_key_of(path: Seq<char>) -> Option<Seq<char>> {
    if path == "/ui/tab_bar_style"@ {
        Some("TabBarStyle"@)
    } else if path == "/font/family"@ {
        Some("SettingsFontFamily"@)
    } else if path == "/font/size"@ {
        Some("SettingsFontSize"@)
    } else if path == "/font/fallback"@ {
        Some("SettingsFallbackFonts"@)
    } else if path == "/theme/name"@ {
        Some("SettingsTheme"@)
    } else if path == "/theme/light"@ {
        Some("SettingsLightTheme"@)
    } else if path == "/theme/dark"@ {
        Some("SettingsDarkTheme"@)
    } else if path == "/statusbar/mode"@ {
        Some("SettingsStatusBarAppearance"@)
    } else if path == "/tmux/auto_mouse"@ {
        Some("SettingsEnableTmuxMouseMode"@)
    } else if path == "/tmux/default_session"@ {
        Some("SettingsDefaultWorkspace"@)
    } else if path == "/tmux/socket"@ {
        Some("SettingsTmuxSocket"@)
    } else if path == "/pool/max_slots"@ {
        Some("SettingsWorkspaceReminderLimit"@)
    } else if path == "/scrollback/lines"@ {
        Some("SettingsScrollbackLines"@)
    } else if path == "/pane/default_command"@ {
        Some("SettingsDefaultShellCommand"@)
    } else if path == "/pane/workdir"@ {
        Some("SettingsInitialWorkingDirectory"@)
    } else if path == "/attention/enabled"@ {
        Some("SettingsWorkspaceAttention"@)
    } else if path == "/attention/blocked_regex"@ {
        Some("SettingsBlockedOutputPatterns"@)
    } else if path == "/attention/debounce_ms"@ {
        Some("SettingsNotificationDelay"@)
    } else if path == "/ui/tab_bar_position"@ {
        Some("SettingsTabBarPosition"@)
    } else if path == "/ui/tab_bar_height"@ {
        Some("SettingsTabBarHeight"@)
    } else if path == "/ui/show_title_bar"@ {
        Some("SettingsShowTitleBar"@)
    } else if path == "/ui/borderless"@ {
        Some("SettingsBorderlessWindow"@)
    } else if path == "/ssh/host"@ {
        Some("SettingsDefaultSshHost"@)
    } else if path == "/ssh/port"@ {
        Some("SettingsSshPort"@)
    } else if path == "/ssh/user"@ {
        Some("SettingsSshUser"@)
    } else if path == "/ssh/key_path"@ {
        Some("SettingsSshPrivateKey"@)
    } else if path == "/behavior/on_last_pane_exit"@ {
        Some("SettingsWhenTheLastPaneExits"@)
    } else if path == "/behavior/on_program_exit_abnormal"@ {
        Some("SettingsWhenACommandFails"@)
    } else if path == "/platform/linux/client_side_decorations"@ {
        Some("SettingsClientSideDecorations"@)
    } else if path == "/platform/macos/option_as_alt"@ {
        Some("SettingsTreatOptionAsAlt"@)
    } else if path == "/shortcuts/preset"@ {
        Some("SettingsKeyboardLayout"@)
    } else if path == "/shortcuts/primary_key"@ {
        Some("SettingsPrimaryModifier"@)
    } else if path == "/projects"@ {
        Some("SettingsSavedProjects"@)
    } else if path == "/shortcuts/overrides"@ {
        Some("SettingsCustomShortcuts"@)
    } else {
        None
    }
}

/// Returns the key of the title of a known field.
pub fn title_key(path: &str) -> (r: Option<&'static str>)
    ensures
        match r {
            Some(t) => title_key_of(path@) == Some(t@),
            None => title_key_of(path@) is None,
        },
{
    if same(path, "/ui/tab_bar_style") {
        Some("TabBarStyle")
    } else if same(path, "/font/family") {
        Some("SettingsFontFamily")
    } else if same(path, "/font/size") {
        Some("SettingsFontSize")
    } else if same(path, "/font/fallback") {
        Some("SettingsFallbackFonts")
    } else if same(path, "/theme/name") {
        Some("SettingsTheme")
    } else if same(path, "/theme/light") {
        Some("SettingsLightTheme")
    } else if same(path, "/theme/dark") {
        Some("SettingsDarkTheme")
    } else if same(path, "/statusbar/mode") {
        Some("SettingsStatusBarAppearance")
    } else if same(path, "/tmux/auto_mouse") {
        Some("SettingsEnableTmuxMouseMode")
    } else if same(path, "/tmux/default_session") {
        Some("SettingsDefaultWorkspace")
    } else if same(path, "/tmux/socket") {
        Some("SettingsTmuxSocket")
    } else if same(path, "/pool/max_slots") {
        Some("SettingsWorkspaceReminderLimit")
    } else if same(path, "/scrollback/lines") {
        Some("SettingsScrollbackLines")
    } else if same(path, "/pane/default_command") {
        Some("SettingsDefaultShellCommand")
    } else if same(path, "/pane/workdir") {
        Some("SettingsInitialWorkingDirectory")
    } else if same(path, "/attention/enabled") {
        Some("SettingsWorkspaceAttention")
    } else if same(path, "/attention/blocked_regex") {
        Some("SettingsBlockedOutputPatterns")
    } else if same(path, "/attention/debounce_ms") {
        Some("SettingsNotificationDelay")
    } else if same(path, "/ui/tab_bar_position") {
        Some("SettingsTabBarPosition")
    } else if same(path, "/ui/tab_bar_height") {
        Some("SettingsTabBarHeight")
    } else if same(path, "/ui/show_title_bar") {
        Some("SettingsShowTitleBar")
    } else if same(path, "/ui/borderless") {
        Some("SettingsBorderlessWindow")
    } else if same(path, "/ssh/host") {
        Some("SettingsDefaultSshHost")
    } else if same(path, "/ssh/port") {
        Some("SettingsSshPort")
    } else if same(path, "/ssh/user") {
        Some("SettingsSshUser")
    } else if same(path, "/ssh/key_path") {
        Some("SettingsSshPrivateKey")
    } else if same(path, "/behavior/on_last_pane_exit") {
        Some("SettingsWhenTheLastPaneExits")
    } else if same(path, "/behavior/on_program_exit_abnormal") {
        Some("SettingsWhenACommandFails")
    } else if same(path, "/platform/linux/client_side_decorations") {
        Some("SettingsClientSideDecorations")
    } else if same(path, "/platform/macos/option_as_alt") {
        Some("SettingsTreatOptionAsAlt")
    } else if same(path, "/shortcuts/preset") {
        Some("SettingsKeyboardLayout")
    } else if same(path, "/shortcuts/primary_key") {
        Some("SettingsPrimaryModifier")
    } else if same(path, "/projects") {
        Some("SettingsSavedProjects")
    } else if same(path, "/shortcuts/overrides") {
        Some("SettingsCustomShortcuts")
    } else {
        None
    }
}

/// What stands behind the last slash of a path.
pub open spec fn last_part(path: Seq<char>) -> Seq<char> {
    split_on(path, '/').last()
}

/// The title of a field: a text of the catalogue for a known field, else the
/// words of its title key or of the end of its path.
pub open spec fn title_of_field(path: Seq<char>, title_key: Seq<char>) -> SettingTextView {
    match title_key_of(path) {
        Some(key) => SettingTextView::Key(key),
        None => SettingTextView::Plain(
            titled(
                match key_tail(title_key) {
                    Some(t) => t,
                    None => last_part(path),
                },
                true,
            ),
        ),
    }
}

/// Returns the title of a field.
pub fn field_title(path: &str, name: &str) -> (r: SettingText)
    ensures
        r@ == title_of_field(path@, name@),
{
    match title_key(path) {
        Some(key) => SettingText::Key(key),
        None => match tail_of_key(name) {
            Some(tail) => SettingText::Plain(humanize_words(tail.as_str())),
            None => {
                let parts = split(path, '/');
                assert(views(parts@).last() == parts@.last()@);
                SettingText::Plain(humanize_words(parts[parts.len() - 1].as_str()))
            },
        },
    }
}

/// The key of the description of a field.
pub open spec fn description_key_of(path: Seq<char>) -> Seq<char> {
    if path == "/ui/tab_bar_style"@ {
        "SettingsTabLayoutSizing"@
    } else if path == "/font/family"@ {
        "SettingsTheTypefaceUsedToDrawTerminalText"@
    } else if path == "/font/size"@ {
        "SettingsAdjustTheTerminalScaleWithoutChangingYourDisplaySettings"@
    } else if path == "/font/fallback"@ {
        "SettingsCommaSeparatedFontsUsedWhenThePrimaryFamilyIsMissingAGlyph"@
    } else if path == "/theme/name"@ {
        "SettingsChooseAFixedThemeOrFollowYourSystemAppearance"@
    } else if path == "/theme/light"@ {
        "SettingsThemeUsedWhenTheSystemIsInLightMode"@
    } else if path == "/theme/dark"@ {
        "SettingsThemeUsedWhenTheSystemIsInDarkMode"@
    } else if path == "/statusbar/mode"@ {
        "SettingsUseTmuxColorsOrKeepTheStatusBarInTheMuxtermTheme"@
    } else if path == "/tmux/auto_mouse"@ {
        "SettingsForwardMouseInteractionsToAttachedTmuxWorkspaces"@
    } else if path == "/tmux/default_session"@ {
        "SettingsWorkspaceToAttachOnLaunchLeaveEmptyToStartLocally"@
    } else if path == "/tmux/socket"@ {
        "SettingsOptionalNamedTmuxSocketEmptyUsesTheDefaultServer"@
    } else if path == "/pool/max_slots"@ {
        "SettingsShowAReminderWhenThisManyWarmWorkspacesAreOpen"@
    } else if path == "/scrollback/lines"@ {
        "SettingsHistoryKeptForEachNewlyCreatedPane"@
    } else if path == "/pane/default_command"@ {
        "SettingsCommandStartedForANewLocalPane"@
    } else if path == "/pane/workdir"@ {
        "SettingsDirectoryUsedWhenANewLocalPaneStarts"@
    } else if path == "/attention/enabled"@ {
        "SettingsShowAttentionBadgesWhenAWorkspaceIsWaitingForYou"@
    } else if path == "/attention/blocked_regex"@ {
        "SettingsOneRegularExpressionPerLineThatMarksOutputAsBlocked"@
    } else if path == "/attention/debounce_ms"@ {
        "SettingsWaitThisLongBeforeRaisingANewAttentionSignal"@
    } else if path == "/ui/tab_bar_position"@ {
        "SettingsPlaceTheWorkspaceTabBarAboveOrBelowTheTerminal"@
    } else if path == "/ui/tab_bar_height"@ {
        "SettingsHeightOfTheCompactTabBarInPixels"@
    } else if path == "/ui/show_title_bar"@ {
        "SettingsKeepTheNativeWindowTitleVisible"@
    } else if path == "/ui/borderless"@ {
        "SettingsRemoveTheOuterWindowBorderWhenSupportedByTheDesktop"@
    } else if path == "/ssh/host"@ {
        "SettingsFallbackSshHostUsedByRemoteConnections"@
    } else if path == "/ssh/port"@ {
        "SettingsTcpPortUsedForTheDefaultSshConnection"@
    } else if path == "/ssh/user"@ {
        "SettingsRemoteUserNameEmptyUsesTheCurrentLocalUser"@
    } else if path == "/ssh/key_path"@ {
        "SettingsPrivateKeyPathEmptyAllowsSshAgentToProvideCredentials"@
    } else if path == "/behavior/on_last_pane_exit"@ {
        "SettingsChooseWhatRemainsAfterTheFinalPaneCloses"@
    } else if path == "/behavior/on_program_exit_abnormal"@ {
        "SettingsChooseHowMuxtermHandlesANonZeroCommandExit"@
    } else if path == "/platform/linux/client_side_decorations"@ {
        "SettingsLetMuxtermDrawItsOwnWindowControls"@
    } else if path == "/platform/macos/option_as_alt"@ {
        "SettingsUseTheOptionKeyAsAnAltModifierOnMacos"@
    } else if path == "/shortcuts/preset"@ {
        "SettingsStartFromAQwertyOrColemakActionLayout"@
    } else if path == "/shortcuts/primary_key"@ {
        "SettingsModifierUsedForThePrimaryShortcutSet"@
    } else if path == "/projects"@ {
        "SettingsReusableWorkspaceLaunchProfilesSharedByQuickConnect"@
    } else if path == "/shortcuts/overrides"@ {
        "SettingsOverrideOrDisableIndividualActionBindings"@
    } else {
        "SettingsConfigureThisSettingForNewMuxtermSessions"@
    }
}

/// Returns the key of the description of a field.
pub fn field_description(path: &str) -> (r: &'static str)
    ensures
        r@ == description_key_of(path@),
{
    if same(path, "/ui/tab_bar_style") {
        "SettingsTabLayoutSizing"
    } else if same(path, "/font/family") {
        "SettingsTheTypefaceUsedToDrawTerminalText"
    } else if same(path, "/font/size") {
        "SettingsAdjustTheTerminalScaleWithoutChangingYourDisplaySettings"
    } else if same(path, "/font/fallback") {
        "SettingsCommaSeparatedFontsUsedWhenThePrimaryFamilyIsMissingAGlyph"
    } else if same(path, "/theme/name") {
        "SettingsChooseAFixedThemeOrFollowYourSystemAppearance"
    } else if same(path, "/theme/light") {
        "SettingsThemeUsedWhenTheSystemIsInLightMode"
    } else if same(path, "/theme/dark") {
        "SettingsThemeUsedWhenTheSystemIsInDarkMode"
    } else if same(path, "/statusbar/mode") {
        "SettingsUseTmuxColorsOrKeepTheStatusBarInTheMuxtermTheme"
    } else if same(path, "/tmux/auto_mouse") {
        "SettingsForwardMouseInteractionsToAttachedTmuxWorkspaces"
    } else if same(path, "/tmux/default_session") {
        "SettingsWorkspaceToAttachOnLaunchLeaveEmptyToStartLocally"
    } else if same(path, "/tmux/socket") {
        "SettingsOptionalNamedTmuxSocketEmptyUsesTheDefaultServer"
    } else if same(path, "/pool/max_slots") {
        "SettingsShowAReminderWhenThisManyWarmWorkspacesAreOpen"
    } else if same(path, "/scrollback/lines") {
        "SettingsHistoryKeptForEachNewlyCreatedPane"
    } else if same(path, "/pane/default_command") {
        "SettingsCommandStartedForANewLocalPane"
    } else if same(path, "/pane/workdir") {
        "SettingsDirectoryUsedWhenANewLocalPaneStarts"
    } else if same(path, "/attention/enabled") {
        "SettingsShowAttentionBadgesWhenAWorkspaceIsWaitingForYou"
    } else if same(path, "/attention/blocked_regex") {
        "SettingsOneRegularExpressionPerLineThatMarksOutputAsBlocked"
    } else if same(path, "/attention/debounce_ms") {
        "SettingsWaitThisLongBeforeRaisingANewAttentionSignal"
    } else if same(path, "/ui/tab_bar_position") {
        "SettingsPlaceTheWorkspaceTabBarAboveOrBelowTheTerminal"
    } else if same(path, "/ui/tab_bar_height") {
        "SettingsHeightOfTheCompactTabBarInPixels"
    } else if same(path, "/ui/show_title_bar") {
        "SettingsKeepTheNativeWindowTitleVisible"
    } else if same(path, "/ui/borderless") {
        "SettingsRemoveTheOuterWindowBorderWhenSupportedByTheDesktop"
    } else if same(path, "/ssh/host") {
        "SettingsFallbackSshHostUsedByRemoteConnections"
    } else if same(path, "/ssh/port") {
        "SettingsTcpPortUsedForTheDefaultSshConnection"
    } else if same(path, "/ssh/user") {
        "SettingsRemoteUserNameEmptyUsesTheCurrentLocalUser"
    } else if same(path, "/ssh/key_path") {
        "SettingsPrivateKeyPathEmptyAllowsSshAgentToProvideCredentials"
    } else if same(path, "/behavior/on_last_pane_exit") {
        "SettingsChooseWhatRemainsAfterTheFinalPaneCloses"
    } else if same(path, "/behavior/on_program_exit_abnormal") {
        "SettingsChooseHowMuxtermHandlesANonZeroCommandExit"
    } else if same(path, "/platform/linux/client_side_decorations") {
        "SettingsLetMuxtermDrawItsOwnWindowControls"
    } else if same(path, "/platform/macos/option_as_alt") {
        "SettingsUseTheOptionKeyAsAnAltModifierOnMacos"
    } else if same(path, "/shortcuts/preset") {
        "SettingsStartFromAQwertyOrColemakActionLayout"
    } else if same(path, "/shortcuts/primary_key") {
        "SettingsModifierUsedForThePrimaryShortcutSet"
    } else if same(path, "/projects") {
        "SettingsReusableWorkspaceLaunchProfilesSharedByQuickConnect"
    } else if same(path, "/shortcuts/overrides") {
        "SettingsOverrideOrDisableIndividualActionBindings"
    } else {
        "SettingsConfigureThisSettingForNewMuxtermSessions"
    }
}

/// The key of the text that says when a change takes effect.
pub open spec fn apply_key_of(mode: Seq<char>) -> Seq<char> {
    if mode == "immediate"@ {
        "SettingsLive"@
    } else if mode == "next_workspace"@ {
        "SettingsNextWorkspace"@
    } else {
        "SettingsOnSave"@
    }
}

/// Returns the key of the text that says when a change takes effect.
pub fn apply_label(mode: &str) -> (r: &'static str)
    ensures
        r@ == apply_key_of(mode@),
{
    if same(mode, "immediate") {
        "SettingsLive"
    } else if same(mode, "next_workspace") {
        "SettingsNextWorkspace"
    } else {
        "SettingsOnSave"
    }
}

/// The text of a known option of a field: a key of the catalogue, or the text
/// itself.
pub open spec fn known_option(path: Seq<char>, value: Seq<char>) -> Option<SettingTextView> {
    if path == "/ui/tab_bar_style"@ && value == "equal_width"@ {
        Some(SettingTextView::Key("TabEqualWidth"@))
    } else if path == "/ui/tab_bar_style"@ && value == "compact"@ {
        Some(SettingTextView::Key("TabCompact"@))
    } else if path == "/theme/name"@ && value == "system"@ {
        Some(SettingTextView::Key("SettingsFollowSystem"@))
    } else if path == "/theme/name"@ && value == "black"@ {
        Some(SettingTextView::Key("SettingsBlack"@))
    } else if path == "/theme/name"@ && value == "white"@ {
        Some(SettingTextView::Key("SettingsWhite"@))
    } else if path == "/theme/light"@ && value == "white"@ {
        Some(SettingTextView::Key("SettingsWhite"@))
    } else if path == "/theme/light"@ && value == "black"@ {
        Some(SettingTextView::Key("SettingsBlack"@))
    } else if path == "/theme/dark"@ && value == "white"@ {
        Some(SettingTextView::Key("SettingsWhite"@))
    } else if path == "/theme/dark"@ && value == "black"@ {
        Some(SettingTextView::Key("SettingsBlack"@))
    } else if path == "/statusbar/mode"@ && value == "tmux"@ {
        Some(SettingTextView::Key("SettingsMatchTmux"@))
    } else if path == "/statusbar/mode"@ && value == "theme"@ {
        Some(SettingTextView::Key("SettingsUseMuxtermTheme"@))
    } else if path == "/ui/tab_bar_position"@ && value == "top"@ {
        Some(SettingTextView::Key("SettingsTop"@))
    } else if path == "/ui/tab_bar_position"@ && value == "bottom"@ {
        Some(SettingTextView::Key("SettingsBottom"@))
    } else if path == "/behavior/on_last_pane_exit"@ && value == "close_window"@ {
        Some(SettingTextView::Key("SettingsCloseTheWindow"@))
    } else if path == "/behavior/on_last_pane_exit"@ && value == "keep_empty"@ {
        Some(SettingTextView::Key("SettingsKeepAnEmptyWindow"@))
    } else if path == "/behavior/on_last_pane_exit"@ && value == "new_shell"@ {
        Some(SettingTextView::Key("SettingsOpenANewShell"@))
    } else if path == "/behavior/on_program_exit_abnormal"@ && value == "notify"@ {
        Some(SettingTextView::Key("SettingsKeepAndNotify"@))
    } else if path == "/behavior/on_program_exit_abnormal"@ && value == "close"@ {
        Some(SettingTextView::Key("SettingsCloseThePane"@))
    } else if path == "/behavior/on_program_exit_abnormal"@ && value == "keep"@ {
        Some(SettingTextView::Key("SettingsKeepThePane"@))
    } else if path == "/shortcuts/primary_key"@ && value == "auto"@ {
        Some(SettingTextView::Key("SettingsAutomatic"@))
    } else if path == "/shortcuts/primary_key"@ && value == "alt"@ {
        Some(SettingTextView::Plain("Alt"@))
    } else if path == "/shortcuts/primary_key"@ && value == "command"@ {
        Some(SettingTextView::Plain("Command"@))
    } else if path == "/shortcuts/primary_key"@ && value == "control"@ {
        Some(SettingTextView::Plain("Control"@))
    } else if path == "/shortcuts/primary_key"@ && value == "super"@ {
        Some(SettingTextView::Plain("Super"@))
    } else {
        None
    }
}

/// The text of an option of a field.
pub open spec fn option_text(path: Seq<char>, value: Seq<char>) -> SettingTextView {
    match known_option(path, value) {
        Some(text) => text,
        None => SettingTextView::Plain(titled(value, true)),
    }
}

/// Returns the text of an option of a field.
pub fn option_label(path: &str, value: &str) -> (r: SettingText)
    ensures
        r@ == option_text(path@, value@),
{
    if same(path, "/ui/tab_bar_style") && same(value, "equal_width") {
        SettingText::Key("TabEqualWidth")
    } else if same(path, "/ui/tab_bar_style") && same(value, "compact") {
        SettingText::Key("TabCompact")
    } else if same(path, "/theme/name") && same(value, "system") {
        SettingText::Key("SettingsFollowSystem")
    } else if same(path, "/theme/name") && same(value, "black") {
        SettingText::Key("SettingsBlack")
    } else if same(path, "/theme/name") && same(value, "white") {
        SettingText::Key("SettingsWhite")
    } else if same(path, "/theme/light") && same(value, "white") {
        SettingText::Key("SettingsWhite")
    } else if same(path, "/theme/light") && same(value, "black") {
        SettingText::Key("SettingsBlack")
    } else if same(path, "/theme/dark") && same(value, "white") {
        SettingText::Key("SettingsWhite")
    } else if same(path, "/theme/dark") && same(value, "black") {
        SettingText::Key("SettingsBlack")
    } else if same(path, "/statusbar/mode") && same(value, "tmux") {
        SettingText::Key("SettingsMatchTmux")
    } else if same(path, "/statusbar/mode") && same(value, "theme") {
        SettingText::Key("SettingsUseMuxtermTheme")
    } else if same(path, "/ui/tab_bar_position") && same(value, "top") {
        SettingText::Key("SettingsTop")
    } else if same(path, "/ui/tab_bar_position") && same(value, "bottom") {
        SettingText::Key("SettingsBottom")
    } else if same(path, "/behavior/on_last_pane_exit") && same(value, "close_window") {
        SettingText::Key("SettingsCloseTheWindow")
    } else if same(path, "/behavior/on_last_pane_exit") && same(value, "keep_empty") {
        SettingText::Key("SettingsKeepAnEmptyWindow")
    } else if same(path, "/behavior/on_last_pane_exit") && same(value, "new_shell") {
        SettingText::Key("SettingsOpenANewShell")
    } else if same(path, "/behavior/on_program_exit_abnormal") && same(value, "notify") {
        SettingText::Key("SettingsKeepAndNotify")
    } else if same(path, "/behavior/on_program_exit_abnormal") && same(value, "close") {
        SettingText::Key("SettingsCloseThePane")
    } else if same(path, "/behavior/on_program_exit_abnormal") && same(value, "keep") {
        SettingText::Key("SettingsKeepThePane")
    } else if same(path, "/shortcuts/primary_key") && same(value, "auto") {
        SettingText::Key("SettingsAutomatic")
    } else if same(path, "/shortcuts/primary_key") && same(value, "alt") {
        SettingText::Plain("Alt".to_owned())
    } else if same(path, "/shortcuts/primary_key") && same(value, "command") {
        SettingText::Plain("Command".to_owned())
    } else if same(path, "/shortcuts/primary_key") && same(value, "control") {
        SettingText::Plain("Control".to_owned())
    } else if same(path, "/shortcuts/primary_key") && same(value, "super") {
        SettingText::Plain("Super".to_owned())
    } else {
        SettingText::Plain(humanize_words(value))
    }
}

/// What an empty entry of a field shows.
pub open spec fn placeholder_of(path: Seq<char>) -> SettingTextView {
    if path == "/tmux/default_session"@ {
        SettingTextView::Key("SettingsWorkspaceName"@)
    } else if path == "/tmux/socket"@ {
        SettingTextView::Key("SettingsDefaultSocket"@)
    } else if path == "/pane/default_command"@ {
        SettingTextView::Plain("$SHELL"@)
    } else if path == "/pane/workdir"@ {
        SettingTextView::Plain("$HOME"@)
    } else if path == "/ssh/host"@ {
        SettingTextView::Plain("example.com"@)
    } else if path == "/ssh/user"@ {
        SettingTextView::Key("SettingsOptional"@)
    } else if path == "/ssh/key_path"@ {
        SettingTextView::Plain("~/.ssh/id_ed25519"@)
    } else {
        SettingTextView::Plain(""@)
    }
}

/// Returns what an empty entry of a field shows.
pub fn input_placeholder(path: &str) -> (r: SettingText)
    ensures
        r@ == placeholder_of(path@),
{
    if same(path, "/tmux/default_session") {
        SettingText::Key("SettingsWorkspaceName")
    } else if same(path, "/tmux/socket") {
        SettingText::Key("SettingsDefaultSocket")
    } else if same(path, "/pane/default_command") {
        SettingText::Plain("$SHELL".to_owned())
    } else if same(path, "/pane/workdir") {
        SettingText::Plain("$HOME".to_owned())
    } else if same(path, "/ssh/host") {
        SettingText::Plain("example.com".to_owned())
    } else if same(path, "/ssh/user") {
        SettingText::Key("SettingsOptional")
    } else if same(path, "/ssh/key_path") {
        SettingText::Plain("~/.ssh/id_ed25519".to_owned())
    } else {
        SettingText::Plain("".to_owned())
    }
}

} // verus!
