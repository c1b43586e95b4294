//! The words of the settings: titles, hints, descriptions and ranges, each for
//! its own page or path.
use vstd::prelude::*;

use crate::linux::preferences_fields::{range_of, NumberRange};
use crate::linux::preferences_labels::{
    apply_key_of, description_key_of, description_of, hint_of, icon_of, option_text,
    placeholder_of, section_words, title_key_of, titled, SettingTextView,
};

verus! {

proof fn lemma_pages_differ()
    ensures
        "appearance"@.len() == 10,
        "runtime"@.len() == 7,
        "attention"@.len() == 9,
        "ui"@.len() == 2,
        "ssh"@.len() == 3,
        "behavior"@.len() == 8,
        "platform"@.len() == 8,
        "projects"@.len() == 8,
        "shortcuts"@.len() == 9,
        "behavior"@ != "platform"@,
        "behavior"@ != "projects"@,
        "platform"@ != "projects"@,
        "attention"@ != "shortcuts"@,
{
    reveal_strlit("appearance");
    reveal_strlit("runtime");
    reveal_strlit("attention");
    reveal_strlit("ui");
    reveal_strlit("ssh");
    reveal_strlit("behavior");
    reveal_strlit("platform");
    reveal_strlit("projects");
    reveal_strlit("shortcuts");
    assert("behavior"@[0] != "platform"@[0]);
    assert("behavior"@[0] != "projects"@[0]);
    assert("platform"@[1] != "projects"@[1]);
    assert("attention"@[0] != "shortcuts"@[0]);
}

proof fn lemma_paths_differ()
    ensures
        "/ui/tab_bar_style"@.len() == 17,
        "/font/family"@.len() == 12,
        "/font/size"@.len() == 10,
        "/font/fallback"@.len() == 14,
        "/theme/name"@.len() == 11,
        "/theme/light"@.len() == 12,
        "/theme/dark"@.len() == 11,
        "/statusbar/mode"@.len() == 15,
        "/tmux/auto_mouse"@.len() == 16,
        "/tmux/default_session"@.len() == 21,
        "/tmux/socket"@.len() == 12,
        "/pool/max_slots"@.len() == 15,
        "/scrollback/lines"@.len() == 17,
        "/pane/default_command"@.len() == 21,
        "/pane/workdir"@.len() == 13,
        "/attention/enabled"@.len() == 18,
        "/attention/blocked_regex"@.len() == 24,
        "/attention/debounce_ms"@.len() == 22,
        "/ui/tab_bar_position"@.len() == 20,
        "/ui/tab_bar_height"@.len() == 18,
        "/ui/show_title_bar"@.len() == 18,
        "/ui/borderless"@.len() == 14,
        "/ssh/host"@.len() == 9,
        "/ssh/port"@.len() == 9,
        "/ssh/user"@.len() == 9,
        "/ssh/key_path"@.len() == 13,
        "/behavior/on_last_pane_exit"@.len() == 27,
        "/behavior/on_program_exit_abnormal"@.len() == 34,
        "/platform/linux/client_side_decorations"@.len() == 39,
        "/platform/macos/option_as_alt"@.len() == 29,
        "/shortcuts/preset"@.len() == 17,
        "/shortcuts/primary_key"@.len() == 22,
        "/projects"@.len() == 9,
        "/shortcuts/overrides"@.len() == 20,
        "/font/family"@ != "/theme/light"@,
        "/theme/name"@ != "/theme/dark"@,
        "/font/family"@ != "/tmux/socket"@,
        "/theme/light"@ != "/tmux/socket"@,
        "/statusbar/mode"@ != "/pool/max_slots"@,
        "/ui/tab_bar_style"@ != "/scrollback/lines"@,
        "/tmux/default_session"@ != "/pane/default_command"@,
        "/attention/enabled"@ != "/ui/tab_bar_height"@,
        "/attention/enabled"@ != "/ui/show_title_bar"@,
        "/ui/tab_bar_height"@ != "/ui/show_title_bar"@,
        "/font/fallback"@ != "/ui/borderless"@,
        "/ssh/host"@ != "/ssh/port"@,
        "/ssh/host"@ != "/ssh/user"@,
        "/ssh/port"@ != "/ssh/user"@,
        "/pane/workdir"@ != "/ssh/key_path"@,
        "/ui/tab_bar_style"@ != "/shortcuts/preset"@,
        "/scrollback/lines"@ != "/shortcuts/preset"@,
        "/attention/debounce_ms"@ != "/shortcuts/primary_key"@,
        "/ssh/host"@ != "/projects"@,
        "/ssh/port"@ != "/projects"@,
        "/ssh/user"@ != "/projects"@,
        "/ui/tab_bar_position"@ != "/shortcuts/overrides"@,
{
    reveal_strlit("/ui/tab_bar_style");
    reveal_strlit("/font/family");
    reveal_strlit("/font/size");
    reveal_strlit("/font/fallback");
    reveal_strlit("/theme/name");
    reveal_strlit("/theme/light");
    reveal_strlit("/theme/dark");
    reveal_strlit("/statusbar/mode");
    reveal_strlit("/tmux/auto_mouse");
    reveal_strlit("/tmux/default_session");
    reveal_strlit("/tmux/socket");
    reveal_strlit("/pool/max_slots");
    reveal_strlit("/scrollback/lines");
    reveal_strlit("/pane/default_command");
    reveal_strlit("/pane/workdir");
    reveal_strlit("/attention/enabled");
    reveal_strlit("/attention/blocked_regex");
    reveal_strlit("/attention/debounce_ms");
    reveal_strlit("/ui/tab_bar_position");
    reveal_strlit("/ui/tab_bar_height");
    reveal_strlit("/ui/show_title_bar");
    reveal_strlit("/ui/borderless");
    reveal_strlit("/ssh/host");
    reveal_strlit("/ssh/port");
    reveal_strlit("/ssh/user");
    reveal_strlit("/ssh/key_path");
    reveal_strlit("/behavior/on_last_pane_exit");
    reveal_strlit("/behavior/on_program_exit_abnormal");
    reveal_strlit("/platform/linux/client_side_decorations");
    reveal_strlit("/platform/macos/option_as_alt");
    reveal_strlit("/shortcuts/preset");
    reveal_strlit("/shortcuts/primary_key");
    reveal_strlit("/projects");
    reveal_strlit("/shortcuts/overrides");
    assert("/font/family"@[1] != "/theme/light"@[1]);
    assert("/theme/name"@[7] != "/theme/dark"@[7]);
    assert("/font/family"@[1] != "/tmux/socket"@[1]);
    assert("/theme/light"@[2] != "/tmux/socket"@[2]);
    assert("/statusbar/mode"@[1] != "/pool/max_slots"@[1]);
    assert("/ui/tab_bar_style"@[1] != "/scrollback/lines"@[1]);
    assert("/tmux/default_session"@[1] != "/pane/default_command"@[1]);
    assert("/attention/enabled"@[1] != "/ui/tab_bar_height"@[1]);
    assert("/attention/enabled"@[1] != "/ui/show_title_bar"@[1]);
    assert("/ui/tab_bar_height"@[4] != "/ui/show_title_bar"@[4]);
    assert("/font/fallback"@[1] != "/ui/borderless"@[1]);
    assert("/ssh/host"@[5] != "/ssh/port"@[5]);
    assert("/ssh/host"@[5] != "/ssh/user"@[5]);
    assert("/ssh/port"@[5] != "/ssh/user"@[5]);
    assert("/pane/workdir"@[1] != "/ssh/key_path"@[1]);
    assert("/ui/tab_bar_style"@[1] != "/shortcuts/preset"@[1]);
    assert("/scrollback/lines"@[2] != "/shortcuts/preset"@[2]);
    assert("/attention/debounce_ms"@[1] != "/shortcuts/primary_key"@[1]);
    assert("/ssh/host"@[1] != "/projects"@[1]);
    assert("/ssh/port"@[1] != "/projects"@[1]);
    assert("/ssh/user"@[1] != "/projects"@[1]);
    assert("/ui/tab_bar_position"@[1] != "/shortcuts/overrides"@[1]);
}

proof fn lemma_modes_differ()
    ensures
        "immediate"@.len() == 9,
        "next_workspace"@.len() == 14,
{
    reveal_strlit("immediate");
    reveal_strlit("next_workspace");
}

proof fn lemma_option_paths_differ()
    ensures
        "/ui/tab_bar_style"@.len() == 17,
        "/theme/name"@.len() == 11,
        "/theme/light"@.len() == 12,
        "/theme/dark"@.len() == 11,
        "/statusbar/mode"@.len() == 15,
        "/ui/tab_bar_position"@.len() == 20,
        "/behavior/on_last_pane_exit"@.len() == 27,
        "/behavior/on_program_exit_abnormal"@.len() == 34,
        "/shortcuts/primary_key"@.len() == 22,
        "/theme/name"@ != "/theme/dark"@,
{
    reveal_strlit("/ui/tab_bar_style");
    reveal_strlit("/theme/name");
    reveal_strlit("/theme/light");
    reveal_strlit("/theme/dark");
    reveal_strlit("/statusbar/mode");
    reveal_strlit("/ui/tab_bar_position");
    reveal_strlit("/behavior/on_last_pane_exit");
    reveal_strlit("/behavior/on_program_exit_abnormal");
    reveal_strlit("/shortcuts/primary_key");
    assert("/theme/name"@[7] != "/theme/dark"@[7]);
}

proof fn lemma_options_differ()
    ensures
        "equal_width"@.len() == 11,
        "compact"@.len() == 7,
        "system"@.len() == 6,
        "black"@.len() == 5,
        "white"@.len() == 5,
        "tmux"@.len() == 4,
        "theme"@.len() == 5,
        "top"@.len() == 3,
        "bottom"@.len() == 6,
        "close_window"@.len() == 12,
        "keep_empty"@.len() == 10,
        "new_shell"@.len() == 9,
        "notify"@.len() == 6,
        "close"@.len() == 5,
        "keep"@.len() == 4,
        "auto"@.len() == 4,
        "alt"@.len() == 3,
        "command"@.len() == 7,
        "control"@.len() == 7,
        "super"@.len() == 5,
        "black"@ != "white"@,
        "black"@ != "theme"@,
        "white"@ != "theme"@,
        "system"@ != "bottom"@,
        "system"@ != "notify"@,
        "bottom"@ != "notify"@,
        "black"@ != "close"@,
        "white"@ != "close"@,
        "theme"@ != "close"@,
        "tmux"@ != "keep"@,
        "tmux"@ != "auto"@,
        "keep"@ != "auto"@,
        "top"@ != "alt"@,
        "compact"@ != "command"@,
        "compact"@ != "control"@,
        "command"@ != "control"@,
        "black"@ != "super"@,
        "white"@ != "super"@,
        "theme"@ != "super"@,
        "close"@ != "super"@,
{
    reveal_strlit("equal_width");
    reveal_strlit("compact");
    reveal_strlit("system");
    reveal_strlit("black");
    reveal_strlit("white");
    reveal_strlit("tmux");
    reveal_strlit("theme");
    reveal_strlit("top");
    reveal_strlit("bottom");
    reveal_strlit("close_window");
    reveal_strlit("keep_empty");
    reveal_strlit("new_shell");
    reveal_strlit("notify");
    reveal_strlit("close");
    reveal_strlit("keep");
    reveal_strlit("auto");
    reveal_strlit("alt");
    reveal_strlit("command");
    reveal_strlit("control");
    reveal_strlit("super");
    assert("black"@[0] != "white"@[0]);
    assert("black"@[0] != "theme"@[0]);
    assert("white"@[0] != "theme"@[0]);
    assert("system"@[0] != "bottom"@[0]);
    assert("system"@[0] != "notify"@[0]);
    assert("bottom"@[0] != "notify"@[0]);
    assert("black"@[0] != "close"@[0]);
    assert("white"@[0] != "close"@[0]);
    assert("theme"@[0] != "close"@[0]);
    assert("tmux"@[0] != "keep"@[0]);
    assert("tmux"@[0] != "auto"@[0]);
    assert("keep"@[0] != "auto"@[0]);
    assert("top"@[0] != "alt"@[0]);
    assert("compact"@[3] != "command"@[3]);
    assert("compact"@[2] != "control"@[2]);
    assert("command"@[2] != "control"@[2]);
    assert("black"@[0] != "super"@[0]);
    assert("white"@[0] != "super"@[0]);
    assert("theme"@[0] != "super"@[0]);
    assert("close"@[0] != "super"@[0]);
}

/// The title of each page of the settings.
pub proof fn law_section_words_are_told_apart(id: Seq<char>)
    ensures
        section_words("appearance"@) == Some("Terminal"@),
        section_words("runtime"@) == Some("Workspace defaults"@),
        section_words("attention"@) == Some("Attention"@),
        section_words("ui"@) == Some("Interface"@),
        section_words("ssh"@) == Some("SSH defaults"@),
        section_words("behavior"@) == Some("Exit behavior"@),
        section_words("platform"@) == Some("Platform"@),
        section_words("projects"@) == Some("Workspace profiles"@),
        section_words("shortcuts"@) == Some("Keyboard shortcuts"@),
        id != "appearance"@
            && id != "runtime"@
            && id != "attention"@
            && id != "ui"@
            && id != "ssh"@
            && id != "behavior"@
            && id != "platform"@
            && id != "projects"@
            && id != "shortcuts"@
            ==> section_words(id) is None,
{
    lemma_pages_differ();
}

/// The icon of each page.
pub proof fn law_icons_are_told_apart(id: Seq<char>)
    ensures
        icon_of("appearance"@) == "Aa"@,
        icon_of("runtime"@) == "▣"@,
        icon_of("attention"@) == "◉"@,
        icon_of("ui"@) == "▤"@,
        icon_of("ssh"@) == "↗"@,
        icon_of("behavior"@) == "↯"@,
        icon_of("platform"@) == "⌘"@,
        icon_of("projects"@) == "▦"@,
        icon_of("shortcuts"@) == "⌨"@,
        id != "appearance"@
            && id != "runtime"@
            && id != "attention"@
            && id != "ui"@
            && id != "ssh"@
            && id != "behavior"@
            && id != "platform"@
            && id != "projects"@
            && id != "shortcuts"@
            ==> icon_of(id) == "•"@,
{
    lemma_pages_differ();
}

/// The hint of each page.
pub proof fn law_hints_are_told_apart(id: Seq<char>)
    ensures
        hint_of("appearance"@) == "Fonts & colors"@,
        hint_of("runtime"@) == "Workspaces"@,
        hint_of("attention"@) == "Agent signals"@,
        hint_of("ui"@) == "Window chrome"@,
        hint_of("ssh"@) == "Remote access"@,
        hint_of("behavior"@) == "Exit rules"@,
        hint_of("platform"@) == "Desktop specific"@,
        hint_of("projects"@) == "Launch profiles"@,
        hint_of("shortcuts"@) == "Keyboard"@,
        id != "appearance"@
            && id != "runtime"@
            && id != "attention"@
            && id != "ui"@
            && id != "ssh"@
            && id != "behavior"@
            && id != "platform"@
            && id != "projects"@
            && id != "shortcuts"@
            ==> hint_of(id) == "General"@,
{
    lemma_pages_differ();
}

/// The description of each page.
pub proof fn law_descriptions_are_told_apart(id: Seq<char>)
    ensures
        description_of("appearance"@)
            == "Tune the terminal you look at all day: type, scale, and color."@,
        description_of("runtime"@)
            == "Set defaults for new workspaces, panes, and terminal history."@,
        description_of("attention"@)
            == "Decide when Muxterm should surface work that needs your attention."@,
        description_of("ui"@) == "Shape the surrounding window chrome and tab bar."@,
        description_of("ssh"@) == "Defaults used when opening remote workspaces over SSH."@,
        description_of("behavior"@) == "Choose what Muxterm does when panes or commands exit."@,
        description_of("platform"@)
            == "Options specific to the desktop platform you are running on."@,
        description_of("projects"@) == "Save the workspaces you return to most often."@,
        description_of("shortcuts"@)
            == "Choose a keyboard preset and customize individual actions."@,
        id != "appearance"@
            && id != "runtime"@
            && id != "attention"@
            && id != "ui"@
            && id != "ssh"@
            && id != "behavior"@
            && id != "platform"@
            && id != "projects"@
            && id != "shortcuts"@
            ==> description_of(id) == "Configure this part of Muxterm."@,
{
    lemma_pages_differ();
}

/// The title of each setting.
pub proof fn law_title_keys_are_told_apart(path: Seq<char>)
    ensures
        title_key_of("/ui/tab_bar_style"@) == Some("TabBarStyle"@),
        title_key_of("/font/family"@) == Some("SettingsFontFamily"@),
        title_key_of("/font/size"@) == Some("SettingsFontSize"@),
        title_key_of("/font/fallback"@) == Some("SettingsFallbackFonts"@),
        title_key_of("/theme/name"@) == Some("SettingsTheme"@),
        title_key_of("/theme/light"@) == Some("SettingsLightTheme"@),
        title_key_of("/theme/dark"@) == Some("SettingsDarkTheme"@),
        title_key_of("/statusbar/mode"@) == Some("SettingsStatusBarAppearance"@),
        title_key_of("/tmux/auto_mouse"@) == Some("SettingsEnableTmuxMouseMode"@),
        title_key_of("/tmux/default_session"@) == Some("SettingsDefaultWorkspace"@),
        title_key_of("/tmux/socket"@) == Some("SettingsTmuxSocket"@),
        title_key_of("/pool/max_slots"@) == Some("SettingsWorkspaceReminderLimit"@),
        title_key_of("/scrollback/lines"@) == Some("SettingsScrollbackLines"@),
        title_key_of("/pane/default_command"@) == Some("SettingsDefaultShellCommand"@),
        title_key_of("/pane/workdir"@) == Some("SettingsInitialWorkingDirectory"@),
        title_key_of("/attention/enabled"@) == Some("SettingsWorkspaceAttention"@),
        title_key_of("/attention/blocked_regex"@) == Some("SettingsBlockedOutputPatterns"@),
        title_key_of("/attention/debounce_ms"@) == Some("SettingsNotificationDelay"@),
        title_key_of("/ui/tab_bar_position"@) == Some("SettingsTabBarPosition"@),
        title_key_of("/ui/tab_bar_height"@) == Some("SettingsTabBarHeight"@),
        title_key_of("/ui/show_title_bar"@) == Some("SettingsShowTitleBar"@),
        title_key_of("/ui/borderless"@) == Some("SettingsBorderlessWindow"@),
        title_key_of("/ssh/host"@) == Some("SettingsDefaultSshHost"@),
        title_key_of("/ssh/port"@) == Some("SettingsSshPort"@),
        title_key_of("/ssh/user"@) == Some("SettingsSshUser"@),
        title_key_of("/ssh/key_path"@) == Some("SettingsSshPrivateKey"@),
        title_key_of("/behavior/on_last_pane_exit"@) == Some("SettingsWhenTheLastPaneExits"@),
        title_key_of("/behavior/on_program_exit_abnormal"@) == Some("SettingsWhenACommandFails"@),
        title_key_of("/platform/linux/client_side_decorations"@)
            == Some("SettingsClientSideDecorations"@),
        title_key_of("/platform/macos/option_as_alt"@) == Some("SettingsTreatOptionAsAlt"@),
        title_key_of("/shortcuts/preset"@) == Some("SettingsKeyboardLayout"@),
        title_key_of("/shortcuts/primary_key"@) == Some("SettingsPrimaryModifier"@),
        title_key_of("/projects"@) == Some("SettingsSavedProjects"@),
        title_key_of("/shortcuts/overrides"@) == Some("SettingsCustomShortcuts"@),
        path != "/ui/tab_bar_style"@
            && path != "/font/family"@
            && path != "/font/size"@
            && path != "/font/fallback"@
            && path != "/theme/name"@
            && path != "/theme/light"@
            && path != "/theme/dark"@
            && path != "/statusbar/mode"@
            && path != "/tmux/auto_mouse"@
            && path != "/tmux/default_session"@
            && path != "/tmux/socket"@
            && path != "/pool/max_slots"@
            && path != "/scrollback/lines"@
            && path != "/pane/default_command"@
            && path != "/pane/workdir"@
            && path != "/attention/enabled"@
            && path != "/attention/blocked_regex"@
            && path != "/attention/debounce_ms"@
            && path != "/ui/tab_bar_position"@
            && path != "/ui/tab_bar_height"@
            && path != "/ui/show_title_bar"@
            && path != "/ui/borderless"@
            && path != "/ssh/host"@
            && path != "/ssh/port"@
            && path != "/ssh/user"@
            && path != "/ssh/key_path"@
            && path != "/behavior/on_last_pane_exit"@
            && path != "/behavior/on_program_exit_abnormal"@
            && path != "/platform/linux/client_side_decorations"@
            && path != "/platform/macos/option_as_alt"@
            && path != "/shortcuts/preset"@
            && path != "/shortcuts/primary_key"@
            && path != "/projects"@
            && path != "/shortcuts/overrides"@
            ==> title_key_of(path) is None,
{
    lemma_paths_differ();
}

/// The description of each setting.
pub proof fn law_description_keys_are_told_apart(path: Seq<char>)
    ensures
        description_key_of("/ui/tab_bar_style"@) == "SettingsTabLayoutSizing"@,
        description_key_of("/font/family"@) == "SettingsTheTypefaceUsedToDrawTerminalText"@,
        description_key_of("/font/size"@)
            == "SettingsAdjustTheTerminalScaleWithoutChangingYourDisplaySettings"@,
        description_key_of("/font/fallback"@)
            == "SettingsCommaSeparatedFontsUsedWhenThePrimaryFamilyIsMissingAGlyph"@,
        description_key_of("/theme/name"@)
            == "SettingsChooseAFixedThemeOrFollowYourSystemAppearance"@,
        description_key_of("/theme/light"@) == "SettingsThemeUsedWhenTheSystemIsInLightMode"@,
        description_key_of("/theme/dark"@) == "SettingsThemeUsedWhenTheSystemIsInDarkMode"@,
        description_key_of("/statusbar/mode"@)
            == "SettingsUseTmuxColorsOrKeepTheStatusBarInTheMuxtermTheme"@,
        description_key_of("/tmux/auto_mouse"@)
            == "SettingsForwardMouseInteractionsToAttachedTmuxWorkspaces"@,
        description_key_of("/tmux/default_session"@)
            == "SettingsWorkspaceToAttachOnLaunchLeaveEmptyToStartLocally"@,
        description_key_of("/tmux/socket"@)
            == "SettingsOptionalNamedTmuxSocketEmptyUsesTheDefaultServer"@,
        description_key_of("/pool/max_slots"@)
            == "SettingsShowAReminderWhenThisManyWarmWorkspacesAreOpen"@,
        description_key_of("/scrollback/lines"@) == "SettingsHistoryKeptForEachNewlyCreatedPane"@,
        description_key_of("/pane/default_command"@) == "SettingsCommandStartedForANewLocalPane"@,
        description_key_of("/pane/workdir"@) == "SettingsDirectoryUsedWhenANewLocalPaneStarts"@,
        description_key_of("/attention/enabled"@)
            == "SettingsShowAttentionBadgesWhenAWorkspaceIsWaitingForYou"@,
        description_key_of("/attention/blocked_regex"@)
            == "SettingsOneRegularExpressionPerLineThatMarksOutputAsBlocked"@,
        description_key_of("/attention/debounce_ms"@)
            == "SettingsWaitThisLongBeforeRaisingANewAttentionSignal"@,
        description_key_of("/ui/tab_bar_position"@)
            == "SettingsPlaceTheWorkspaceTabBarAboveOrBelowTheTerminal"@,
        description_key_of("/ui/tab_bar_height"@) == "SettingsHeightOfTheCompactTabBarInPixels"@,
        description_key_of("/ui/show_title_bar"@) == "SettingsKeepTheNativeWindowTitleVisible"@,
        description_key_of("/ui/borderless"@)
            == "SettingsRemoveTheOuterWindowBorderWhenSupportedByTheDesktop"@,
        description_key_of("/ssh/host"@) == "SettingsFallbackSshHostUsedByRemoteConnections"@,
        description_key_of("/ssh/port"@) == "SettingsTcpPortUsedForTheDefaultSshConnection"@,
        description_key_of("/ssh/user"@) == "SettingsRemoteUserNameEmptyUsesTheCurrentLocalUser"@,
        description_key_of("/ssh/key_path"@)
            == "SettingsPrivateKeyPathEmptyAllowsSshAgentToProvideCredentials"@,
        description_key_of("/behavior/on_last_pane_exit"@)
            == "SettingsChooseWhatRemainsAfterTheFinalPaneCloses"@,
        description_key_of("/behavior/on_program_exit_abnormal"@)
            == "SettingsChooseHowMuxtermHandlesANonZeroCommandExit"@,
        description_key_of("/platform/linux/client_side_decorations"@)
            == "SettingsLetMuxtermDrawItsOwnWindowControls"@,
        description_key_of("/platform/macos/option_as_alt"@)
            == "SettingsUseTheOptionKeyAsAnAltModifierOnMacos"@,
        description_key_of("/shortcuts/preset"@)
            == "SettingsStartFromAQwertyOrColemakActionLayout"@,
        description_key_of("/shortcuts/primary_key"@)
            == "SettingsModifierUsedForThePrimaryShortcutSet"@,
        description_key_of("/projects"@)
            == "SettingsReusableWorkspaceLaunchProfilesSharedByQuickConnect"@,
        description_key_of("/shortcuts/overrides"@)
            == "SettingsOverrideOrDisableIndividualActionBindings"@,
        path != "/ui/tab_bar_style"@
            && path != "/font/family"@
            && path != "/font/size"@
            && path != "/font/fallback"@
            && path != "/theme/name"@
            && path != "/theme/light"@
            && path != "/theme/dark"@
            && path != "/statusbar/mode"@
            && path != "/tmux/auto_mouse"@
            && path != "/tmux/default_session"@
            && path != "/tmux/socket"@
            && path != "/pool/max_slots"@
            && path != "/scrollback/lines"@
            && path != "/pane/default_command"@
            && path != "/pane/workdir"@
            && path != "/attention/enabled"@
            && path != "/attention/blocked_regex"@
            && path != "/attention/debounce_ms"@
            && path != "/ui/tab_bar_position"@
            && path != "/ui/tab_bar_height"@
            && path != "/ui/show_title_bar"@
            && path != "/ui/borderless"@
            && path != "/ssh/host"@
            && path != "/ssh/port"@
            && path != "/ssh/user"@
            && path != "/ssh/key_path"@
            && path != "/behavior/on_last_pane_exit"@
            && path != "/behavior/on_program_exit_abnormal"@
            && path != "/platform/linux/client_side_decorations"@
            && path != "/platform/macos/option_as_alt"@
            && path != "/shortcuts/preset"@
            && path != "/shortcuts/primary_key"@
            && path != "/projects"@
            && path != "/shortcuts/overrides"@
            ==> description_key_of(path) == "SettingsConfigureThisSettingForNewMuxtermSessions"@,
{
    lemma_paths_differ();
}

/// What an empty field of a setting shows.
pub proof fn law_placeholders_are_told_apart(path: Seq<char>)
    ensures
        placeholder_of("/tmux/default_session"@) == SettingTextView::Key("SettingsWorkspaceName"@),
        placeholder_of("/tmux/socket"@) == SettingTextView::Key("SettingsDefaultSocket"@),
        placeholder_of("/pane/default_command"@) == SettingTextView::Plain("$SHELL"@),
        placeholder_of("/pane/workdir"@) == SettingTextView::Plain("$HOME"@),
        placeholder_of("/ssh/host"@) == SettingTextView::Plain("example.com"@),
        placeholder_of("/ssh/user"@) == SettingTextView::Key("SettingsOptional"@),
        placeholder_of("/ssh/key_path"@) == SettingTextView::Plain("~/.ssh/id_ed25519"@),
        path != "/tmux/default_session"@
            && path != "/tmux/socket"@
            && path != "/pane/default_command"@
            && path != "/pane/workdir"@
            && path != "/ssh/host"@
            && path != "/ssh/user"@
            && path != "/ssh/key_path"@
            ==> placeholder_of(path) == SettingTextView::Plain(""@),
{
    lemma_paths_differ();
}

/// When a setting takes effect.
pub proof fn law_apply_keys_are_told_apart(mode: Seq<char>)
    ensures
        apply_key_of("immediate"@) == "SettingsLive"@,
        apply_key_of("next_workspace"@) == "SettingsNextWorkspace"@,
        mode != "immediate"@
            && mode != "next_workspace"@
            ==> apply_key_of(mode) == "SettingsOnSave"@,
{
    lemma_modes_differ();
}

/// The range of each number, in tenths.
pub proof fn law_ranges_are_told_apart(path: Seq<char>)
    ensures
        range_of("/font/size"@) == (NumberRange { min: 90, max: 720, step: 5, digits: 1 }),
        range_of("/ssh/port"@) == (NumberRange { min: 10, max: 655350, step: 10, digits: 0 }),
        range_of("/attention/debounce_ms"@)
            == (NumberRange { min: 0, max: 100000, step: 500, digits: 0 }),
        range_of("/ui/tab_bar_height"@)
            == (NumberRange { min: 160, max: 960, step: 10, digits: 0 }),
        range_of("/pool/max_slots"@)
            == (NumberRange { min: 10, max: 42949672950, step: 10, digits: 0 }),
        range_of("/scrollback/lines"@)
            == (NumberRange { min: 1000, max: 10000000, step: 1000, digits: 0 }),
        path != "/font/size"@
            && path != "/ssh/port"@
            && path != "/attention/debounce_ms"@
            && path != "/ui/tab_bar_height"@
            && path != "/pool/max_slots"@
            && path != "/scrollback/lines"@
            ==> range_of(path) == (NumberRange { min: 0, max: 10000000, step: 10, digits: 0 }),
{
    lemma_paths_differ();
}

/// The words for the choices of each setting.
pub proof fn law_options_are_told_apart(path: Seq<char>, value: Seq<char>)
    ensures
        option_text("/ui/tab_bar_style"@, "equal_width"@) == SettingTextView::Key("TabEqualWidth"@),
        option_text("/ui/tab_bar_style"@, "compact"@) == SettingTextView::Key("TabCompact"@),
        option_text("/theme/name"@, "system"@) == SettingTextView::Key("SettingsFollowSystem"@),
        option_text("/theme/name"@, "black"@) == SettingTextView::Key("SettingsBlack"@),
        option_text("/theme/name"@, "white"@) == SettingTextView::Key("SettingsWhite"@),
        option_text("/theme/light"@, "white"@) == SettingTextView::Key("SettingsWhite"@),
        option_text("/theme/light"@, "black"@) == SettingTextView::Key("SettingsBlack"@),
        option_text("/theme/dark"@, "white"@) == SettingTextView::Key("SettingsWhite"@),
        option_text("/theme/dark"@, "black"@) == SettingTextView::Key("SettingsBlack"@),
        option_text("/statusbar/mode"@, "tmux"@) == SettingTextView::Key("SettingsMatchTmux"@),
        option_text("/statusbar/mode"@, "theme"@)
            == SettingTextView::Key("SettingsUseMuxtermTheme"@),
        option_text("/ui/tab_bar_position"@, "top"@) == SettingTextView::Key("SettingsTop"@),
        option_text("/ui/tab_bar_position"@, "bottom"@) == SettingTextView::Key("SettingsBottom"@),
        option_text("/behavior/on_last_pane_exit"@, "close_window"@)
            == SettingTextView::Key("SettingsCloseTheWindow"@),
        option_text("/behavior/on_last_pane_exit"@, "keep_empty"@)
            == SettingTextView::Key("SettingsKeepAnEmptyWindow"@),
        option_text("/behavior/on_last_pane_exit"@, "new_shell"@)
            == SettingTextView::Key("SettingsOpenANewShell"@),
        option_text("/behavior/on_program_exit_abnormal"@, "notify"@)
            == SettingTextView::Key("SettingsKeepAndNotify"@),
        option_text("/behavior/on_program_exit_abnormal"@, "close"@)
            == SettingTextView::Key("SettingsCloseThePane"@),
        option_text("/behavior/on_program_exit_abnormal"@, "keep"@)
            == SettingTextView::Key("SettingsKeepThePane"@),
        option_text("/shortcuts/primary_key"@, "auto"@)
            == SettingTextView::Key("SettingsAutomatic"@),
        option_text("/shortcuts/primary_key"@, "alt"@) == SettingTextView::Plain("Alt"@),
        option_text("/shortcuts/primary_key"@, "command"@) == SettingTextView::Plain("Command"@),
        option_text("/shortcuts/primary_key"@, "control"@) == SettingTextView::Plain("Control"@),
        option_text("/shortcuts/primary_key"@, "super"@) == SettingTextView::Plain("Super"@),
        path != "/ui/tab_bar_style"@
            && path != "/theme/name"@
            && path != "/theme/light"@
            && path != "/theme/dark"@
            && path != "/statusbar/mode"@
            && path != "/ui/tab_bar_position"@
            && path != "/behavior/on_last_pane_exit"@
            && path != "/behavior/on_program_exit_abnormal"@
            && path != "/shortcuts/primary_key"@
            ==> option_text(path, value) == SettingTextView::Plain(titled(value, true)),
        value != "equal_width"@
            && value != "compact"@
            && value != "system"@
            && value != "black"@
            && value != "white"@
            && value != "tmux"@
            && value != "theme"@
            && value != "top"@
            && value != "bottom"@
            && value != "close_window"@
            && value != "keep_empty"@
            && value != "new_shell"@
            && value != "notify"@
            && value != "close"@
            && value != "keep"@
            && value != "auto"@
            && value != "alt"@
            && value != "command"@
            && value != "control"@
            && value != "super"@
            ==> option_text(path, value) == SettingTextView::Plain(titled(value, true)),
{
    lemma_option_paths_differ();
    lemma_options_differ();
}

} // verus!
