use muxterm_frontend::linux::preferences_fields::{
    classify, control_for, control_row, must_confirm_discard, number_spec, pointer, save_operations,
    select_options, setting_value, tracked_field, widget_name_for, ControlKind, FieldSpec,
    SettingValue,
};
use muxterm_frontend::linux::preferences_labels::{
    apply_label, category_description, category_hint, category_icon, category_title,
    field_description, field_title, humanize_words, input_placeholder, option_label,
    section_title, SettingText,
};
use muxterm_frontend::linux::preferences_manifest::{
    read_manifest, shows_preview, ManifestField, ManifestGroup,
};
use muxterm_frontend::linux::preferences_window::{
    appearance_preview, category_page, editor_for, field_search_text, group_id, persist_projects,
    persist_removal, preview_summary, project_detail, project_rows, remove_project, request_close,
    save_status, search_settings, show_project_manager, CategoryPage, CloseRequest, Editor,
    FieldTexts, ProjectChange, ProjectRow,
};

#[test]
fn category_title_humanizes_manifest_key() {
    assert_eq!(category_title("appearance", "settings.appearance"), "Appearance");
    assert_eq!(category_title("tab_bar", ""), "Tab Bar");
}

#[test]
fn words_of_a_key_become_a_title() {
    assert_eq!(humanize_words("font.size_in-points/now"), "Font Size In Points Now");
    assert_eq!(humanize_words("__"), "");
    assert_eq!(humanize_words("ßa"), "SSa");
    assert_eq!(category_title("a.b", "settings."), "A.b");
}

#[test]
fn known_fields_have_texts_of_the_catalogue() {
    assert_eq!(field_title("/font/size", "settings.font.size"), SettingText::Key("SettingsFontSize"));
    assert_eq!(
        field_title("/tmux/default_session", ""),
        SettingText::Key("SettingsDefaultWorkspace")
    );
    assert_eq!(option_label("/theme/name", "system"), SettingText::Key("SettingsFollowSystem"));
    assert_eq!(apply_label("next_workspace"), "SettingsNextWorkspace");
    assert_eq!(apply_label("commit"), "SettingsOnSave");
    assert_eq!(field_description("/ssh/port"), "SettingsTcpPortUsedForTheDefaultSshConnection");
}

#[test]
fn unknown_fields_are_named_by_their_words() {
    assert_eq!(field_title("/x/some_field", ""), SettingText::Plain("Some Field".into()));
    assert_eq!(
        field_title("/x/y", "settings.other.name"),
        SettingText::Plain("Other Name".into())
    );
    assert_eq!(option_label("/x", "my-choice"), SettingText::Plain("My Choice".into()));
    assert_eq!(option_label("/shortcuts/primary_key", "alt"), SettingText::Plain("Alt".into()));
    assert_eq!(input_placeholder("/pane/workdir"), SettingText::Plain("$HOME".into()));
    assert_eq!(input_placeholder("/x"), SettingText::Plain(String::new()));
    assert_eq!(section_title("ssh", ""), "SSH defaults");
    assert_eq!(section_title("new_group", ""), "New Group");
    assert_eq!(category_icon("ui"), "▤");
    assert_eq!(category_icon("x"), "•");
    assert_eq!(category_hint("ssh"), "Remote access");
    assert_eq!(category_description("x"), "Configure this part of Muxterm.");
}

#[test]
fn pointer_walks_manifest_paths() {
    let values = r#"{"font": {"size": 15.0}}"#;
    assert_eq!(pointer(values, "/font/size").as_deref(), Some("15.0"));
    assert!(pointer(values, "/font/missing").is_none());
    assert_eq!(widget_name_for("/font/size"), "muxterm-prefs-font-size");
    assert_eq!(widget_name_for("//a~1b"), "muxterm-prefs-a-1b");
    assert_eq!(pointer(values, "font").as_deref(), Some(r#"{"size":15.0}"#));
}

#[test]
fn controls_start_with_the_stored_values() {
    let values = r#"{"a":{"on":true,"name":"x \"y\"","list":["p",7,"q"],"n":4}}"#;
    let at = |path: &str, control: &str| {
        let field =
            FieldSpec { path: path.into(), control: control.into(), options: Vec::new() };
        control_row(&field, values, ControlKind::Integer(4))
    };
    assert_eq!(at("/a/on", "switch").value().as_deref(), Some("true"));
    assert_eq!(at("/a/name", "text").value().as_deref(), Some(r#""x \"y\"""#));
    assert_eq!(at("/a/list", "multiline").value().as_deref(), Some(r#"["p","q"]"#));
    assert_eq!(at("/a/n", "number").value().as_deref(), Some("4"));
    assert_eq!(at("/a/none", "text").value().as_deref(), Some(r#""""#));
    assert!(!at("/a/name", "text").is_changed());
    assert!(matches!(setting_value(&Some("5".into())), SettingValue::Other));
    assert!(matches!(setting_value(&None), SettingValue::Missing));
    assert!(matches!(classify(Some("true"), None, None), SettingValue::Switch(true)));
    assert!(matches!(classify(Some("{}"), None, None), SettingValue::Other));
    let text = classify(Some("\"a\""), Some("a".into()), None);
    assert!(matches!(text, SettingValue::Text(t) if t == "a"));
    let list = classify(Some("[\"a\"]"), None, Some(vec!["a".into()]));
    assert!(matches!(list, SettingValue::Texts(t) if t == ["a"]));
}

#[test]
fn number_ranges_do_not_truncate_valid_pool_values() {
    assert_eq!(number_spec("/pool/max_slots").max, u64::from(u32::MAX) * 10);
    let size = number_spec("/font/size");
    assert_eq!((size.min, size.max, size.step, size.digits), (90, 720, 5, 1));
    assert_eq!(number_spec("/other").max, 10_000_000);
}

fn spec(path: &str, control: &str) -> FieldSpec {
    FieldSpec { path: path.into(), control: control.into(), options: Vec::new() }
}

fn start(control: &str, value: SettingValue) -> ControlKind {
    control_for(&spec("/x", control), &value, ControlKind::Integer(7)).kind
}

#[test]
fn controls_start_with_the_stored_value() {
    assert_eq!(start("switch", SettingValue::Switch(true)), ControlKind::Switch(true));
    assert_eq!(start("switch", SettingValue::Missing), ControlKind::Switch(false));
    assert_eq!(start("number", SettingValue::Other), ControlKind::Integer(7));
    let list = || SettingValue::Texts(vec!["a".into(), "b".into()]);
    assert_eq!(start("multiline", list()), ControlKind::MultiLine("a\nb".into()));
    assert_eq!(start("font_fallback", list()), ControlKind::StringList("a, b".into()));
    assert_eq!(start("font_picker", SettingValue::Missing), ControlKind::FontPicker(None));
    assert_eq!(
        start("theme_picker", SettingValue::Text("dark".into())),
        ControlKind::Select(Some("dark".into()))
    );
    assert_eq!(start("project_editor", SettingValue::Other), ControlKind::Summary);
    assert_eq!(start("whatever", SettingValue::Text("t".into())), ControlKind::Text("t".into()));
}

#[test]
fn lists_are_saved_as_they_were_stored() {
    let value = |kind| tracked_field("/x".into(), kind).value();
    assert_eq!(
        value(ControlKind::StringList("Noto Sans Mono, ,monospace ".into())).as_deref(),
        Some("[\"Noto Sans Mono\",\"monospace\"]")
    );
    assert_eq!(
        value(ControlKind::MultiLine(" ^a$ \r\n\n\"b\"".into())).as_deref(),
        Some("[\"^a$\",\"\\\"b\\\"\"]")
    );
    assert_eq!(value(ControlKind::Integer(i64::MIN)).as_deref(), Some("-9223372036854775808"));
    assert_eq!(value(ControlKind::Decimal("12.5".into())).as_deref(), Some("12.5"));
    assert_eq!(value(ControlKind::Switch(true)).as_deref(), Some("true"));
    assert_eq!(value(ControlKind::Summary), None);
    assert_eq!(value(ControlKind::Select(None)), None);
}

#[test]
fn integer_number_controls_start_clean() {
    let control = tracked_field("/pool/max_slots".into(), ControlKind::Integer(20));
    assert!(!control.is_changed());
}

#[test]
fn text_control_tracks_dirty_state() {
    let mut control = tracked_field("/font/family".into(), ControlKind::Text("a".into()));
    assert!(!control.is_changed());
    control.set(ControlKind::Text("b".into()));
    assert!(control.is_changed());
    control.set(ControlKind::Text("a".into()));
    assert!(!control.is_changed());
}

#[test]
fn saving_replaces_every_value() {
    let mut controls = vec![
        tracked_field("/a".into(), ControlKind::Switch(false)),
        tracked_field("/projects".into(), ControlKind::Summary),
        tracked_field("/b".into(), ControlKind::Text("x\"y".into())),
    ];
    assert!(!must_confirm_discard(&controls));
    let ops = save_operations(&controls);
    assert_eq!(ops.len(), 2);
    assert_eq!((ops[0].path.as_str(), ops[0].value.as_deref()), ("/a", Some("false")));
    assert_eq!((ops[1].op.as_str(), ops[1].value.as_deref()), ("replace", Some("\"x\\\"y\"")));
    controls[0].set(ControlKind::Switch(true));
    assert!(must_confirm_discard(&controls));
}

#[test]
fn options_always_hold_the_stored_value() {
    let mut field = spec("/theme/name", "select");
    field.options = vec!["system".into(), "black".into()];
    let known = select_options(&field, "black");
    assert_eq!(known.len(), 2);
    assert_eq!(known[0], ("system".to_string(), SettingText::Key("SettingsFollowSystem")));
    let other = select_options(&field, "solarized");
    assert_eq!(other[2], ("solarized".to_string(), SettingText::Plain("Solarized".into())));
}

#[test]
fn search_shows_matching_fields_and_goes_to_the_first_page() {
    let pages = vec![
        CategoryPage {
            id: "appearance".into(),
            fields: vec![field_search_text("appearance", "/font/size", "Font size", "Scale")],
        },
        CategoryPage {
            id: "ssh".into(),
            fields: vec![
                field_search_text("ssh", "/ssh/port", "Port", "TCP"),
                field_search_text("ssh", "/ssh/user", "User", "Name"),
            ],
        },
        CategoryPage { id: "empty".into(), fields: Vec::new() },
    ];
    let found = search_settings(&pages, "  PORT ");
    assert_eq!(found.fields, vec![vec![false], vec![true, false], vec![]]);
    assert_eq!(found.pages, vec![false, true, false]);
    assert_eq!(found.goto, Some(1));
    let all = search_settings(&pages, "");
    assert_eq!(all.pages, vec![true, true, true]);
    assert_eq!(all.goto, Some(0));
    assert_eq!(search_settings(&pages, "nowhere").goto, None);
    assert_eq!(group_id(Some(" ")), "settings");
    assert_eq!(group_id(Some("ui")), "ui");
    assert_eq!(group_id(None), "settings");
}

#[test]
fn projects_are_listed_and_removed_by_id() {
    let project = |id: &str| ProjectRow {
        document: format!("{{\"id\":\"{id}\"}}"),
        id: id.into(),
        name: "demo".into(),
        path: "/srv".into(),
        transport: "ssh".into(),
        runtime: "tmux".into(),
    };
    let projects = vec![project("1"), project("2")];
    assert_eq!(project_detail(&projects[0]), "/srv  ·  ssh / tmux");
    assert_eq!(project_rows(&projects)[1].0, "demo");
    let left = remove_project(&projects, "1");
    assert_eq!(left, vec![project("2")]);
    let added = show_project_manager(ProjectChange::Added, true);
    assert!(added.notify && added.refresh);
    let removed = show_project_manager(ProjectChange::Removed, true);
    assert!(removed.notify && !removed.refresh);
    let outside = show_project_manager(ProjectChange::FileChanged, true);
    assert!(!outside.notify && outside.refresh);
    let failed = show_project_manager(ProjectChange::Edited, false);
    assert!(!failed.notify && !failed.refresh);
    let saved = persist_projects(&projects);
    assert_eq!((saved.op.as_str(), saved.path.as_str()), ("replace", "/projects"));
    assert_eq!(saved.value.as_deref(), Some(r#"[{"id":"1"},{"id":"2"}]"#));
    let without = persist_removal(&projects, "1");
    assert_eq!(without.value.as_deref(), Some(r#"[{"id":"2"}]"#));
    assert_eq!(persist_removal(&left, "2").value.as_deref(), Some("[]"));
    assert_eq!(preview_summary(None, "13.0", "Dark"), "JetBrains Mono  ·  13.0 pt  ·  Dark");
    assert_eq!(preview_summary(Some("Iosevka"), "9.5", "Dark"), "Iosevka  ·  9.5 pt  ·  Dark");
}

#[test]
fn the_manifest_lists_groups_and_fields() {
    let manifest = r#"{"groups":[
        {"id":"appearance","title_key":"settings.appearance","fields":[
            {"path":"/theme/name","control":"select","options":["system",3,"black"],"apply":"now"},
            {"path":"/font/size","title_key":"settings.font.size"}]},
        {"id":"  ","fields":5},
        7]}"#;
    let groups = read_manifest(manifest);
    assert_eq!(groups.len(), 3);
    assert_eq!(groups[0].id, "appearance");
    assert!(shows_preview(&groups[0]));
    assert_eq!(groups[0].title_key, "settings.appearance");
    let theme = &groups[0].fields[0];
    assert_eq!(theme.spec.control, "select");
    assert_eq!(theme.spec.options, ["system", "black"]);
    assert_eq!(theme.apply, "now");
    assert_eq!(theme.widget_name, "muxterm-prefs-theme-name");
    let size = &groups[0].fields[1];
    assert_eq!(size.spec.control, "text");
    assert_eq!((size.title_key.as_str(), size.apply.as_str()), ("settings.font.size", "commit"));
    assert_eq!((groups[1].id.as_str(), groups[1].title_key.as_str()), ("settings", "Settings"));
    assert!(groups[1].fields.is_empty());
    assert_eq!(groups[2].id, "settings");
    assert!(read_manifest("{}").is_empty());
    let field = ManifestField::from_parts(Some("/a/b".into()), None, Vec::new(), None, None);
    assert_eq!((field.spec.control.as_str(), field.apply.as_str()), ("text", "commit"));
    assert_eq!(field.widget_name, "muxterm-prefs-a-b");
    let group = ManifestGroup::from_parts(None, None, vec![field]);
    assert_eq!((group.id.as_str(), group.title_key.as_str()), ("settings", "Settings"));
    assert!(!shows_preview(&group));
}

#[test]
fn the_preview_reads_the_settings() {
    let set = appearance_preview(r#"{"font":{"family":"Iosevka"},"theme":{"name":"system"}}"#);
    assert_eq!(set.family.as_deref(), Some("Iosevka"));
    assert_eq!(set.theme, SettingText::Key("SettingsFollowSystem"));
    let unset = appearance_preview("{}");
    assert_eq!(unset.family, None);
    assert_eq!(unset.theme, SettingText::Plain("Follow system".into()));
}

#[test]
fn closing_asks_where_a_change_would_be_lost() {
    let mut control = tracked_field("/x".into(), ControlKind::Switch(false));
    assert_eq!(request_close(false, &vec![]), CloseRequest::Proceed);
    control.set(ControlKind::Switch(true));
    let changed = vec![control];
    assert_eq!(request_close(false, &changed), CloseRequest::ConfirmDiscard);
    assert_eq!(request_close(true, &changed), CloseRequest::Proceed);
    assert_eq!(save_status(Ok(())), None);
    assert_eq!(
        save_status(Err("disk full".into())).as_deref(),
        Some("Could not save settings: disk full")
    );
    assert_eq!(editor_for("/projects"), Some(Editor::Projects));
    assert_eq!(editor_for("/shortcuts/overrides"), Some(Editor::Shortcuts));
    assert_eq!(editor_for("/font/size"), None);
    let page = category_page(
        Some(" "),
        &vec![FieldTexts { path: "/a".into(), title: "A".into(), description: "first".into() }],
    );
    assert_eq!(page.id, "settings");
    assert_eq!(page.fields, ["settings /a A first"]);
}
