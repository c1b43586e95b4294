//! The description of the settings that the core sends: groups of fields.
use vstd::prelude::*;
use vstd::string::*;

use crate::json::read::{
    as_elements, as_string, elements_in, field, field_of, string_in, value_or_null,
};
use crate::linux::preferences_fields::{
    bare_path, hyphened, texts_among, texts_in, widget_name_for, FieldSpec,
};
use crate::linux::preferences_window::{group_id, named_group};
use crate::text::{opt_view, views};

verus! {

/// A text, or a default.
pub open spec fn or_text(given: Option<Seq<char>>, default: Seq<char>) -> Seq<char> {
    match given {
        Some(text) => text,
        None => default,
    }
}

/// The string in a member of an object, where there is one.
pub open spec fn string_at(value: Seq<char>, name: Seq<char>) -> Option<Seq<char>> {
    string_in(value_or_null(field_of(value, name)))
}

fn read_string(value: &str, name: &str) -> (r: Option<String>)
    ensures
        opt_view(r) == string_at(value@, name@),
{
    as_string(crate::json::read::indexed(value, name).as_str())
}

fn given_or(given: Option<String>, default: &str) -> (r: String)
    ensures
        r@ == or_text(opt_view(given), default@),
{
    match given {
        Some(text) => text,
        None => default.to_owned(),
    }
}

/// A field as it is described.
#[derive(Debug)]
pub struct ManifestField {
    pub spec: FieldSpec,
    pub title_key: String,
    /// When a change takes effect.
    pub apply: String,
    pub widget_name: String,
}

/// The view of a [`ManifestField`].
pub struct ManifestFieldView {
    pub path: Seq<char>,
    pub control: Seq<char>,
    pub options: Seq<Seq<char>>,
    pub title_key: Seq<char>,
    pub apply: Seq<char>,
    pub widget_name: Seq<char>,
}

impl View for ManifestField {
    type V = ManifestFieldView;

    open spec fn view(&self) -> ManifestFieldView {
        ManifestFieldView {
            path: self.spec.path@,
            control: self.spec.control@,
            options: views(self.spec.options@),
            title_key: self.title_key@,
            apply: self.apply@,
            widget_name: self.widget_name@,
        }
    }
}

/// The field with the given parts; missing ones have defaults.
pub open spec fn field_from(
    path: Option<Seq<char>>,
    control: Option<Seq<char>>,
    options: Seq<Seq<char>>,
    title_key: Option<Seq<char>>,
    apply: Option<Seq<char>>,
) -> ManifestFieldView {
    ManifestFieldView {
        path: or_text(path, ""@),
        control: or_text(control, "text"@),
        options,
        title_key: or_text(title_key, ""@),
        apply: or_text(apply, "commit"@),
        widget_name: "muxterm-prefs-"@ + hyphened(bare_path(or_text(path, ""@))),
    }
}

/// The field that a JSON text describes.
pub open spec fn field_in(text: Seq<char>) -> ManifestFieldView {
    field_from(
        string_at(text, "path"@),
        string_at(text, "control"@),
        texts_among(elements_in(field_of(text, "options"@))),
        string_at(text, "title_key"@),
        string_at(text, "apply"@),
    )
}

impl ManifestField {
    /// Makes a field from its parts; missing ones have defaults.
    pub fn from_parts(
        path: Option<String>,
        control: Option<String>,
        options: Vec<String>,
        title_key: Option<String>,
        apply: Option<String>,
    ) -> (r: Self)
        ensures
            r@ == field_from(
                opt_view(path),
                opt_view(control),
                views(options@),
                opt_view(title_key),
                opt_view(apply),
            ),
    {
        let path = given_or(path, "");
        let widget_name = widget_name_for(path.as_str());
        ManifestField {
            spec: FieldSpec { path, control: given_or(control, "text"), options },
            title_key: given_or(title_key, ""),
            apply: given_or(apply, "commit"),
            widget_name,
        }
    }
}

/// Reads a field from its JSON text.
pub fn read_field(text: &str) -> (r: ManifestField)
    ensures
        r@ == field_in(text@),
{
    ManifestField::from_parts(
        read_string(text, "path"),
        read_string(text, "control"),
        texts_in(&as_elements(&field(text, "options"))),
        read_string(text, "title_key"),
        read_string(text, "apply"),
    )
}

/// A group as it is described; each group has a page.
#[derive(Debug)]
pub struct ManifestGroup {
    pub id: String,
    pub title_key: String,
    pub fields: Vec<ManifestField>,
}

/// The view of a [`ManifestGroup`].
pub struct ManifestGroupView {
    pub id: Seq<char>,
    pub title_key: Seq<char>,
    pub fields: Seq<ManifestFieldView>,
}

impl View for ManifestGroup {
    type V = ManifestGroupView;

    open spec fn view(&self) -> ManifestGroupView {
        ManifestGroupView {
            id: self.id@,
            title_key: self.title_key@,
            fields: Seq::new(self.fields@.len(), |i: int| self.fields@[i]@),
        }
    }
}

/// The group that a JSON text describes.
pub open spec fn group_in(text: Seq<char>) -> ManifestGroupView {
    ManifestGroupView {
        id: named_group(string_at(text, "id"@)),
        title_key: or_text(string_at(text, "title_key"@), "Settings"@),
        fields: elements_in(field_of(text, "fields"@)).map_values(|f: Seq<char>| field_in(f)),
    }
}

impl ManifestGroup {
    /// Makes a group from its parts; missing ones have defaults.
    pub fn from_parts(
        id: Option<String>,
        title_key: Option<String>,
        fields: Vec<ManifestField>,
    ) -> (r: Self)
        ensures
            r.id@ == named_group(opt_view(id)),
            r.title_key@ == or_text(opt_view(title_key), "Settings"@),
            r.fields == fields,
    {
        let name = match &id {
            Some(s) => group_id(Some(s.as_str())),
            None => group_id(None),
        };
        ManifestGroup { id: name, title_key: given_or(title_key, "Settings"), fields }
    }
}

/// Reads a group from its JSON text.
pub fn read_group(text: &str) -> (r: ManifestGroup)
    ensures
        r@ == group_in(text@),
{
    let elements = as_elements(&field(text, "fields"));
    let ghost wanted = views(elements@).map_values(|f: Seq<char>| field_in(f));
    let mut fields: Vec<ManifestField> = Vec::new();
    let mut i: usize = 0;
    while i < elements.len()
        invariant
            i <= elements.len(),
            fields@.len() == i,
            forall|j: int| 0 <= j < i ==> (#[trigger] fields@[j])@ == field_in(elements@[j]@),
        decreases elements.len() - i,
    {
        fields.push(read_field(elements[i].as_str()));
        i += 1;
    }
    let r = ManifestGroup::from_parts(
        read_string(text, "id"),
        read_string(text, "title_key"),
        fields,
    );
    assert(r@.fields =~= wanted);
    r
}

/// The groups that a manifest describes; none where it lists none.
pub open spec fn groups_in(manifest: Seq<char>) -> Seq<ManifestGroupView> {
    elements_in(field_of(manifest, "groups"@)).map_values(|g: Seq<char>| group_in(g))
}

/// Reads the groups of a manifest from its JSON text.
pub fn read_manifest(manifest: &str) -> (r: Vec<ManifestGroup>)
    ensures
        Seq::new(r@.len(), |i: int| r@[i]@) == groups_in(manifest@),
{
    let elements = as_elements(&field(manifest, "groups"));
    let mut groups: Vec<ManifestGroup> = Vec::new();
    let mut i: usize = 0;
    while i < elements.len()
        invariant
            i <= elements.len(),
            groups@.len() == i,
            forall|j: int| 0 <= j < i ==> (#[trigger] groups@[j])@ == group_in(elements@[j]@),
        decreases elements.len() - i,
    {
        groups.push(read_group(elements[i].as_str()));
        i += 1;
    }
    assert(Seq::new(groups@.len(), |i: int| groups@[i]@) =~= views(elements@).map_values(
        |g: Seq<char>| group_in(g),
    ));
    groups
}

/// Tells whether a group shows a preview of the terminal.
pub fn shows_preview(group: &ManifestGroup) -> (r: bool)
    ensures
        r == (group.id@ == "appearance"@),
{
    crate::text::same(group.id.as_str(), "appearance")
}

/// Every group has an id, so that its page can be named.
pub proof fn law_every_page_has_a_name(text: Seq<char>)
    ensures
        group_in(text).id.len() > 0,
{
    reveal_strlit("settings");
}

} // verus!
