//! The settings window without its widgets: its pages, the search over them
//! and the list of projects.
use vstd::prelude::*;
use vstd::string::*;

use crate::client::config::replace;
use crate::client::types::ClientJsonPatchOperation;
use crate::json::read::{as_string, string_in};
use crate::json::{json_list, list_text};
use crate::linux::preferences_fields::{
    bare_path, must_confirm_discard, pointed, pointer, some_changed, FieldControl,
};
use crate::linux::preferences_labels::{option_label, option_text, SettingText, SettingTextView};
use crate::text::find::{contains, contains_chars};
use crate::text::order::{ascii_lower, ascii_lowercase};
use crate::text::split::split_on;
use crate::text::{
    all_white, chars_of, concat2, concat3, is_blank, opt_view, same, trim, trimmed, views,
};

verus! {

/// Returns the id of a group: its own, or a general one where it is blank.
pub fn group_id(id: Option<&str>) -> (r: String)
    ensures
        r@ == group_name(id),
{
    match id {
        Some(s) => {
            if is_blank(s) {
                "settings".to_owned()
            } else {
                s.to_owned()
            }
        },
        None => "settings".to_owned(),
    }
}

/// A page of the window: its id and, for each of its fields, the text that is
/// searched.
#[derive(Debug)]
pub struct CategoryPage {
    pub id: String,
    pub fields: Vec<String>,
}

/// The text that is searched for a field.
pub open spec fn searched_text(
    group: Seq<char>,
    path: Seq<char>,
    title: Seq<char>,
    description: Seq<char>,
) -> Seq<char> {
    group + " "@ + path + " "@ + title + " "@ + description
}

/// Returns the text that is searched for a field.
pub fn field_search_text(group: &str, path: &str, title: &str, description: &str) -> (r: String)
    ensures
        r@ == searched_text(group@, path@, title@, description@),
{
    let mut text = concat3(group, " ", path);
    text.append(" ");
    text.append(title);
    text.append(" ");
    text.append(description);
    text
}

// ---------------------------------------------------------------------------
// The search.
// ---------------------------------------------------------------------------

/// A field is shown for a query that was trimmed and put into small letters:
/// every field for an empty one, else those whose text holds it.
pub open spec fn field_shown(query: Seq<char>, text: Seq<char>) -> bool {
    query.len() == 0 || contains(ascii_lower(text), query)
}

/// The query as it is looked for.
pub open spec fn search_query(entered: Seq<char>) -> Seq<char> {
    ascii_lower(trimmed(entered))
}

/// Some field of the page is shown.
pub open spec fn page_matches(query: Seq<char>, page: CategoryPage) -> bool {
    exists|i: int| 0 <= i < page.fields@.len() && field_shown(query, (#[trigger] page.fields@[i])@)
}

/// The first page of which a field is shown.
pub open spec fn first_match(query: Seq<char>, pages: Seq<CategoryPage>) -> Option<int>
    decreases pages.len(),
{
    if pages.len() == 0 {
        None
    } else {
        match first_match(query, pages.drop_last()) {
            Some(i) => Some(i),
            None => if page_matches(query, pages.last()) {
                Some(pages.len() - 1)
            } else {
                None
            },
        }
    }
}

/// What a search shows: the fields of each page, the pages in the sidebar and
/// the page to go to.
#[derive(Debug)]
pub struct SearchOutcome {
    pub fields: Vec<Vec<bool>>,
    pub pages: Vec<bool>,
    pub goto: Option<usize>,
}

/// The outcome is that of a query over the first `n` pages.
pub open spec fn is_outcome(
    outcome: SearchOutcome,
    query: Seq<char>,
    pages: Seq<CategoryPage>,
) -> bool {
    &&& outcome.fields@.len() == pages.len()
    &&& outcome.pages@.len() == pages.len()
    &&& forall|i: int|
        0 <= i < pages.len() ==> (#[trigger] outcome.fields@[i])@.len() == pages[i].fields@.len()
    &&& forall|i: int, k: int|
        0 <= i < pages.len() && 0 <= k < pages[i].fields@.len() ==> (
        #[trigger] outcome.fields@[i]@[k]) == field_shown(query, pages[i].fields@[k]@)
    &&& forall|i: int|
        0 <= i < pages.len() ==> (#[trigger] outcome.pages@[i]) == (query.len() == 0
            || page_matches(query, pages[i]))
    &&& match outcome.goto {
        Some(i) => first_match(query, pages) == Some(i as int),
        None => first_match(query, pages) is None,
    }
}

fn search_page(page: &CategoryPage, query: &Vec<char>) -> (r: (Vec<bool>, bool))
    ensures
        r.0@.len() == page.fields@.len(),
        forall|k: int|
            0 <= k < page.fields@.len() ==> (#[trigger] r.0@[k]) == field_shown(
                query@,
                page.fields@[k]@,
            ),
        r.1 == page_matches(query@, *page),
{
    let mut shown: Vec<bool> = Vec::new();
    let mut any = false;
    let mut k: usize = 0;
    while k < page.fields.len()
        invariant
            k <= page.fields.len(),
            shown@.len() == k,
            forall|j: int|
                0 <= j < k ==> (#[trigger] shown@[j]) == field_shown(query@, page.fields@[j]@),
            any == (exists|j: int| 0 <= j < k && field_shown(query@, (#[trigger] page.fields@[j])@)),
        decreases page.fields.len() - k,
    {
        let text = ascii_lowercase(page.fields[k].as_str());
        let letters = chars_of(text.as_str());
        let visible = query.len() == 0 || contains_chars(&letters, query);
        shown.push(visible);
        if visible {
            assert(field_shown(query@, page.fields@[k as int]@));
            any = true;
        }
        k += 1;
    }
    (shown, any)
}

/// Returns what a search shows.
pub fn search_settings(pages: &Vec<CategoryPage>, entered: &str) -> (r: SearchOutcome)
    ensures
        is_outcome(r, search_query(entered@), pages@),
{
    let bare = trim(entered);
    let lowered = ascii_lowercase(bare.as_str());
    let query = chars_of(lowered.as_str());
    let ghost wanted = search_query(entered@);
    let mut out = SearchOutcome { fields: Vec::new(), pages: Vec::new(), goto: None };
    let mut i: usize = 0;
    while i < pages.len()
        invariant
            i <= pages.len(),
            query@ == wanted,
            is_outcome(out, wanted, pages@.take(i as int)),
        decreases pages.len() - i,
    {
        let ghost seen = pages@.take(i as int);
        let ghost next = pages@.take(i + 1);
        let ghost before = out;
        assert(next.drop_last() =~= seen);
        assert(next.last() == pages@[i as int]);
        let (shown, any) = search_page(&pages[i], &query);
        out.fields.push(shown);
        out.pages.push(query.len() == 0 || any);
        if any && out.goto.is_none() {
            out.goto = Some(i);
        }
        proof {
            assert forall|j: int| 0 <= j < next.len() implies (#[trigger] out.fields@[j])@.len()
                == next[j].fields@.len() by {
                if j < i {
                    assert(out.fields@[j] == before.fields@[j]);
                    assert(seen[j] == next[j]);
                }
            }
            assert forall|j: int, k: int|
                0 <= j < next.len() && 0 <= k < next[j].fields@.len() implies (
            #[trigger] out.fields@[j]@[k]) == field_shown(wanted, next[j].fields@[k]@) by {
                if j < i {
                    assert(out.fields@[j] == before.fields@[j]);
                    assert(seen[j] == next[j]);
                    assert(before.fields@[j]@[k] == field_shown(wanted, seen[j].fields@[k]@));
                }
            }
            assert forall|j: int| 0 <= j < next.len() implies (#[trigger] out.pages@[j]) == (
            wanted.len() == 0 || page_matches(wanted, next[j])) by {
                if j < i {
                    assert(out.pages@[j] == before.pages@[j]);
                    assert(seen[j] == next[j]);
                }
            }
        }
        i += 1;
    }
    assert(pages@.take(i as int) =~= pages@);
    out
}

/// An empty query shows every field.
pub proof fn law_empty_query_shows_everything(
    outcome: SearchOutcome,
    pages: Seq<CategoryPage>,
    i: int,
    k: int,
)
    requires
        is_outcome(outcome, Seq::<char>::empty(), pages),
        0 <= i < pages.len(),
        0 <= k < pages[i].fields@.len(),
    ensures
        outcome.fields@[i]@[k],
        outcome.pages@[i],
{
}

/// The page that a search goes to shows a field, and is shown itself.
pub proof fn law_search_goes_to_a_match(
    outcome: SearchOutcome,
    query: Seq<char>,
    pages: Seq<CategoryPage>,
)
    requires
        is_outcome(outcome, query, pages),
    ensures
        outcome.goto matches Some(i) ==> i < pages.len() && page_matches(query, pages[i as int])
            && outcome.pages@[i as int],
{
    lemma_first_match(query, pages);
}

proof fn lemma_first_match(query: Seq<char>, pages: Seq<CategoryPage>)
    ensures
        first_match(query, pages) matches Some(i) ==> 0 <= i < pages.len() && page_matches(
            query,
            pages[i],
        ),
    decreases pages.len(),
{
    if pages.len() > 0 {
        lemma_first_match(query, pages.drop_last());
    }
}

// ---------------------------------------------------------------------------
// Pages and closing.
// ---------------------------------------------------------------------------

/// The texts of a field in the user's language.
#[derive(Debug)]
pub struct FieldTexts {
    pub path: String,
    pub title: String,
    pub description: String,
}

/// The id of a group as it is used: its own, or a general one where it has none
/// or a blank one.
pub open spec fn named_group(id: Option<Seq<char>>) -> Seq<char> {
    match id {
        Some(s) => if all_white(s) {
            "settings"@
        } else {
            s
        },
        None => "settings"@,
    }
}

/// The id of a group as it is used.
pub open spec fn group_name(id: Option<&str>) -> Seq<char> {
    named_group(
        match id {
            Some(s) => Some(s@),
            None => None,
        },
    )
}

/// Returns the page of a group.
pub fn category_page(id: Option<&str>, fields: &Vec<FieldTexts>) -> (r: CategoryPage)
    ensures
        r.id@ == group_name(id),
        r.fields@.len() == fields@.len(),
        forall|i: int|
            0 <= i < fields@.len() ==> (#[trigger] r.fields@[i])@ == searched_text(
                group_name(id),
                fields@[i].path@,
                fields@[i].title@,
                fields@[i].description@,
            ),
{
    let name = group_id(id);
    let mut texts: Vec<String> = Vec::new();
    let mut i: usize = 0;
    while i < fields.len()
        invariant
            i <= fields.len(),
            name@ == group_name(id),
            texts@.len() == i,
            forall|j: int|
                0 <= j < i ==> (#[trigger] texts@[j])@ == searched_text(
                    group_name(id),
                    fields@[j].path@,
                    fields@[j].title@,
                    fields@[j].description@,
                ),
        decreases fields.len() - i,
    {
        texts.push(
            field_search_text(
                name.as_str(),
                fields[i].path.as_str(),
                fields[i].title.as_str(),
                fields[i].description.as_str(),
            ),
        );
        i += 1;
    }
    CategoryPage { id: name, fields: texts }
}

/// The editor that a button of the window opens.
#[derive(Debug, Clone, Copy, PartialEq, Eq, Structural)]
pub enum Editor {
    Projects,
    Shortcuts,
}

/// Returns the editor of a setting that has one of its own.
pub fn editor_for(path: &str) -> (r: Option<Editor>)
    ensures
        r == if path@ == "/projects"@ {
            Some(Editor::Projects)
        } else if path@ == "/shortcuts/overrides"@ {
            Some(Editor::Shortcuts)
        } else {
            None
        },
{
    if same(path, "/projects") {
        Some(Editor::Projects)
    } else if same(path, "/shortcuts/overrides") {
        Some(Editor::Shortcuts)
    } else {
        None
    }
}

/// What closing the window leads to.
#[derive(Debug, Clone, Copy, PartialEq, Eq, Structural)]
pub enum CloseRequest {
    Proceed,
    ConfirmDiscard,
}

/// Returns what closing the window leads to: the user is asked where a change
/// would be lost, unless closing was allowed already by saving or discarding.
pub fn request_close(allowed: bool, controls: &Vec<FieldControl>) -> (r: CloseRequest)
    ensures
        r == if !allowed && some_changed(controls@) {
            CloseRequest::ConfirmDiscard
        } else {
            CloseRequest::Proceed
        },
{
    if !allowed && must_confirm_discard(controls) {
        CloseRequest::ConfirmDiscard
    } else {
        CloseRequest::Proceed
    }
}

/// Returns the status line after an attempt to save; nothing where it worked.
pub fn save_status(result: Result<(), String>) -> (r: Option<String>)
    ensures
        opt_view(r) == (match result {
            Ok(_) => None,
            Err(error) => Some("Could not save settings: "@ + error@),
        }),
{
    match result {
        Ok(_) => None,
        Err(error) => Some(concat2("Could not save settings: ", error.as_str())),
    }
}

// ---------------------------------------------------------------------------
// The preview.
// ---------------------------------------------------------------------------

/// Returns the line below the preview: the font, its size as it is shown and
/// the theme.
pub fn preview_summary(family: Option<&str>, size: &str, theme: &str) -> (r: String)
    ensures
        r@ == (match family {
            Some(f) => if f@.len() > 0 {
                f@
            } else {
                "JetBrains Mono"@
            },
            None => "JetBrains Mono"@,
        }) + "  ·  "@ + size@ + " pt  ·  "@ + theme@,
{
    let name = match family {
        Some(f) => {
            if f.is_empty() {
                "JetBrains Mono"
            } else {
                f
            }
        },
        None => "JetBrains Mono",
    };
    let mut text = concat3(name, "  ·  ", size);
    text.append(" pt  ·  ");
    text.append(theme);
    text
}

/// The string of a setting.
pub open spec fn setting_string(values: Seq<char>, path: Seq<char>) -> Option<Seq<char>> {
    match pointed(values, split_on(bare_path(path), '/')) {
        Some(value) => string_in(value),
        None => None,
    }
}

fn read_setting(values: &str, path: &str) -> (r: Option<String>)
    ensures
        opt_view(r) == setting_string(values@, path@),
{
    match pointer(values, path) {
        Some(value) => as_string(value.as_str()),
        None => None,
    }
}

/// What the preview shows of the settings: the family of the font, where one
/// is set, and the text of the theme.
#[derive(Debug)]
pub struct PreviewTexts {
    pub family: Option<String>,
    pub theme: SettingText,
}

/// Returns what the preview shows; `values` is the JSON text of all settings.
pub fn appearance_preview(values: &str) -> (r: PreviewTexts)
    ensures
        opt_view(r.family) == setting_string(values@, "/font/family"@),
        r.theme@ == (match setting_string(values@, "/theme/name"@) {
            Some(name) => option_text("/theme/name"@, name),
            None => SettingTextView::Plain("Follow system"@),
        }),
{
    PreviewTexts {
        family: read_setting(values, "/font/family"),
        theme: match read_setting(values, "/theme/name") {
            Some(name) => option_label("/theme/name", name.as_str()),
            None => SettingText::Plain("Follow system".to_owned()),
        },
    }
}

// ---------------------------------------------------------------------------
// Projects.
// ---------------------------------------------------------------------------

/// A saved project, as far as its row and its removal need it, and the JSON
/// text of the whole of it.
#[derive(Debug, PartialEq, Eq)]
pub struct ProjectRow {
    pub document: String,
    pub id: String,
    pub name: String,
    pub path: String,
    pub transport: String,
    pub runtime: String,
}

impl Clone for ProjectRow {
    fn clone(&self) -> (r: Self)
        ensures
            r == *self,
    {
        ProjectRow {
            document: self.document.clone(),
            id: self.id.clone(),
            name: self.name.clone(),
            path: self.path.clone(),
            transport: self.transport.clone(),
            runtime: self.runtime.clone(),
        }
    }
}

/// Returns the second line of a project.
pub fn project_detail(project: &ProjectRow) -> (r: String)
    ensures
        r@ == project.path@ + "  ·  "@ + project.transport@ + " / "@ + project.runtime@,
{
    let mut text = concat3(project.path.as_str(), "  ·  ", project.transport.as_str());
    text.append(" / ");
    text.append(project.runtime.as_str());
    text
}

/// The project has another id.
pub open spec fn other_project(id: Seq<char>) -> spec_fn(ProjectRow) -> bool {
    |p: ProjectRow| p.id@ != id
}

/// Returns the projects without those of the given id.
pub fn remove_project(projects: &Vec<ProjectRow>, id: &str) -> (r: Vec<ProjectRow>)
    ensures
        r@ == projects@.filter(other_project(id@)),
{
    let mut out: Vec<ProjectRow> = Vec::new();
    let mut i: usize = 0;
    proof {
        crate::seqs::lemma_filter_none(projects@, other_project(id@));
    }
    while i < projects.len()
        invariant
            i <= projects.len(),
            out@ == projects@.take(i as int).filter(other_project(id@)),
            projects@.take(projects@.len() as int) == projects@,
        decreases projects.len() - i,
    {
        proof {
            crate::seqs::lemma_filter_step(projects@, other_project(id@), i as int);
        }
        if !same(projects[i].id.as_str(), id) {
            out.push(projects[i].clone());
        }
        i += 1;
    }
    out
}

/// The rows of the project manager: the name and the second line of each
/// project.
pub fn project_rows(projects: &Vec<ProjectRow>) -> (r: Vec<(String, String)>)
    ensures
        r@.len() == projects@.len(),
        forall|i: int|
            0 <= i < projects@.len() ==> (#[trigger] r@[i]).0@ == projects@[i].name@ && r@[i].1@
                == projects@[i].path@ + "  ·  "@ + projects@[i].transport@ + " / "@
                + projects@[i].runtime@,
{
    let mut out: Vec<(String, String)> = Vec::new();
    let mut i: usize = 0;
    while i < projects.len()
        invariant
            i <= projects.len(),
            out@.len() == i,
            forall|j: int|
                0 <= j < i ==> (#[trigger] out@[j]).0@ == projects@[j].name@ && out@[j].1@
                    == projects@[j].path@ + "  ·  "@ + projects@[j].transport@ + " / "@
                    + projects@[j].runtime@,
        decreases projects.len() - i,
    {
        let detail = project_detail(&projects[i]);
        out.push((projects[i].name.clone(), detail));
        i += 1;
    }
    out
}

/// What was done in the project manager.
#[derive(Debug, Clone, Copy, PartialEq, Eq, Structural)]
pub enum ProjectChange {
    Added,
    Edited,
    Removed,
    /// The file of the settings was changed from outside.
    FileChanged,
}

/// What follows a change: whether the settings are told of it, and whether
/// the list is built anew at once.
#[derive(Debug, Clone, Copy, PartialEq, Eq)]
pub struct ProjectFollowUp {
    pub notify: bool,
    pub refresh: bool,
}

/// Returns what follows a change: `worked` tells whether it was saved, or the
/// changed file could be read. A change that was not saved has no effect; an
/// edit or a removal is shown once the file has changed.
pub fn show_project_manager(change: ProjectChange, worked: bool) -> (r: ProjectFollowUp)
    ensures
        r.notify == (worked && change != ProjectChange::FileChanged),
        r.refresh == (worked && (change == ProjectChange::Added || change
            == ProjectChange::FileChanged)),
{
    ProjectFollowUp {
        notify: worked && change != ProjectChange::FileChanged,
        refresh: worked && (change == ProjectChange::Added || change == ProjectChange::FileChanged),
    }
}

/// The JSON texts of projects.
pub open spec fn documents_of(projects: Seq<ProjectRow>) -> Seq<Seq<char>> {
    Seq::new(projects.len(), |i: int| projects[i].document@)
}

/// Returns the patch that saves the list of projects.
pub fn persist_projects(projects: &Vec<ProjectRow>) -> (r: ClientJsonPatchOperation)
    ensures
        r.op@ == "replace"@,
        r.path@ == "/projects"@,
        opt_view(r.value) == Some(json_list(documents_of(projects@))),
{
    let mut texts: Vec<String> = Vec::new();
    let mut i: usize = 0;
    assert(views(texts@) =~= documents_of(projects@.take(0)));
    while i < projects.len()
        invariant
            i <= projects.len(),
            views(texts@) == documents_of(projects@.take(i as int)),
        decreases projects.len() - i,
    {
        let ghost before = views(texts@);
        texts.push(projects[i].document.clone());
        assert(views(texts@) =~= before.push(projects@[i as int].document@));
        assert(documents_of(projects@.take(i + 1)) =~= documents_of(
            projects@.take(i as int),
        ).push(projects@[i as int].document@));
        i += 1;
    }
    assert(projects@.take(i as int) =~= projects@);
    replace("/projects", list_text(&texts))
}

/// Returns the patch that removes the projects of an id: what is saved are
/// the documents of the others, unchanged and in their order.
pub fn persist_removal(projects: &Vec<ProjectRow>, id: &str) -> (r: ClientJsonPatchOperation)
    ensures
        r.op@ == "replace"@,
        r.path@ == "/projects"@,
        opt_view(r.value) == Some(
            json_list(documents_of(projects@.filter(other_project(id@)))),
        ),
{
    let kept = remove_project(projects, id);
    persist_projects(&kept)
}

/// A removed project is gone, and no other one is.
pub proof fn law_removal_takes_one_project(projects: Seq<ProjectRow>, id: Seq<char>, p: ProjectRow)
    ensures
        projects.filter(other_project(id)).contains(p) <==> projects.contains(p) && p.id@ != id,
{
    let kept = projects.filter(other_project(id));
    if kept.contains(p) {
        projects.lemma_filter_contains_rev(other_project(id), p);
        let i = choose|i: int| 0 <= i < kept.len() && kept[i] == p;
        projects.lemma_filter_pred(other_project(id), i);
    }
    if projects.contains(p) && p.id@ != id {
        let i = choose|i: int| 0 <= i < projects.len() && projects[i] == p;
        projects.lemma_filter_contains(other_project(id), i);
    }
}

} // verus!
