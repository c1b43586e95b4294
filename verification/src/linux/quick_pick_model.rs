//! Picking one of many: matching, filtering and the size of the list.
use vstd::prelude::*;

use crate::seqs::{lemma_filter_none, lemma_filter_step};
use crate::text::find::{
    contains_chars, is_subsequence, lemma_contained_is_subsequence, subsequence_chars,
};
use crate::text::{chars_of, clone_opt, lowercase_of, to_lowercase, trim, trimmed};

verus! {

/// Height of the entry above the list.
pub const ENTRY_HEIGHT: i32 = 36;

/// The id of an item that the user typed.
pub const FREEFORM_ID: &'static str = "__typed__";

/// One item to pick.
#[derive(Debug, PartialEq, Eq)]
pub struct QuickPickItem {
    pub id: String,
    pub label: String,
    pub detail: Option<String>,
}

impl Clone for QuickPickItem {
    fn clone(&self) -> (r: Self)
        ensures
            r == *self,
    {
        QuickPickItem {
            id: self.id.clone(),
            label: self.label.clone(),
            detail: clone_opt(&self.detail),
        }
    }
}

/// Returns the heights of the panel and of its list for a window.
pub fn panel_list_heights(parent_h: i32) -> (r: (i32, i32))
    ensures
        r.0 == if parent_h < 400 {
            200
        } else if parent_h > 841 {
            420
        } else {
            parent_h as int / 2
        },
        r.1 == r.0 - ENTRY_HEIGHT - 8,
        100 <= r.1 <= r.0,
{
    let half: i32 = if parent_h < 0 {
        0
    } else {
        parent_h / 2
    };
    let panel_h: i32 = if half < 200 {
        200
    } else if half > 420 {
        420
    } else {
        half
    };
    let rest: i32 = panel_h - ENTRY_HEIGHT - 8;
    let list_h: i32 = if rest < 100 {
        100
    } else {
        rest
    };
    (panel_h, list_h)
}

/// Every character of the query stands in the target in order, both in lower
/// case. An empty query matches everything.
pub open spec fn fuzzy(query: Seq<char>, target: Seq<char>) -> bool {
    query.len() == 0 || is_subsequence(lowercase_of(query), lowercase_of(target))
}

/// Tells whether every character of `query` stands in `target` in order.
pub fn fuzzy_lowered(query: &str, target: &str) -> (r: bool)
    ensures
        r == is_subsequence(query@, target@),
{
    let q = chars_of(query);
    let t = chars_of(target);
    if contains_chars(&t, &q) {
        proof {
            lemma_contained_is_subsequence(t@, q@);
        }
        return true;
    }
    subsequence_chars(&q, &t)
}

/// Tells whether a query matches a target.
pub fn fuzzy_match(query: &str, target: &str) -> (r: bool)
    ensures
        r == fuzzy(query@, target@),
{
    if query.is_empty() {
        return true;
    }
    let q = to_lowercase(query);
    let t = to_lowercase(target);
    fuzzy_lowered(q.as_str(), t.as_str())
}

/// The label or the detail of an item matches.
pub open spec fn item_matches(query: Seq<char>) -> spec_fn(QuickPickItem) -> bool {
    |item: QuickPickItem|
        fuzzy(query, item.label@) || (item.detail matches Some(d) && fuzzy(query, d@))
}

fn matches_item(query: &str, item: &QuickPickItem) -> (r: bool)
    ensures
        r == item_matches(query@)(*item),
{
    fuzzy_match(query, item.label.as_str()) || match &item.detail {
        Some(d) => fuzzy_match(query, d.as_str()),
        None => false,
    }
}

/// Keeps the items whose label or detail matches, in order.
pub fn filter_items(items: &Vec<QuickPickItem>, query: &str) -> (r: Vec<QuickPickItem>)
    ensures
        r@ == items@.filter(item_matches(query@)),
{
    let mut out: Vec<QuickPickItem> = Vec::new();
    let mut i: usize = 0;
    proof {
        lemma_filter_none(items@, item_matches(query@));
    }
    while i < items.len()
        invariant
            i <= items.len(),
            out@ == items@.take(i as int).filter(item_matches(query@)),
        decreases items.len() - i,
    {
        proof {
            lemma_filter_step(items@, item_matches(query@), i as int);
        }
        if matches_item(query, &items[i]) {
            out.push(items[i].clone());
        }
        i += 1;
    }
    proof {
        lemma_filter_none(items@, item_matches(query@));
    }
    out
}

/// Keeps the presets that match what was typed; where something was typed it
/// comes first, as an item of its own with `typed_detail` as its detail.
pub fn freeform_filter(presets: &Vec<QuickPickItem>, query: &str, typed_detail: &str) -> (r: Vec<
    QuickPickItem,
>)
    ensures
        trimmed(query@).len() == 0 ==> r@ == presets@,
        trimmed(query@).len() > 0 ==> {
            &&& r.len() > 0
            &&& r@[0].id@ == FREEFORM_ID@
            &&& r@[0].label@ == trimmed(query@)
            &&& r@[0].detail matches Some(d) && d@ == typed_detail@
            &&& r@.skip(1) == presets@.filter(item_matches(trimmed(query@)))
        },
{
    let q = trim(query);
    let mut out: Vec<QuickPickItem> = Vec::new();
    if q.as_str().is_empty() {
        let mut i: usize = 0;
        while i < presets.len()
            invariant
                i <= presets.len(),
                out@ == presets@.take(i as int),
            decreases presets.len() - i,
        {
            out.push(presets[i].clone());
            assert(presets@.take(i + 1) =~= presets@.take(i as int).push(presets@[i as int]));
            i += 1;
        }
        assert(presets@.take(presets@.len() as int) =~= presets@);
        return out;
    }
    let mut rest = filter_items(presets, q.as_str());
    out.push(
        QuickPickItem {
            id: FREEFORM_ID.to_owned(),
            label: q,
            detail: Some(typed_detail.to_owned()),
        },
    );
    out.append(&mut rest);
    assert(out@.skip(1) =~= presets@.filter(item_matches(trimmed(query@))));
    out
}

/// An empty query keeps every item.
pub proof fn law_empty_query_keeps_all(items: Seq<QuickPickItem>)
    ensures
        items.filter(item_matches(Seq::<char>::empty())) == items,
    decreases items.len(),
{
    reveal(Seq::filter);
    if items.len() > 0 {
        law_empty_query_keeps_all(items.drop_last());
        assert(items =~= items.drop_last().push(items.last()));
    }
}

/// A string that holds the query, apart from case, matches it.
pub proof fn law_substring_matches(query: Seq<char>, target: Seq<char>)
    requires
        crate::text::find::contains(lowercase_of(target), lowercase_of(query)),
    ensures
        fuzzy(query, target),
{
    lemma_contained_is_subsequence(lowercase_of(target), lowercase_of(query));
}

} // verus!
