//! The resident scenes of a window, one for each workspace.
//!
//! Showing another scene calls nothing; only closing a workspace removes one.
use vstd::prelude::*;

use crate::text::{contains_string, opt_view, same, views};

verus! {

/// The resident scenes and the visible one.
#[derive(Debug, PartialEq, Eq)]
pub struct SceneStack {
    order: Vec<String>,
    visible: Option<String>,
}

/// What a [`SceneStack`] holds.
pub struct SceneStackView {
    pub order: Seq<Seq<char>>,
    pub visible: Option<Seq<char>>,
}

impl View for SceneStack {
    type V = SceneStackView;

    closed spec fn view(&self) -> SceneStackView {
        SceneStackView { order: views(self.order@), visible: opt_view(self.visible) }
    }
}

/// No scene is listed twice, and a visible scene is listed.
pub open spec fn well_formed(s: SceneStackView) -> bool {
    &&& s.order.no_duplicates()
    &&& s.visible matches Some(id) ==> s.order.contains(id)
}

/// The stack after a scene was made resident.
pub open spec fn ensured(s: SceneStackView, id: Seq<char>) -> SceneStackView {
    if s.order.contains(id) {
        s
    } else {
        SceneStackView { order: s.order.push(id), ..s }
    }
}

/// Not the given scene.
pub open spec fn is_other(id: Seq<char>) -> spec_fn(Seq<char>) -> bool {
    |s: Seq<char>| s != id
}

/// The stack after a scene was removed: where it was visible, the last scene
/// that is left becomes visible.
pub open spec fn removed(s: SceneStackView, id: Seq<char>) -> SceneStackView {
    let order = s.order.filter(is_other(id));
    SceneStackView {
        order,
        visible: if s.visible == Some(id) {
            if order.len() > 0 {
                Some(order.last())
            } else {
                None
            }
        } else {
            s.visible
        },
    }
}

impl Default for SceneStack {
    fn default() -> (r: Self)
        ensures
            r@.order == Seq::<Seq<char>>::empty(),
            r@.visible == None::<Seq<char>>,
            well_formed(r@),
    {
        let r = SceneStack { order: Vec::new(), visible: None };
        assert(r@.order =~= Seq::<Seq<char>>::empty());
        r
    }
}

impl SceneStack {
    /// A stack without scenes.
    pub fn new() -> (r: Self)
        ensures
            r@.order == Seq::<Seq<char>>::empty(),
            r@.visible == None::<Seq<char>>,
            well_formed(r@),
    {
        SceneStack::default()
    }

    /// A stack whose first scene is visible.
    pub fn with_visible(workspace_id: String) -> (r: Self)
        ensures
            r@.order == seq![workspace_id@],
            r@.visible == Some(workspace_id@),
            well_formed(r@),
    {
        let mut order: Vec<String> = Vec::new();
        order.push(workspace_id.clone());
        let r = SceneStack { order, visible: Some(workspace_id) };
        assert(r@.order =~= seq![workspace_id@]);
        assert(r@.order[0] == workspace_id@);
        r
    }

    /// Keeps a scene resident.
    pub fn ensure(&mut self, workspace_id: &str)
        ensures
            final(self)@ == ensured(old(self)@, workspace_id@),
    {
        if !contains_string(&self.order, workspace_id) {
            self.order.push(workspace_id.to_owned());
        }
        assert(self@.order =~= ensured(old(self)@, workspace_id@).order);
    }

    /// Shows a resident scene; an unknown one changes nothing.
    pub fn show(&mut self, workspace_id: &str) -> (r: bool)
        ensures
            r == old(self)@.order.contains(workspace_id@),
            final(self)@ == (SceneStackView {
                visible: if r {
                    Some(workspace_id@)
                } else {
                    old(self)@.visible
                },
                ..old(self)@
            }),
    {
        if !contains_string(&self.order, workspace_id) {
            return false;
        }
        self.visible = Some(workspace_id.to_owned());
        true
    }

    /// Removes the scene of a closed workspace.
    pub fn remove(&mut self, workspace_id: &str)
        ensures
            final(self)@ == removed(old(self)@, workspace_id@),
    {
        let ghost before = views(self.order@);
        let ghost p = is_other(workspace_id@);
        let mut kept: Vec<String> = Vec::new();
        let mut i: usize = 0;
        proof {
            crate::seqs::lemma_filter_none(before, p);
            assert(views(kept@) =~= Seq::<Seq<char>>::empty());
        }
        while i < self.order.len()
            invariant
                i <= self.order.len(),
                before == views(self.order@),
                self.visible == old(self).visible,
                p == is_other(workspace_id@),
                views(kept@) == before.take(i as int).filter(p),
            decreases self.order.len() - i,
        {
            let ghost shown = views(kept@);
            proof {
                crate::seqs::lemma_filter_step(before, p, i as int);
            }
            if !same(self.order[i].as_str(), workspace_id) {
                kept.push(self.order[i].clone());
                assert(views(kept@) =~= shown.push(before[i as int]));
            }
            i += 1;
        }
        let was_visible = match &self.visible {
            Some(v) => same(v.as_str(), workspace_id),
            None => false,
        };
        if was_visible {
            self.visible = if kept.len() > 0 {
                Some(kept[kept.len() - 1].clone())
            } else {
                None
            };
        }
        self.order = kept;
        proof {
            crate::seqs::lemma_filter_none(before, p);
        }
        assert(self@ == removed(old(self)@, workspace_id@));
    }

    /// Tells whether a scene is resident.
    pub fn contains(&self, workspace_id: &str) -> (r: bool)
        ensures
            r == self@.order.contains(workspace_id@),
    {
        contains_string(&self.order, workspace_id)
    }

    /// Returns the visible scene.
    pub fn visible_id(&self) -> (r: Option<&str>)
        ensures
            match r {
                Some(s) => self@.visible == Some(s@),
                None => self@.visible is None,
            },
    {
        match &self.visible {
            Some(s) => Some(s.as_str()),
            None => None,
        }
    }

    /// Returns the resident scenes in order.
    pub fn ids(&self) -> (r: Vec<String>)
        ensures
            views(r@) == self@.order,
    {
        crate::text::clone_strings(&self.order)
    }

    /// Returns how many scenes are resident.
    pub fn len(&self) -> (r: usize)
        ensures
            r == self@.order.len(),
    {
        self.order.len()
    }

    /// Tells whether no scene is resident.
    pub fn is_empty(&self) -> (r: bool)
        ensures
            r == (self@.order.len() == 0),
    {
        self.order.len() == 0
    }

    /// Returns each resident scene once.
    pub fn id_set(&self) -> (r: Vec<String>)
        ensures
            views(r@).no_duplicates(),
            forall|id: Seq<char>| views(r@).contains(id) <==> self@.order.contains(id),
    {
        let ghost all = views(self.order@);
        let mut out: Vec<String> = Vec::new();
        let mut i: usize = 0;
        while i < self.order.len()
            invariant
                i <= self.order.len(),
                all == views(self.order@),
                views(out@).no_duplicates(),
                forall|id: Seq<char>|
                    views(out@).contains(id) <==> all.take(i as int).contains(id),
            decreases self.order.len() - i,
        {
            let ghost before = views(out@);
            proof {
                assert(all.take(i + 1) =~= all.take(i as int).push(all[i as int]));
                lemma_push_contains(all.take(i as int), all[i as int]);
            }
            if !contains_string(&out, self.order[i].as_str()) {
                out.push(self.order[i].clone());
                proof {
                    assert(views(out@) =~= before.push(all[i as int]));
                    lemma_push_contains(before, all[i as int]);
                }
            }
            assert forall|id: Seq<char>|
                views(out@).contains(id) <==> all.take(i + 1).contains(id) by {
                assert(all.take(i + 1).contains(id) <==> all.take(i as int).push(
                    all[i as int],
                ).contains(id));
                assert(before.contains(id) <==> all.take(i as int).contains(id));
            }
            i += 1;
        }
        assert(all.take(all.len() as int) =~= all);
        out
    }
}

proof fn lemma_push_contains(s: Seq<Seq<char>>, x: Seq<char>)
    ensures
        forall|y: Seq<char>| s.push(x).contains(y) <==> s.contains(y) || y == x,
{
    assert forall|y: Seq<char>| s.push(x).contains(y) <==> s.contains(y) || y == x by {
        if s.contains(y) {
            let i = choose|i: int| 0 <= i < s.len() && s[i] == y;
            assert(s.push(x)[i] == y);
        }
        if y == x {
            assert(s.push(x)[s.len() as int] == y);
        }
    }
}

/// Every operation keeps the stack well formed.
pub proof fn law_stack_stays_well_formed(s: SceneStackView, id: Seq<char>)
    requires
        well_formed(s),
    ensures
        well_formed(ensured(s, id)),
        s.order.contains(id) ==> well_formed(SceneStackView { visible: Some(id), ..s }),
        well_formed(removed(s, id)),
{
    lemma_push_contains(s.order, id);
    lemma_filter_facts(s.order, id);
    let kept = s.order.filter(is_other(id));
    if kept.len() > 0 {
        assert(kept.contains(kept.last()));
    }
    if s.visible is Some && s.visible != Some(id) {
        assert(kept.contains(s.visible->0));
    }
}

proof fn lemma_filter_facts(s: Seq<Seq<char>>, id: Seq<char>)
    ensures
        forall|x: Seq<char>| s.filter(is_other(id)).contains(x) <==> s.contains(x) && x != id,
        s.no_duplicates() ==> s.filter(is_other(id)).no_duplicates(),
    decreases s.len(),
{
    reveal(Seq::filter);
    if s.len() > 0 {
        let init = s.drop_last();
        lemma_filter_facts(init, id);
        lemma_push_contains(init, s.last());
        assert(s =~= init.push(s.last()));
        let f = init.filter(is_other(id));
        lemma_push_contains(f, s.last());
        let g = s.filter(is_other(id));
        assert(g == if s.last() != id {
            f.push(s.last())
        } else {
            f
        });
        assert forall|x: Seq<char>| g.contains(x) <==> s.contains(x) && x != id by {
            assert(f.contains(x) <==> init.contains(x) && x != id);
            assert(s.contains(x) <==> init.push(s.last()).contains(x));
            assert(f.push(s.last()).contains(x) <==> f.contains(x) || x == s.last());
        }
        if s.no_duplicates() {
            assert(init.no_duplicates());
            assert(!init.contains(s.last())) by {
                if init.contains(s.last()) {
                    let k = choose|k: int| 0 <= k < init.len() && init[k] == s.last();
                    assert(s[k] == s[s.len() - 1]);
                }
            }
        }
    }
}

/// A removed scene is gone; every other scene stays resident.
pub proof fn law_only_the_removed_scene_goes(s: SceneStackView, id: Seq<char>, other: Seq<char>)
    ensures
        removed(s, id).order.contains(other) <==> s.order.contains(other) && other != id,
{
    lemma_filter_facts(s.order, id);
}

/// Showing and keeping scenes never removes one.
pub proof fn law_scenes_stay_resident(s: SceneStackView, id: Seq<char>, other: Seq<char>)
    requires
        s.order.contains(other),
    ensures
        ensured(s, id).order.contains(other),
        ensured(s, id).visible == s.visible,
{
    lemma_push_contains(s.order, id);
}

} // verus!
