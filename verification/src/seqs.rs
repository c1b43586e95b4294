//! Looking up elements of sequences.
use vstd::prelude::*;

verus! {

/// `i` is the first position at which `p` holds.
pub open spec fn is_first<T>(s: Seq<T>, p: spec_fn(T) -> bool, i: int) -> bool {
    &&& 0 <= i < s.len()
    &&& p(s[i])
    &&& forall|j: int| 0 <= j < i ==> !p(#[trigger] s[j])
}

/// The first position at which `p` holds.
pub open spec fn first_where<T>(s: Seq<T>, p: spec_fn(T) -> bool) -> Option<int> {
    if exists|i: int| is_first(s, p, i) {
        Some(choose|i: int| is_first(s, p, i))
    } else {
        None
    }
}

/// The first element for which `p` holds.
pub open spec fn find<T>(s: Seq<T>, p: spec_fn(T) -> bool) -> Option<T> {
    match first_where(s, p) {
        Some(i) => Some(s[i]),
        None => None,
    }
}

/// There is only one first position.
pub proof fn lemma_first_where<T>(s: Seq<T>, p: spec_fn(T) -> bool, i: int)
    requires
        is_first(s, p, i),
    ensures
        first_where(s, p) == Some(i),
        find(s, p) == Some(s[i]),
{
    let k = choose|k: int| is_first(s, p, k);
    if k < i {
        assert(!p(s[k]));
    }
    if i < k {
        assert(!p(s[i]));
    }
}

/// Where `p` holds nowhere there is no first position.
pub proof fn lemma_no_first<T>(s: Seq<T>, p: spec_fn(T) -> bool)
    requires
        forall|j: int| 0 <= j < s.len() ==> !p(#[trigger] s[j]),
    ensures
        first_where(s, p) == None::<int>,
        find(s, p) == None::<T>,
{
    if exists|i: int| is_first(s, p, i) {
        let i = choose|i: int| is_first(s, p, i);
        assert(!p(s[i]));
    }
}

/// What is found satisfies `p`, and something is found exactly when there is
/// something to find.
pub proof fn lemma_find<T>(s: Seq<T>, p: spec_fn(T) -> bool)
    ensures
        find(s, p) is Some <==> exists|j: int| 0 <= j < s.len() && p(#[trigger] s[j]),
        find(s, p) matches Some(x) ==> p(x) && s.contains(x),
    decreases s.len(),
{
    if exists|j: int| 0 <= j < s.len() && p(#[trigger] s[j]) {
        let j = choose|j: int| 0 <= j < s.len() && p(#[trigger] s[j]);
        let i = lemma_descend(s, p, j);
        lemma_first_where(s, p, i);
    } else {
        lemma_no_first(s, p);
    }
}

proof fn lemma_descend<T>(s: Seq<T>, p: spec_fn(T) -> bool, j: int) -> (i: int)
    requires
        0 <= j < s.len(),
        p(s[j]),
    ensures
        is_first(s, p, i),
    decreases j,
{
    if exists|k: int| 0 <= k < j && p(#[trigger] s[k]) {
        let k = choose|k: int| 0 <= k < j && p(#[trigger] s[k]);
        lemma_descend(s, p, k)
    } else {
        j
    }
}

/// Filtering one element more.
pub proof fn lemma_filter_step<T>(s: Seq<T>, p: spec_fn(T) -> bool, i: int)
    requires
        0 <= i < s.len(),
    ensures
        s.take(i + 1).filter(p) == if p(s[i]) {
            s.take(i).filter(p).push(s[i])
        } else {
            s.take(i).filter(p)
        },
{
    reveal(Seq::filter);
    assert(s.take(i + 1).drop_last() =~= s.take(i));
}

/// Filtering nothing.
pub proof fn lemma_filter_none<T>(s: Seq<T>, p: spec_fn(T) -> bool)
    ensures
        s.take(0).filter(p) == Seq::<T>::empty(),
        s.take(s.len() as int) == s,
{
    reveal(Seq::filter);
    assert(s.take(0) =~= Seq::<T>::empty());
    assert(s.take(s.len() as int) =~= s);
}

/// The elements of a sequence of sequences, one after the other.
pub open spec fn flat<T>(s: Seq<Seq<T>>) -> Seq<T>
    decreases s.len(),
{
    if s.len() == 0 {
        Seq::<T>::empty()
    } else {
        flat(s.drop_last()) + s.last()
    }
}

/// One more sequence adds its elements at the end.
pub proof fn lemma_flat_step<T>(s: Seq<Seq<T>>, i: int)
    requires
        0 <= i < s.len(),
    ensures
        flat(s.take(i + 1)) == flat(s.take(i)) + s[i],
{
    assert(s.take(i + 1).drop_last() =~= s.take(i));
}

/// An element of a chain of sequences comes from one of them; where each of
/// them has one element at most, different places come from different ones.
pub proof fn lemma_flat_source<T>(s: Seq<Seq<T>>, i: int) -> (k: int)
    requires
        forall|j: int| 0 <= j < s.len() ==> (#[trigger] s[j]).len() <= 1,
        0 <= i < flat(s).len(),
    ensures
        0 <= k < s.len(),
        s[k].len() == 1,
        s[k][0] == flat(s)[i],
        i == flat(s.take(k)).len(),
    decreases s.len(),
{
    let init = s.drop_last();
    if i < flat(init).len() {
        assert forall|j: int| 0 <= j < init.len() implies (#[trigger] init[j]).len() <= 1 by {
            assert(init[j] == s[j]);
        }
        let k = lemma_flat_source(init, i);
        assert(init.take(k) =~= s.take(k));
        k
    } else {
        let k = s.len() - 1;
        assert(s.take(k) =~= init);
        k
    }
}

/// What one of the sequences of a chain holds, the chain holds.
pub proof fn lemma_flat_holds<T>(s: Seq<Seq<T>>, k: int, x: T)
    requires
        0 <= k < s.len(),
        s[k].contains(x),
    ensures
        flat(s).contains(x),
    decreases s.len(),
{
    let init = s.drop_last();
    if k == s.len() - 1 {
        let j = choose|j: int| 0 <= j < s[k].len() && s[k][j] == x;
        assert(flat(s)[flat(init).len() + j] == x);
    } else {
        assert(init[k] == s[k]);
        lemma_flat_holds(init, k, x);
        let j = choose|j: int| 0 <= j < flat(init).len() && flat(init)[j] == x;
        assert(flat(s)[j] == x);
    }
}

/// What a chain holds, one of its sequences holds.
pub proof fn lemma_flat_member<T>(s: Seq<Seq<T>>, x: T) -> (k: int)
    requires
        flat(s).contains(x),
    ensures
        0 <= k < s.len(),
        s[k].contains(x),
    decreases s.len(),
{
    let init = s.drop_last();
    let i = choose|i: int| 0 <= i < flat(s).len() && flat(s)[i] == x;
    if i < flat(init).len() {
        assert(flat(init)[i] == x);
        let k = lemma_flat_member(init, x);
        assert(init[k] == s[k]);
        k
    } else {
        assert(s.last()[i - flat(init).len()] == x);
        s.len() - 1
    }
}

/// Tells whether a number is among others.
pub fn lists_number(v: &Vec<u32>, x: u32) -> (r: bool)
    ensures
        r == v@.contains(x),
{
    let mut i: usize = 0;
    while i < v.len()
        invariant
            i <= v.len(),
            forall|j: int| 0 <= j < i ==> v@[j] != x,
        decreases v.len() - i,
    {
        if v[i] == x {
            return true;
        }
        i += 1;
    }
    false
}

} // verus!
