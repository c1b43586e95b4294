//! Looking for one string inside another.
use vstd::prelude::*;

verus! {

/// `n` stands in `h` at position `i`.
pub open spec fn occurs_at(h: Seq<char>, n: Seq<char>, i: int) -> bool {
    0 <= i && i + n.len() <= h.len() && h.subrange(i, i + n.len()) == n
}

/// `n` stands somewhere in `h`.
pub open spec fn contains(h: Seq<char>, n: Seq<char>) -> bool {
    exists|i: int| occurs_at(h, n, i)
}

/// Tells whether `n` stands in `h` at position `i`.
pub fn matches_at(h: &Vec<char>, n: &Vec<char>, i: usize) -> (r: bool)
    requires
        i + n.len() <= h.len(),
    ensures
        r == occurs_at(h@, n@, i as int),
{
    let mut k: usize = 0;
    while k < n.len()
        invariant
            k <= n.len(),
            i + n.len() <= h.len(),
            forall|j: int| 0 <= j < k ==> h@[i + j] == n@[j],
        decreases n.len() - k,
    {
        if h[i + k] != n[k] {
            assert(h@.subrange(i as int, i + n@.len())[k as int] != n@[k as int]);
            return false;
        }
        k += 1;
    }
    assert(h@.subrange(i as int, i + n@.len()) =~= n@);
    true
}

/// Tells whether `n` stands somewhere in `h`.
pub fn contains_chars(h: &Vec<char>, n: &Vec<char>) -> (r: bool)
    ensures
        r == contains(h@, n@),
{
    if n.len() > h.len() {
        return false;
    }
    let last: usize = h.len() - n.len();
    let mut i: usize = 0;
    while i <= last
        invariant
            i <= last + 1,
            last == h.len() - n.len(),
            forall|j: int| 0 <= j < i ==> !occurs_at(h@, n@, j),
        decreases last + 1 - i,
    {
        if matches_at(h, n, i) {
            return true;
        }
        if i == last {
            return false;
        }
        i += 1;
    }
    false
}

/// The characters of `q` stand in `c` in the same order, gaps allowed: each
/// is matched with the first character of `c` that is equal to it.
pub open spec fn is_subsequence(q: Seq<char>, c: Seq<char>) -> bool
    decreases c.len(),
{
    if q.len() == 0 {
        true
    } else if c.len() == 0 {
        false
    } else if q[0] == c[0] {
        is_subsequence(q.drop_first(), c.drop_first())
    } else {
        is_subsequence(q, c.drop_first())
    }
}

/// `at` places the characters of `q` at rising positions of `c`.
pub open spec fn places(at: Seq<int>, q: Seq<char>, c: Seq<char>) -> bool {
    &&& at.len() == q.len()
    &&& forall|i: int| 0 <= i < at.len() ==> 0 <= #[trigger] at[i] < c.len() && c[at[i]] == q[i]
    &&& forall|i: int, j: int| 0 <= i < j < at.len() ==> #[trigger] at[i] < #[trigger] at[j]
}

/// Matching each character at its first occurrence loses nothing: `q` is a
/// subsequence of `c` exactly when its characters can be placed at rising
/// positions of `c`.
pub proof fn law_subsequence_is_placement(q: Seq<char>, c: Seq<char>)
    ensures
        is_subsequence(q, c) <==> exists|at: Seq<int>| places(at, q, c),
{
    if is_subsequence(q, c) {
        let at = lemma_placement_of(q, c);
        assert(places(at, q, c));
    }
    if exists|at: Seq<int>| places(at, q, c) {
        let at = choose|at: Seq<int>| places(at, q, c);
        lemma_placed_is_subsequence(at, q, c);
    }
}

proof fn lemma_placement_of(q: Seq<char>, c: Seq<char>) -> (at: Seq<int>)
    requires
        is_subsequence(q, c),
    ensures
        places(at, q, c),
    decreases c.len(),
{
    if q.len() == 0 {
        Seq::<int>::empty()
    } else if q[0] == c[0] {
        let rest = lemma_placement_of(q.drop_first(), c.drop_first());
        let at = seq![0int] + Seq::new(rest.len(), |i: int| rest[i] + 1);
        assert forall|i: int| 0 <= i < at.len() implies 0 <= #[trigger] at[i] < c.len() && c[at[i]]
            == q[i] by {
            if i > 0 {
                assert(at[i] == rest[i - 1] + 1);
                assert(c.drop_first()[rest[i - 1]] == q.drop_first()[i - 1]);
            }
        }
        at
    } else {
        let rest = lemma_placement_of(q, c.drop_first());
        let at = Seq::new(rest.len(), |i: int| rest[i] + 1);
        assert forall|i: int| 0 <= i < at.len() implies 0 <= #[trigger] at[i] < c.len() && c[at[i]]
            == q[i] by {
            assert(c.drop_first()[rest[i]] == q[i]);
        }
        at
    }
}

proof fn lemma_placed_is_subsequence(at: Seq<int>, q: Seq<char>, c: Seq<char>)
    requires
        places(at, q, c),
    ensures
        is_subsequence(q, c),
    decreases c.len(),
{
    if q.len() > 0 {
        assert(0 <= at[0] < c.len());
        if q[0] == c[0] {
            let t = Seq::new((at.len() - 1) as nat, |i: int| at[i + 1] - 1);
            assert forall|i: int| 0 <= i < t.len() implies 0 <= #[trigger] t[i]
                < c.drop_first().len() && c.drop_first()[t[i]] == q.drop_first()[i] by {
                assert(at[0] < at[i + 1]);
                assert(c[at[i + 1]] == q[i + 1]);
            }
            assert forall|i: int, j: int| 0 <= i < j < t.len() implies #[trigger] t[i]
                < #[trigger] t[j] by {
                assert(at[i + 1] < at[j + 1]);
            }
            lemma_placed_is_subsequence(t, q.drop_first(), c.drop_first());
        } else {
            let t = Seq::new(at.len(), |i: int| at[i] - 1);
            assert(at[0] != 0);
            assert forall|i: int| 0 <= i < t.len() implies 0 <= #[trigger] t[i]
                < c.drop_first().len() && c.drop_first()[t[i]] == q[i] by {
                if i > 0 {
                    assert(at[0] < at[i]);
                }
                assert(c[at[i]] == q[i]);
            }
            assert forall|i: int, j: int| 0 <= i < j < t.len() implies #[trigger] t[i]
                < #[trigger] t[j] by {
                assert(at[i] < at[j]);
            }
            lemma_placed_is_subsequence(t, q, c.drop_first());
        }
    }
}

/// A string that stands in another is a subsequence of it.
pub proof fn lemma_contained_is_subsequence(h: Seq<char>, n: Seq<char>)
    requires
        contains(h, n),
    ensures
        is_subsequence(n, h),
{
    let p = choose|i: int| occurs_at(h, n, i);
    let at = Seq::new(n.len(), |i: int| p + i);
    assert forall|i: int| 0 <= i < at.len() implies 0 <= #[trigger] at[i] < h.len() && h[at[i]]
        == n[i] by {
        assert(h.subrange(p, p + n.len())[i] == n[i]);
    }
    lemma_placed_is_subsequence(at, n, h);
}

/// Tells whether the characters of `q` stand in `c` in order.
pub fn subsequence_chars(q: &Vec<char>, c: &Vec<char>) -> (r: bool)
    ensures
        r == is_subsequence(q@, c@),
{
    let mut qi: usize = 0;
    let mut ci: usize = 0;
    proof {
        assert(q@.skip(0) =~= q@);
        assert(c@.skip(0) =~= c@);
    }
    while qi < q.len() && ci < c.len()
        invariant
            qi <= q.len(),
            ci <= c.len(),
            is_subsequence(q@, c@) == is_subsequence(q@.skip(qi as int), c@.skip(ci as int)),
        decreases c.len() - ci,
    {
        proof {
            assert(q@.skip(qi as int).drop_first() =~= q@.skip(qi + 1));
            assert(c@.skip(ci as int).drop_first() =~= c@.skip(ci + 1));
            assert(q@.skip(qi as int)[0] == q@[qi as int]);
            assert(c@.skip(ci as int)[0] == c@[ci as int]);
        }
        if q[qi] == c[ci] {
            qi += 1;
        }
        ci += 1;
    }
    qi == q.len()
}

/// `p` stands at the start of `s`.
pub open spec fn starts_with(s: Seq<char>, p: Seq<char>) -> bool {
    p.len() <= s.len() && s.take(p.len() as int) == p
}

/// Tells whether `p` stands at the start of `s`.
pub fn has_prefix(s: &Vec<char>, p: &Vec<char>) -> (r: bool)
    ensures
        r == starts_with(s@, p@),
{
    if p.len() > s.len() {
        return false;
    }
    let r = matches_at(s, p, 0);
    assert(s@.subrange(0, p@.len() as int) =~= s@.take(p@.len() as int));
    r
}

/// What stands behind the first occurrence of `n` in `h`.
pub open spec fn after_first(h: Seq<char>, n: Seq<char>) -> Option<Seq<char>>
    decreases h.len(),
{
    if starts_with(h, n) {
        Some(h.skip(n.len() as int))
    } else if h.len() == 0 {
        None
    } else {
        after_first(h.drop_first(), n)
    }
}

/// Returns the position behind the first occurrence of `n` in `h`.
pub fn find_after(h: &Vec<char>, n: &Vec<char>) -> (r: Option<usize>)
    ensures
        match r {
            Some(i) => i <= h.len() && after_first(h@, n@) == Some(h@.skip(i as int)),
            None => after_first(h@, n@) is None,
        },
{
    let mut i: usize = 0;
    assert(h@.skip(0) =~= h@);
    loop
        invariant
            i <= h.len(),
            after_first(h@, n@) == after_first(h@.skip(i as int), n@),
        decreases h.len() - i,
    {
        let ghost s = h@.skip(i as int);
        if n.len() <= h.len() - i && matches_at(h, n, i) {
            assert(s.take(n@.len() as int) =~= h@.subrange(i as int, i + n@.len()));
            assert(starts_with(s, n@));
            assert(s.skip(n@.len() as int) =~= h@.skip(i + n@.len()));
            return Some(i + n.len());
        }
        proof {
            if starts_with(s, n@) {
                assert(s.take(n@.len() as int) =~= h@.subrange(i as int, i + n@.len()));
            }
        }
        if i == h.len() {
            return None;
        }
        assert(s.drop_first() =~= h@.skip(i + 1));
        i += 1;
    }
}

} // verus!
