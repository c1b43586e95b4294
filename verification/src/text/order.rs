//! The order of strings, ASCII case and stable sorting.
use vstd::prelude::*;

use crate::text::{chars_of, push_char};

verus! {

/// `a` stands before `b` in the order by code points.
pub open spec fn text_lt(a: Seq<char>, b: Seq<char>) -> bool
    decreases a.len(),
{
    if b.len() == 0 {
        false
    } else if a.len() == 0 {
        true
    } else if a[0] == b[0] {
        text_lt(a.drop_first(), b.drop_first())
    } else {
        a[0] < b[0]
    }
}

/// `a` does not stand after `b` in the order by code points.
pub open spec fn text_le(a: Seq<char>, b: Seq<char>) -> bool {
    !text_lt(b, a)
}

/// Tells whether `a` stands before `b` in the order by code points.
pub fn text_less(a: &str, b: &str) -> (r: bool)
    ensures
        r == text_lt(a@, b@),
{
    let x = chars_of(a);
    let y = chars_of(b);
    let mut i: usize = 0;
    proof {
        assert(x@.skip(0) =~= x@);
        assert(y@.skip(0) =~= y@);
    }
    while i < x.len() && i < y.len()
        invariant
            x@ == a@,
            y@ == b@,
            i <= x.len(),
            i <= y.len(),
            text_lt(a@, b@) == text_lt(x@.skip(i as int), y@.skip(i as int)),
        decreases x.len() - i,
    {
        proof {
            assert(x@.skip(i as int).drop_first() =~= x@.skip(i + 1));
            assert(y@.skip(i as int).drop_first() =~= y@.skip(i + 1));
        }
        if x[i] != y[i] {
            return x[i] < y[i];
        }
        i += 1;
    }
    i < y.len()
}

/// The order of strings is total.
pub proof fn lemma_text_lt_total(a: Seq<char>, b: Seq<char>)
    ensures
        text_lt(a, b) || text_lt(b, a) || a == b,
        !(text_lt(a, b) && text_lt(b, a)),
    decreases a.len(),
{
    if a.len() > 0 && b.len() > 0 {
        lemma_text_lt_total(a.drop_first(), b.drop_first());
        if a.drop_first() == b.drop_first() && a[0] == b[0] {
            assert(a =~= seq![a[0]] + a.drop_first());
            assert(b =~= seq![b[0]] + b.drop_first());
        }
    } else if a.len() == 0 && b.len() == 0 {
        assert(a =~= b);
    }
}

/// The order of strings is transitive.
pub proof fn lemma_text_lt_transitive(a: Seq<char>, b: Seq<char>, c: Seq<char>)
    requires
        text_lt(a, b),
        text_lt(b, c),
    ensures
        text_lt(a, c),
    decreases a.len(),
{
    if a.len() > 0 && a[0] == b[0] && b[0] == c[0] {
        lemma_text_lt_transitive(a.drop_first(), b.drop_first(), c.drop_first());
    }
}

/// An ASCII capital letter as its small letter; any other character as it is.
pub open spec fn ascii_lower_char(c: char) -> char {
    if 'A' <= c <= 'Z' {
        (c as u32 + 32) as char
    } else {
        c
    }
}

/// `s` with its ASCII capital letters as small letters.
pub open spec fn ascii_lower(s: Seq<char>) -> Seq<char> {
    Seq::new(s.len(), |i: int| ascii_lower_char(s[i]))
}

/// Returns `s` with its ASCII capital letters as small letters.
pub fn ascii_lowercase(s: &str) -> (r: String)
    ensures
        r@ == ascii_lower(s@),
{
    let v = chars_of(s);
    let mut out = String::new();
    let mut i: usize = 0;
    while i < v.len()
        invariant
            i <= v.len(),
            v@ == s@,
            out@ == ascii_lower(v@).take(i as int),
        decreases v.len() - i,
    {
        let c = v[i];
        let lower: char = if 'A' <= c && c <= 'Z' {
            ((c as u8) + 32) as char
        } else {
            c
        };
        push_char(&mut out, lower);
        assert(ascii_lower(v@).take(i + 1) =~= ascii_lower(v@).take(i as int).push(lower));
        i += 1;
    }
    assert(ascii_lower(v@).take(v@.len() as int) =~= ascii_lower(v@));
    out
}

// ---------------------------------------------------------------------------
// Stable sorting.
// ---------------------------------------------------------------------------

/// `s` with `x` put behind the last element that does not stand after it.
pub open spec fn insert_sorted<T>(s: Seq<T>, x: T, leq: spec_fn(T, T) -> bool) -> Seq<T>
    decreases s.len(),
{
    if s.len() == 0 || leq(s.last(), x) {
        s.push(x)
    } else {
        insert_sorted(s.drop_last(), x, leq).push(s.last())
    }
}

/// `s` in order; elements of the same rank keep their order.
pub open spec fn stable_sorted<T>(s: Seq<T>, leq: spec_fn(T, T) -> bool) -> Seq<T>
    decreases s.len(),
{
    if s.len() == 0 {
        s
    } else {
        insert_sorted(stable_sorted(s.drop_last(), leq), s.last(), leq)
    }
}

/// `leq` compares any two elements and is transitive.
pub open spec fn is_ranking<T>(leq: spec_fn(T, T) -> bool) -> bool {
    &&& forall|a: T, b: T| #[trigger] leq(a, b) || leq(b, a)
    &&& forall|a: T, b: T, c: T| #[trigger] leq(a, b) && #[trigger] leq(b, c) ==> leq(a, c)
}

/// No element stands before one that it ranks after.
pub open spec fn in_order<T>(s: Seq<T>, leq: spec_fn(T, T) -> bool) -> bool {
    forall|i: int, j: int| 0 <= i < j < s.len() ==> leq(#[trigger] s[i], #[trigger] s[j])
}

/// Inserting keeps the order and adds exactly the one element.
pub proof fn lemma_insert_sorted<T>(s: Seq<T>, x: T, leq: spec_fn(T, T) -> bool)
    requires
        is_ranking(leq),
        in_order(s, leq),
    ensures
        in_order(insert_sorted(s, x, leq), leq),
        insert_sorted(s, x, leq).to_multiset() == s.to_multiset().insert(x),
    decreases s.len(),
{
    broadcast use vstd::seq_lib::group_to_multiset_ensures;

    let r = insert_sorted(s, x, leq);
    if s.len() == 0 || leq(s.last(), x) {
        assert(r.to_multiset() =~= s.to_multiset().insert(x));
        assert forall|i: int, j: int| 0 <= i < j < r.len() implies leq(
            #[trigger] r[i],
            #[trigger] r[j],
        ) by {
            if j == s.len() && i < s.len() - 1 {
                assert(leq(s[i], s.last()));
                assert(leq(s.last(), x));
            }
        }
    } else {
        let init = s.drop_last();
        lemma_insert_sorted(init, x, leq);
        lemma_insert_elements(init, x, leq);
        let q = insert_sorted(init, x, leq);
        assert(s =~= init.push(s.last()));
        assert(r.to_multiset() =~= s.to_multiset().insert(x));
        assert(leq(x, s.last()));
        assert forall|i: int, j: int| 0 <= i < j < r.len() implies leq(
            #[trigger] r[i],
            #[trigger] r[j],
        ) by {
            if j == r.len() - 1 {
                assert(q[i] == x || init.contains(q[i]));
                if init.contains(q[i]) {
                    let k = choose|k: int| 0 <= k < init.len() && init[k] == q[i];
                    assert(leq(s[k], s[s.len() - 1]));
                }
            }
        }
    }
}

/// Inserting adds nothing but the one element.
pub proof fn lemma_insert_elements<T>(s: Seq<T>, x: T, leq: spec_fn(T, T) -> bool)
    ensures
        insert_sorted(s, x, leq).len() == s.len() + 1,
        forall|i: int|
            0 <= i < insert_sorted(s, x, leq).len() ==> (#[trigger] insert_sorted(s, x, leq)[i] == x
                || s.contains(insert_sorted(s, x, leq)[i])),
    decreases s.len(),
{
    let r = insert_sorted(s, x, leq);
    if s.len() == 0 || leq(s.last(), x) {
    } else {
        let init = s.drop_last();
        lemma_insert_elements(init, x, leq);
        let q = insert_sorted(init, x, leq);
        assert forall|i: int| 0 <= i < r.len() implies (#[trigger] r[i] == x || s.contains(r[i])) by {
            if i < q.len() {
                assert(q[i] == x || init.contains(q[i]));
                if init.contains(q[i]) {
                    let k = choose|k: int| 0 <= k < init.len() && init[k] == q[i];
                    assert(s[k] == q[i]);
                }
            } else {
                assert(s[s.len() - 1] == r[i]);
            }
        }
    }
}

/// A sorted sequence is in order and holds what it was made from.
pub proof fn lemma_stable_sorted<T>(s: Seq<T>, leq: spec_fn(T, T) -> bool)
    requires
        is_ranking(leq),
    ensures
        in_order(stable_sorted(s, leq), leq),
        stable_sorted(s, leq).to_multiset() == s.to_multiset(),
    decreases s.len(),
{
    broadcast use vstd::seq_lib::group_to_multiset_ensures;

    if s.len() > 0 {
        lemma_stable_sorted(s.drop_last(), leq);
        lemma_insert_sorted(stable_sorted(s.drop_last(), leq), s.last(), leq);
        assert(s =~= s.drop_last().push(s.last()));
    }
}

/// A sorted sequence holds nothing new.
pub proof fn lemma_sorted_elements<T>(s: Seq<T>, leq: spec_fn(T, T) -> bool)
    ensures
        forall|i: int|
            0 <= i < stable_sorted(s, leq).len() ==> s.contains(
                #[trigger] stable_sorted(s, leq)[i],
            ),
    decreases s.len(),
{
    if s.len() > 0 {
        let init = s.drop_last();
        let x = s.last();
        lemma_sorted_elements(init, leq);
        lemma_insert_elements(stable_sorted(init, leq), x, leq);
        let r = stable_sorted(s, leq);
        assert forall|i: int| 0 <= i < r.len() implies s.contains(#[trigger] r[i]) by {
            let y = r[i];
            if y == x {
                assert(s[s.len() - 1] == y);
            } else {
                let q = stable_sorted(init, leq);
                assert(q.contains(y));
                let k = choose|k: int| 0 <= k < q.len() && q[k] == y;
                assert(init.contains(q[k]));
                let m = choose|m: int| 0 <= m < init.len() && init[m] == y;
                assert(s[m] == y);
            }
        }
    }
}

/// Ranks the same as `k`.
pub open spec fn ranks_as<T>(k: T, leq: spec_fn(T, T) -> bool) -> spec_fn(T) -> bool {
    |x: T| leq(k, x) && leq(x, k)
}

/// The elements that rank the same as `k`, in the order of `s`.
pub open spec fn same_rank<T>(s: Seq<T>, k: T, leq: spec_fn(T, T) -> bool) -> Seq<T> {
    s.filter(ranks_as(k, leq))
}

proof fn lemma_insert_stable<T>(s: Seq<T>, x: T, k: T, leq: spec_fn(T, T) -> bool)
    requires
        is_ranking(leq),
        in_order(s, leq),
    ensures
        same_rank(insert_sorted(s, x, leq), k, leq) == same_rank(s.push(x), k, leq),
    decreases s.len(),
{
    reveal(Seq::filter);
    let f = ranks_as(k, leq);
    if s.len() == 0 || leq(s.last(), x) {
    } else {
        let init = s.drop_last();
        let l = s.last();
        let q = insert_sorted(init, x, leq);
        lemma_insert_stable(init, x, k, leq);
        assert(q.push(l).drop_last() =~= q);
        assert(s.push(x).drop_last() =~= s);
        assert(init.push(x).drop_last() =~= init);
        assert(leq(x, l));
        assert(!(f(x) && f(l))) by {
            if f(x) && f(l) {
                assert(leq(l, k));
                assert(leq(k, x));
            }
        }
        let kept = init.filter(f);
        assert(s.filter(f) == if f(l) {
            kept.push(l)
        } else {
            kept
        });
        assert(s.push(x).filter(f) == if f(x) {
            s.filter(f).push(x)
        } else {
            s.filter(f)
        });
        assert(init.push(x).filter(f) == if f(x) {
            kept.push(x)
        } else {
            kept
        });
        assert(q.push(l).filter(f) == if f(l) {
            q.filter(f).push(l)
        } else {
            q.filter(f)
        });
    }
}

/// Elements of the same rank keep the order in which they stood.
pub proof fn lemma_sort_is_stable<T>(s: Seq<T>, k: T, leq: spec_fn(T, T) -> bool)
    requires
        is_ranking(leq),
    ensures
        same_rank(stable_sorted(s, leq), k, leq) == same_rank(s, k, leq),
    decreases s.len(),
{
    reveal(Seq::filter);
    if s.len() > 0 {
        let init = s.drop_last();
        lemma_sort_is_stable(init, k, leq);
        lemma_stable_sorted(init, leq);
        lemma_insert_stable(stable_sorted(init, leq), s.last(), k, leq);
        assert(stable_sorted(init, leq).push(s.last()).drop_last() =~= stable_sorted(init, leq));
    }
}

/// Puts `x` into `v` behind the last element that does not stand after it.
pub fn insert_by<T, F: Fn(&T, &T) -> bool>(
    v: &mut Vec<T>,
    x: T,
    not_after: F,
    Ghost(leq): Ghost<spec_fn(T, T) -> bool>,
)
    requires
        forall|a: &T, b: &T| #[trigger] call_requires(not_after, (a, b)),
        forall|a: &T, b: &T, r: bool| #[trigger]
            call_ensures(not_after, (a, b), r) ==> r == leq(*a, *b),
    ensures
        final(v)@ == insert_sorted(old(v)@, x, leq),
{
    let mut i: usize = v.len();
    proof {
        assert(v@.take(v@.len() as int) =~= v@);
        assert(insert_sorted(v@, x, leq) =~= insert_sorted(v@.take(i as int), x, leq) + v@.skip(
            i as int,
        ));
    }
    while i > 0 && !not_after(&v[i - 1], &x)
        invariant
            i <= v.len(),
            v@ == old(v)@,
            forall|a: &T, b: &T| #[trigger] call_requires(not_after, (a, b)),
            forall|a: &T, b: &T, r: bool| #[trigger]
                call_ensures(not_after, (a, b), r) ==> r == leq(*a, *b),
            insert_sorted(v@, x, leq) == insert_sorted(v@.take(i as int), x, leq) + v@.skip(
                i as int,
            ),
        decreases i,
    {
        proof {
            let t = v@.take(i as int);
            assert(t.last() == v@[i - 1]);
            assert(t.drop_last() =~= v@.take(i - 1));
            assert(insert_sorted(t, x, leq) + v@.skip(i as int) =~= insert_sorted(
                v@.take(i - 1),
                x,
                leq,
            ) + v@.skip(i - 1));
        }
        i -= 1;
    }
    proof {
        let t = v@.take(i as int);
        if i > 0 {
            assert(t.last() == v@[i - 1]);
        }
        assert(insert_sorted(t, x, leq) == t.push(x));
        assert(v@.insert(i as int, x) =~= t.push(x) + v@.skip(i as int));
    }
    v.insert(i, x);
}

} // verus!
