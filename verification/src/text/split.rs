//! Splitting strings at a character and joining them again.
use vstd::prelude::*;
use vstd::string::*;

use crate::text::{chars_of, push_char, string_of, views};

verus! {

/// The position of the first `sep` in `s`, or the length of `s`.
pub open spec fn first_index(s: Seq<char>, sep: char) -> int
    decreases s.len(),
{
    if s.len() == 0 || s[0] == sep {
        0
    } else {
        1 + first_index(s.drop_first(), sep)
    }
}

/// What stands before and behind the first `sep` of `s`.
pub open spec fn cut_at(s: Seq<char>, sep: char) -> Option<(Seq<char>, Seq<char>)> {
    let i = first_index(s, sep);
    if i < s.len() {
        Some((s.take(i), s.skip(i + 1)))
    } else {
        None
    }
}

/// The first `sep` stands where none stands before it.
pub proof fn lemma_first_index(s: Seq<char>, sep: char, i: int)
    requires
        0 <= i <= s.len(),
        forall|j: int| 0 <= j < i ==> s[j] != sep,
        i < s.len() ==> s[i] == sep,
    ensures
        first_index(s, sep) == i,
    decreases s.len(),
{
    if i > 0 {
        assert(s[0] != sep);
        let rest = s.drop_first();
        assert forall|j: int| 0 <= j < i - 1 implies rest[j] != sep by {
            assert(rest[j] == s[j + 1]);
        }
        lemma_first_index(rest, sep, i - 1);
    }
}

/// The first `sep` lies within the string or at its end.
pub proof fn lemma_first_index_bound(s: Seq<char>, sep: char)
    ensures
        0 <= first_index(s, sep) <= s.len(),
    decreases s.len(),
{
    if s.len() > 0 && s[0] != sep {
        lemma_first_index_bound(s.drop_first(), sep);
    }
}

/// A string cut behind a part without separators gives back both parts.
pub proof fn lemma_cut_at(a: Seq<char>, sep: char, b: Seq<char>)
    requires
        !a.contains(sep),
    ensures
        cut_at(a + seq![sep] + b, sep) == Some((a, b)),
{
    let s = a + seq![sep] + b;
    assert forall|j: int| 0 <= j < a.len() implies s[j] != sep by {
        assert(a.contains(a[j]));
    }
    lemma_first_index(s, sep, a.len() as int);
    assert(s.take(a.len() as int) =~= a);
    assert(s.skip(a.len() as int + 1) =~= b);
}

/// Returns what stands before and behind the first `sep` of `s`.
pub fn cut(s: &str, sep: char) -> (r: Option<(String, String)>)
    ensures
        match r {
            Some((a, b)) => cut_at(s@, sep) == Some((a@, b@)),
            None => cut_at(s@, sep) is None,
        },
{
    let v = chars_of(s);
    let mut i: usize = 0;
    while i < v.len()
        invariant
            i <= v.len(),
            v@ == s@,
            forall|j: int| 0 <= j < i ==> v@[j] != sep,
        decreases v.len() - i,
    {
        if v[i] == sep {
            proof {
                lemma_first_index(s@, sep, i as int);
                assert(s@.subrange(0, i as int) =~= s@.take(i as int));
                assert(s@.subrange(i + 1, s@.len() as int) =~= s@.skip(i + 1));
            }
            return Some((string_of(&v, 0, i), string_of(&v, i + 1, v.len())));
        }
        i += 1;
    }
    proof {
        lemma_first_index(s@, sep, s@.len() as int);
    }
    None
}

/// The pieces of `s` between the characters `sep`; a string without `sep` is
/// one piece.
pub open spec fn split_on(s: Seq<char>, sep: char) -> Seq<Seq<char>>
    decreases s.len(),
{
    if s.len() == 0 {
        seq![Seq::<char>::empty()]
    } else if s.last() == sep {
        split_on(s.drop_last(), sep).push(Seq::<char>::empty())
    } else {
        let rest = split_on(s.drop_last(), sep);
        if rest.len() == 0 {
            seq![s]
        } else {
            rest.update(rest.len() - 1, rest.last().push(s.last()))
        }
    }
}

/// There is always at least one piece.
pub proof fn lemma_split_nonempty(s: Seq<char>, sep: char)
    ensures
        split_on(s, sep).len() >= 1,
    decreases s.len(),
{
    if s.len() > 0 {
        lemma_split_nonempty(s.drop_last(), sep);
    }
}

/// The pieces joined with `sep` between them.
pub open spec fn join(parts: Seq<Seq<char>>, sep: Seq<char>) -> Seq<char>
    decreases parts.len(),
{
    if parts.len() == 0 {
        Seq::<char>::empty()
    } else if parts.len() == 1 {
        parts[0]
    } else {
        join(parts.drop_last(), sep) + sep + parts.last()
    }
}

/// Joining from the front.
pub proof fn lemma_join_front(parts: Seq<Seq<char>>, sep: Seq<char>)
    requires
        parts.len() >= 2,
    ensures
        join(parts, sep) == parts[0] + sep + join(parts.drop_first(), sep),
    decreases parts.len(),
{
    let init = parts.drop_last();
    if parts.len() == 2 {
        assert(join(init, sep) == parts[0]);
        assert(parts.drop_first()[0] == parts.last());
    } else {
        lemma_join_front(init, sep);
        assert(init.drop_first() =~= parts.drop_first().drop_last());
        assert(parts.drop_first().last() == parts.last());
        assert(join(parts, sep) =~= parts[0] + sep + join(parts.drop_first(), sep));
    }
}

/// Splitting at a character and joining with the same character gives back
/// the string.
pub proof fn lemma_join_split(s: Seq<char>, sep: char)
    ensures
        join(split_on(s, sep), seq![sep]) == s,
    decreases s.len(),
{
    if s.len() > 0 {
        let init = s.drop_last();
        let rest = split_on(init, sep);
        lemma_join_split(init, sep);
        lemma_split_nonempty(init, sep);
        let parts = split_on(s, sep);
        assert(s =~= init.push(s.last()));
        if s.last() == sep {
            assert(parts.drop_last() =~= rest);
            assert(join(parts, seq![sep]) =~= s);
        } else {
            if parts.len() == 1 {
                assert(join(parts, seq![sep]) =~= s);
            } else {
                assert(parts.drop_last() =~= rest.drop_last());
                assert(join(parts, seq![sep]) =~= join(rest, seq![sep]).push(s.last()));
            }
        }
    }
}

/// No piece holds the separator.
pub proof fn lemma_pieces_free_of_separator(s: Seq<char>, sep: char)
    ensures
        forall|i: int|
            0 <= i < split_on(s, sep).len() ==> !(#[trigger] split_on(s, sep)[i]).contains(sep),
    decreases s.len(),
{
    if s.len() > 0 {
        let rest = split_on(s.drop_last(), sep);
        lemma_pieces_free_of_separator(s.drop_last(), sep);
        lemma_split_nonempty(s.drop_last(), sep);
        let parts = split_on(s, sep);
        assert forall|i: int| 0 <= i < parts.len() implies !(#[trigger] parts[i]).contains(sep) by {
            if i < rest.len() {
                assert(!rest[i].contains(sep));
                if i == rest.len() - 1 && s.last() != sep {
                    let p = rest.last().push(s.last());
                    assert forall|k: int| 0 <= k < p.len() implies p[k] != sep by {
                        if k < rest.last().len() {
                            assert(rest.last()[k] == p[k]);
                            assert(rest.last().contains(p[k]));
                        }
                    }
                }
            }
        }
    }
}

/// Returns the pieces of `s` between the characters `sep`.
pub fn split(s: &str, sep: char) -> (r: Vec<String>)
    ensures
        views(r@) == split_on(s@, sep),
        r.len() >= 1,
{
    let v = chars_of(s);
    let mut out: Vec<String> = Vec::new();
    let mut current = String::new();
    let mut i: usize = 0;
    proof {
        assert(v@.take(0) =~= Seq::<char>::empty());
        assert(views(out@).push(current@) =~= seq![Seq::<char>::empty()]);
    }
    while i < v.len()
        invariant
            i <= v.len(),
            v@ == s@,
            split_on(v@.take(i as int), sep) == views(out@).push(current@),
        decreases v.len() - i,
    {
        let c = v[i];
        let ghost before = views(out@);
        proof {
            assert(v@.take(i + 1).drop_last() =~= v@.take(i as int));
            assert(v@.take(i + 1).last() == c);
        }
        if c == sep {
            out.push(current);
            current = String::new();
            assert(views(out@) =~= before.push(views(out@).last()));
            assert(views(out@).push(current@) =~= split_on(v@.take(i + 1), sep));
        } else {
            push_char(&mut current, c);
            assert(views(out@).push(current@) =~= split_on(v@.take(i + 1), sep));
        }
        i += 1;
    }
    let ghost before = views(out@);
    out.push(current);
    proof {
        assert(v@.take(v@.len() as int) =~= v@);
        assert(views(out@) =~= before.push(views(out@).last()));
    }
    out
}

/// Returns the strings of `parts` with `sep` between them.
pub fn join_strings(parts: &Vec<String>, sep: &str) -> (r: String)
    ensures
        r@ == join(views(parts@), sep@),
{
    let mut out = String::new();
    let mut i: usize = 0;
    while i < parts.len()
        invariant
            i <= parts.len(),
            out@ == join(views(parts@).take(i as int), sep@),
        decreases parts.len() - i,
    {
        proof {
            let p = views(parts@).take(i + 1);
            assert(p.drop_last() =~= views(parts@).take(i as int));
            assert(p.last() == parts@[i as int]@);
        }
        if i > 0 {
            out.append(sep);
        }
        out.append(parts[i].as_str());
        proof {
            assert(out@ =~= join(views(parts@).take(i + 1), sep@));
        }
        i += 1;
    }
    assert(views(parts@).take(parts@.len() as int) =~= views(parts@));
    out
}

/// `s` with every `from` replaced by the characters of `to`.
pub open spec fn replaced(s: Seq<char>, from: char, to: Seq<char>) -> Seq<char>
    decreases s.len(),
{
    if s.len() == 0 {
        Seq::<char>::empty()
    } else {
        replaced(s.drop_last(), from, to) + (if s.last() == from {
            to
        } else {
            seq![s.last()]
        })
    }
}

/// Returns `s` with every `from` replaced by `to`.
pub fn replace_char(s: &str, from: char, to: &str) -> (r: String)
    ensures
        r@ == replaced(s@, from, to@),
{
    let v = chars_of(s);
    let mut out = String::new();
    let mut i: usize = 0;
    while i < v.len()
        invariant
            i <= v.len(),
            v@ == s@,
            out@ == replaced(v@.take(i as int), from, to@),
        decreases v.len() - i,
    {
        let c = v[i];
        proof {
            assert(v@.take(i + 1).drop_last() =~= v@.take(i as int));
            assert(v@.take(i + 1).last() == c);
        }
        if c == from {
            out.append(to);
        } else {
            push_char(&mut out, c);
        }
        assert(out@ =~= replaced(v@.take(i + 1), from, to@));
        i += 1;
    }
    assert(v@.take(v@.len() as int) =~= v@);
    out
}

/// What stands before and behind the last `sep` of `s`.
pub open spec fn cut_at_last(s: Seq<char>, sep: char) -> Option<(Seq<char>, Seq<char>)>
    decreases s.len(),
{
    if s.len() == 0 {
        None
    } else if s.last() == sep {
        Some((s.drop_last(), Seq::<char>::empty()))
    } else {
        match cut_at_last(s.drop_last(), sep) {
            Some((a, b)) => Some((a, b.push(s.last()))),
            None => None,
        }
    }
}

/// A string cut before a part without separators gives back both parts.
pub proof fn lemma_cut_at_last(a: Seq<char>, sep: char, b: Seq<char>)
    requires
        !b.contains(sep),
    ensures
        cut_at_last(a + seq![sep] + b, sep) == Some((a, b)),
    decreases b.len(),
{
    let s = a + seq![sep] + b;
    if b.len() == 0 {
        assert(s.drop_last() =~= a);
        assert(b =~= Seq::<char>::empty());
    } else {
        let init = b.drop_last();
        assert forall|i: int| 0 <= i < init.len() implies init[i] != sep by {
            assert(b.contains(b[i]));
        }
        assert(b.contains(b.last()));
        lemma_cut_at_last(a, sep, init);
        assert(s.drop_last() =~= a + seq![sep] + init);
        assert(init.push(b.last()) =~= b);
    }
}

/// Returns the position of the last `sep` of `v`.
pub fn find_last(v: &Vec<char>, sep: char) -> (r: Option<usize>)
    ensures
        match r {
            Some(i) => i < v.len() && cut_at_last(v@, sep) == Some(
                (v@.take(i as int), v@.skip(i + 1)),
            ),
            None => cut_at_last(v@, sep) is None,
        },
{
    let mut n: usize = v.len();
    assert(v@.take(n as int) =~= v@);
    while n > 0
        invariant
            n <= v.len(),
            forall|j: int| n <= j < v.len() ==> v@[j] != sep,
        decreases n,
    {
        if v[n - 1] == sep {
            proof {
                let a = v@.take(n - 1);
                let b = v@.skip(n as int);
                assert(v@ =~= a + seq![sep] + b);
                assert forall|j: int| 0 <= j < b.len() implies b[j] != sep by {}
                lemma_cut_at_last(a, sep, b);
            }
            return Some(n - 1);
        }
        n -= 1;
    }
    proof {
        lemma_no_cut(v@, sep);
    }
    None
}

proof fn lemma_no_cut(s: Seq<char>, sep: char)
    requires
        forall|j: int| 0 <= j < s.len() ==> s[j] != sep,
    ensures
        cut_at_last(s, sep) is None,
    decreases s.len(),
{
    if s.len() > 0 {
        lemma_no_cut(s.drop_last(), sep);
    }
}

/// A part without separators behind a separator is a piece of its own.
pub proof fn lemma_split_push(a: Seq<char>, sep: char, b: Seq<char>)
    requires
        !b.contains(sep),
    ensures
        split_on(a + seq![sep] + b, sep) == split_on(a, sep).push(b),
    decreases b.len(),
{
    let s = a + seq![sep] + b;
    if b.len() == 0 {
        assert(s.drop_last() =~= a);
        assert(b =~= Seq::<char>::empty());
    } else {
        let init = b.drop_last();
        assert forall|i: int| 0 <= i < init.len() implies init[i] != sep by {
            assert(b.contains(b[i]));
        }
        assert(b.contains(b.last()));
        lemma_split_push(a, sep, init);
        assert(s.drop_last() =~= a + seq![sep] + init);
        let rest = split_on(a, sep).push(init);
        assert(rest.update(rest.len() - 1, init.push(b.last())) =~= split_on(a, sep).push(b)) by {
            assert(init.push(b.last()) =~= b);
        }
    }
}

/// A text without separators is one piece.
pub proof fn lemma_split_whole(b: Seq<char>, sep: char)
    requires
        !b.contains(sep),
    ensures
        split_on(b, sep) == seq![b],
    decreases b.len(),
{
    if b.len() == 0 {
        assert(b =~= Seq::<char>::empty());
    } else {
        let init = b.drop_last();
        assert forall|i: int| 0 <= i < init.len() implies init[i] != sep by {
            assert(b.contains(b[i]));
        }
        assert(b.contains(b.last()));
        lemma_split_whole(init, sep);
        assert(seq![init].update(0, init.push(b.last())) =~= seq![b]) by {
            assert(init.push(b.last()) =~= b);
        }
    }
}

} // verus!
