//! Lines, trailing white space and replacing one string by another.
use vstd::prelude::*;
use vstd::string::*;

use crate::text::find::{matches_at, starts_with};
use crate::text::split::{join, join_strings, split, split_on};
use crate::text::{chars_of, is_white, is_whitespace, push_char, string_of, views};

verus! {

/// `s` without its trailing white space.
pub open spec fn trimmed_end(s: Seq<char>) -> Seq<char>
    decreases s.len(),
{
    if s.len() > 0 && is_white(s.last()) {
        trimmed_end(s.drop_last())
    } else {
        s
    }
}

/// Returns `s` without its trailing white space.
pub fn trim_end(s: &str) -> (r: String)
    ensures
        r@ == trimmed_end(s@),
{
    let v = chars_of(s);
    let mut j: usize = v.len();
    assert(v@.take(v@.len() as int) =~= v@);
    while j > 0 && is_whitespace(v[j - 1])
        invariant
            j <= v.len(),
            v@ == s@,
            trimmed_end(s@) == trimmed_end(v@.take(j as int)),
        decreases j,
    {
        assert(v@.take(j as int).drop_last() =~= v@.take(j - 1));
        j -= 1;
    }
    assert(v@.take(j as int) =~= v@.subrange(0, j as int));
    string_of(&v, 0, j)
}

/// A line without the carriage return at its end.
pub open spec fn without_cr(s: Seq<char>) -> Seq<char> {
    if s.len() > 0 && s.last() == '\r' {
        s.drop_last()
    } else {
        s
    }
}

/// The lines of `s`: what stands before each line feed, without a carriage
/// return before it, and what stands behind the last one where it is not
/// empty.
pub open spec fn lines_of(s: Seq<char>) -> Seq<Seq<char>> {
    let pieces = split_on(s, '\n');
    let ended = Seq::new((pieces.len() - 1) as nat, |i: int| without_cr(pieces[i]));
    if pieces.last().len() == 0 {
        ended
    } else {
        ended.push(pieces.last())
    }
}

/// Returns `s` without a carriage return at its end.
fn chomp(s: &String) -> (r: String)
    ensures
        r@ == without_cr(s@),
{
    let v = chars_of(s.as_str());
    if v.len() > 0 && v[v.len() - 1] == '\r' {
        assert(v@.subrange(0, v@.len() - 1) =~= v@.drop_last());
        string_of(&v, 0, v.len() - 1)
    } else {
        s.clone()
    }
}

/// Returns the lines of `s`.
pub fn lines(s: &str) -> (r: Vec<String>)
    ensures
        views(r@) == lines_of(s@),
{
    let pieces = split(s, '\n');
    let n: usize = pieces.len();
    let mut out: Vec<String> = Vec::new();
    let mut i: usize = 0;
    while i + 1 < n
        invariant
            n == pieces.len(),
            n >= 1,
            i <= n - 1,
            out.len() == i,
            forall|j: int| 0 <= j < i ==> (#[trigger] out@[j])@ == without_cr(pieces@[j]@),
        decreases n - i,
    {
        out.push(chomp(&pieces[i]));
        i += 1;
    }
    let ghost p = views(pieces@);
    assert(p == split_on(s@, '\n'));
    if !pieces[n - 1].as_str().is_empty() {
        out.push(pieces[n - 1].clone());
    }
    assert(views(out@) =~= lines_of(s@));
    out
}

/// The last `n` lines of `s`, joined by line feeds.
pub open spec fn last_lines(s: Seq<char>, n: nat) -> Seq<char> {
    let all = lines_of(s);
    let start = if all.len() > n {
        all.len() - n
    } else {
        0
    };
    join(all.skip(start), "\n"@)
}

/// Returns the last `n` lines of `s`, joined by line feeds.
pub fn tail_lines(s: &str, n: usize) -> (r: String)
    ensures
        r@ == last_lines(s@, n as nat),
{
    let all = lines(s);
    let start: usize = if all.len() > n {
        all.len() - n
    } else {
        0
    };
    let mut kept: Vec<String> = Vec::new();
    let mut i: usize = start;
    while i < all.len()
        invariant
            start <= i <= all.len(),
            kept.len() == i - start,
            forall|j: int| 0 <= j < kept.len() ==> #[trigger] kept@[j] == all@[start + j],
        decreases all.len() - i,
    {
        kept.push(all[i].clone());
        i += 1;
    }
    assert(views(kept@) =~= views(all@).skip(start as int));
    join_strings(&kept, "\n")
}

/// `s` with every occurrence of `from` replaced by `to`, from left to right.
pub open spec fn substituted(s: Seq<char>, from: Seq<char>, to: Seq<char>) -> Seq<char>
    decreases s.len(),
{
    if s.len() == 0 || from.len() == 0 {
        s
    } else if starts_with(s, from) {
        to + substituted(s.skip(from.len() as int), from, to)
    } else {
        seq![s[0]] + substituted(s.drop_first(), from, to)
    }
}

/// Returns `s` with every occurrence of `from` replaced by `to`.
pub fn substitute(s: &str, from: &str, to: &str) -> (r: String)
    requires
        from@.len() > 0,
    ensures
        r@ == substituted(s@, from@, to@),
{
    let f = chars_of(from);
    let all = chars_of(s);
    let mut out = String::new();
    let mut i: usize = 0;
    assert(all@.skip(0) =~= s@);
    assert(out@ + substituted(s@, from@, to@) =~= substituted(s@, from@, to@));
    while i < all.len()
        invariant
            i <= all.len(),
            all@ == s@,
            f@ == from@,
            from@.len() > 0,
            out@ + substituted(all@.skip(i as int), from@, to@) == substituted(s@, from@, to@),
        decreases all.len() - i,
    {
        let ghost before = out@;
        let ghost rest = all@.skip(i as int);
        if f.len() <= all.len() - i && matches_at(&all, &f, i) {
            assert(rest.take(from@.len() as int) =~= all@.subrange(i as int, i + from@.len()));
            out.append(to);
            i += f.len();
            assert(all@.skip(i as int) =~= rest.skip(from@.len() as int));
        } else {
            assert(!starts_with(rest, from@)) by {
                if starts_with(rest, from@) {
                    assert(rest.take(from@.len() as int) =~= all@.subrange(
                        i as int,
                        i + from@.len(),
                    ));
                }
            }
            push_char(&mut out, all[i]);
            i += 1;
            assert(all@.skip(i as int) =~= rest.drop_first());
        }
        assert(out@ + substituted(all@.skip(i as int), from@, to@) =~= before + substituted(
            rest,
            from@,
            to@,
        ));
    }
    assert(out@ + all@.skip(i as int) =~= out@);
    out
}

} // verus!
