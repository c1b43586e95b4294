//! Strings as sequences of characters.
//!
//! The contracts of this crate speak of a string through its view, a
//! `Seq<char>`. This module holds the spec functions for the usual string
//! operations and the executable functions that compute them.
use vstd::prelude::*;
use vstd::string::*;

pub mod find;
pub mod lines;
pub mod number;
pub mod order;
pub mod split;

verus! {

// ---------------------------------------------------------------------------
// Outside functions of std that have no specification of their own.
// ---------------------------------------------------------------------------

/// `String::push`: appends the given char to the end of the string.
#[verifier::external_body]
pub(crate) fn push_char(s: &mut String, c: char)
    ensures
        final(s)@ == old(s)@.push(c),
{
    s.push(c);
}

/// `str::eq`: two string slices are equal when they hold the same characters.
#[verifier::external_body]
pub(crate) fn same(a: &str, b: &str) -> (r: bool)
    ensures
        r == (a@ == b@),
{
    a == b
}

/// What `str::to_lowercase` returns for the characters of a string.
pub uninterp spec fn lowercase_of(s: Seq<char>) -> Seq<char>;

/// `str::to_lowercase`: the lowercase equivalent of a string by the Unicode
/// rules. Its result is only named here; the full case mapping is not stated.
#[verifier::external_body]
pub(crate) fn to_lowercase(s: &str) -> (r: String)
    ensures
        r@ == lowercase_of(s@),
{
    s.to_lowercase()
}

/// What `char::to_uppercase` yields for one character.
pub uninterp spec fn uppercase_of_char(c: char) -> Seq<char>;

/// `char::to_uppercase`: the uppercase mapping of one character as one or more
/// characters. Its result is only named here.
#[verifier::external_body]
pub(crate) fn char_to_uppercase(c: char) -> (r: String)
    ensures
        r@ == uppercase_of_char(c),
{
    c.to_uppercase().collect()
}

/// `char::from_u32`: the character with the given code, which exists exactly
/// for the codes up to 0x10FFFF outside the surrogate range.
#[verifier::external_body]
pub(crate) fn char_of_code(code: u32) -> (r: Option<char>)
    ensures
        r == scalar_value(code),
{
    char::from_u32(code)
}

/// The character with the given code, where there is one.
pub open spec fn scalar_value(code: u32) -> Option<char> {
    if code <= 0xd7ff || 0xe000 <= code <= 0x10ffff {
        Some(code as char)
    } else {
        None
    }
}

// ---------------------------------------------------------------------------
// Moving between strings and vectors of characters.
// ---------------------------------------------------------------------------

/// Returns the characters of `s` in order.
pub fn chars_of(s: &str) -> (r: Vec<char>)
    ensures
        r@ == s@,
{
    let mut out: Vec<char> = Vec::new();
    for c in it: s.chars()
        invariant
            it.seq() == s@,
            out@ == it.seq().take(it.index()),
    {
        out.push(c);
        assert(it.seq().take(it.index() + 1) =~= it.seq().take(it.index()).push(c));
    }
    assert(s@.take(s@.len() as int) =~= s@);
    out
}

/// Returns the string of the characters `from..to` of `v`.
pub fn string_of(v: &Vec<char>, from: usize, to: usize) -> (r: String)
    requires
        from <= to <= v.len(),
    ensures
        r@ == v@.subrange(from as int, to as int),
{
    let mut out = String::new();
    let mut i: usize = from;
    while i < to
        invariant
            from <= i <= to <= v.len(),
            out@ == v@.subrange(from as int, i as int),
        decreases to - i,
    {
        push_char(&mut out, v[i]);
        assert(v@.subrange(from as int, i + 1) =~= v@.subrange(from as int, i as int).push(
            v@[i as int],
        ));
        i += 1;
    }
    out
}

/// Returns the concatenation of two strings.
pub fn concat2(a: &str, b: &str) -> (r: String)
    ensures
        r@ == a@ + b@,
{
    let mut out = a.to_owned();
    out.append(b);
    out
}

/// Returns the concatenation of three strings.
pub fn concat3(a: &str, b: &str, c: &str) -> (r: String)
    ensures
        r@ == a@ + b@ + c@,
{
    let mut out = a.to_owned();
    out.append(b);
    out.append(c);
    out
}

/// The views of a sequence of strings.
pub open spec fn views(s: Seq<String>) -> Seq<Seq<char>> {
    Seq::new(s.len(), |i: int| s[i]@)
}

/// The view of an optional string.
pub open spec fn opt_view(o: Option<String>) -> Option<Seq<char>> {
    match o {
        Some(s) => Some(s@),
        None => None,
    }
}

/// Clones an optional string.
pub fn clone_opt(o: &Option<String>) -> (r: Option<String>)
    ensures
        r == *o,
{
    match o {
        Some(s) => Some(s.clone()),
        None => None,
    }
}

/// Clones a vector of strings.
pub fn clone_strings(v: &Vec<String>) -> (r: Vec<String>)
    ensures
        r@ == v@,
{
    let mut out: Vec<String> = Vec::new();
    let mut i: usize = 0;
    while i < v.len()
        invariant
            i <= v.len(),
            out@ == v@.take(i as int),
        decreases v.len() - i,
    {
        out.push(v[i].clone());
        assert(v@.take(i + 1) =~= v@.take(i as int).push(v@[i as int]));
        i += 1;
    }
    assert(v@.take(v@.len() as int) =~= v@);
    out
}

/// Compares two optional strings.
pub fn same_opt(a: &Option<String>, b: &Option<String>) -> (r: bool)
    ensures
        r == (opt_view(*a) == opt_view(*b)),
{
    match (a, b) {
        (Some(x), Some(y)) => same(x.as_str(), y.as_str()),
        (None, None) => true,
        _ => false,
    }
}

/// Tells whether `s` is one of the strings of `v`.
pub fn contains_string(v: &Vec<String>, s: &str) -> (r: bool)
    ensures
        r == views(v@).contains(s@),
{
    let mut i: usize = 0;
    while i < v.len()
        invariant
            i <= v.len(),
            forall|j: int| 0 <= j < i ==> v@[j]@ != s@,
        decreases v.len() - i,
    {
        if same(v[i].as_str(), s) {
            assert(views(v@)[i as int] == s@);
            return true;
        }
        i += 1;
    }
    assert forall|j: int| 0 <= j < views(v@).len() implies views(v@)[j] != s@ by {}
    false
}

// ---------------------------------------------------------------------------
// White space.
// ---------------------------------------------------------------------------

/// The characters with the Unicode property `White_Space`.
pub open spec fn is_white(c: char) -> bool {
    ||| '\u{9}' <= c <= '\u{d}'
    ||| c == ' '
    ||| c == '\u{85}'
    ||| c == '\u{a0}'
    ||| c == '\u{1680}'
    ||| '\u{2000}' <= c <= '\u{200a}'
    ||| c == '\u{2028}'
    ||| c == '\u{2029}'
    ||| c == '\u{202f}'
    ||| c == '\u{205f}'
    ||| c == '\u{3000}'
}

/// Tells whether `c` is white space.
pub fn is_whitespace(c: char) -> (r: bool)
    ensures
        r == is_white(c),
{
    ('\u{9}' <= c && c <= '\u{d}') || c == ' ' || c == '\u{85}' || c == '\u{a0}' || c
        == '\u{1680}' || ('\u{2000}' <= c && c <= '\u{200a}') || c == '\u{2028}' || c
        == '\u{2029}' || c == '\u{202f}' || c == '\u{205f}' || c == '\u{3000}'
}

/// Every character of `s` is white space.
pub open spec fn all_white(s: Seq<char>) -> bool {
    forall|i: int| 0 <= i < s.len() ==> is_white(#[trigger] s[i])
}

/// `i..j` is the range of `s` between its leading and trailing white space.
pub open spec fn is_trim_range(s: Seq<char>, i: int, j: int) -> bool {
    &&& 0 <= i <= j <= s.len()
    &&& all_white(s.subrange(0, i))
    &&& all_white(s.subrange(j, s.len() as int))
    &&& i < j ==> !is_white(s[i]) && !is_white(s[j - 1])
    &&& i == j ==> i == s.len()
}

/// `s` without its leading and trailing white space.
pub open spec fn trimmed(s: Seq<char>) -> Seq<char> {
    let (i, j) = choose|i: int, j: int| is_trim_range(s, i, j);
    s.subrange(i, j)
}

proof fn lemma_trim_range_unique(s: Seq<char>, i: int, j: int, k: int, l: int)
    requires
        is_trim_range(s, i, j),
        is_trim_range(s, k, l),
    ensures
        i == k,
        j == l,
{
    if i < k {
        assert(s.subrange(0, k)[i] == s[i]);
        assert(i == j);
    }
    if k < i {
        assert(s.subrange(0, i)[k] == s[k]);
    }
    if j < l && i < j {
        assert(s.subrange(j, s.len() as int)[l - 1 - j] == s[l - 1]);
    }
    if l < j && k < l {
        assert(s.subrange(l, s.len() as int)[j - 1 - l] == s[j - 1]);
    }
    if i == j && k < l {
        assert(s.subrange(0, i)[k] == s[k]);
    }
    if k == l && i < j {
        assert(s.subrange(0, k)[i] == s[i]);
    }
}

/// A range of the right shape is the trimmed string.
pub proof fn lemma_trimmed(s: Seq<char>, i: int, j: int)
    requires
        is_trim_range(s, i, j),
    ensures
        trimmed(s) == s.subrange(i, j),
{
    let (k, l) = choose|k: int, l: int| is_trim_range(s, k, l);
    lemma_trim_range_unique(s, i, j, k, l);
}

/// Finds the range between leading and trailing white space.
fn trim_range(v: &Vec<char>) -> (r: (usize, usize))
    ensures
        is_trim_range(v@, r.0 as int, r.1 as int),
        trimmed(v@) == v@.subrange(r.0 as int, r.1 as int),
{
    let mut i: usize = 0;
    while i < v.len() && is_whitespace(v[i])
        invariant
            i <= v.len(),
            forall|k: int| 0 <= k < i ==> is_white(v@[k]),
        decreases v.len() - i,
    {
        i += 1;
    }
    let mut j: usize = v.len();
    while j > i && is_whitespace(v[j - 1])
        invariant
            i <= j <= v.len(),
            forall|k: int| j <= k < v.len() ==> is_white(v@[k]),
        decreases j,
    {
        j -= 1;
    }
    if i == j {
        assert(i == v.len());
    }
    proof {
        lemma_trimmed(v@, i as int, j as int);
    }
    (i, j)
}

/// Returns `s` without its leading and trailing white space.
pub fn trim(s: &str) -> (r: String)
    ensures
        r@ == trimmed(s@),
{
    let v = chars_of(s);
    let (i, j) = trim_range(&v);
    string_of(&v, i, j)
}

/// Tells whether nothing but white space is left of `s`.
pub fn is_blank(s: &str) -> (r: bool)
    ensures
        r == all_white(s@),
        r == (trimmed(s@).len() == 0),
{
    let v = chars_of(s);
    let (i, j) = trim_range(&v);
    proof {
        lemma_trimmed(s@, i as int, j as int);
        if i < j {
            assert(!is_white(s@[i as int]));
        } else {
            assert(s@.subrange(0, s@.len() as int) =~= s@);
        }
    }
    i == j
}

proof fn lemma_leading_white(s: Seq<char>, i: int) -> (r: int)
    requires
        0 <= i <= s.len(),
        all_white(s.subrange(0, i)),
    ensures
        i <= r <= s.len(),
        all_white(s.subrange(0, r)),
        r < s.len() ==> !is_white(s[r]),
    decreases s.len() - i,
{
    if i < s.len() && is_white(s[i]) {
        assert forall|k: int| 0 <= k < i + 1 implies is_white(#[trigger] s.subrange(0, i + 1)[k]) by {
            if k < i {
                assert(s.subrange(0, i)[k] == s[k]);
            }
        }
        lemma_leading_white(s, i + 1)
    } else {
        i
    }
}

proof fn lemma_trailing_white(s: Seq<char>, i: int, j: int) -> (r: int)
    requires
        0 <= i <= j <= s.len(),
        all_white(s.subrange(j, s.len() as int)),
    ensures
        i <= r <= j,
        all_white(s.subrange(r, s.len() as int)),
        i < r ==> !is_white(s[r - 1]),
    decreases j,
{
    if i < j && is_white(s[j - 1]) {
        let t = s.subrange(j - 1, s.len() as int);
        assert forall|k: int| 0 <= k < t.len() implies is_white(#[trigger] t[k]) by {
            if k > 0 {
                assert(s.subrange(j, s.len() as int)[k - 1] == t[k]);
            }
        }
        lemma_trailing_white(s, i, j - 1)
    } else {
        j
    }
}

proof fn lemma_trim_range_exists(s: Seq<char>)
    ensures
        exists|i: int, j: int| is_trim_range(s, i, j),
{
    let i = lemma_leading_white(s, 0);
    let j = lemma_trailing_white(s, i, s.len() as int);
    assert(i == j ==> i == s.len()) by {
        if i == j && i < s.len() {
            assert(s.subrange(j, s.len() as int)[0] == s[i]);
        }
    }
    if i < j {
        assert(!is_white(s[i]));
    }
    assert(is_trim_range(s, i, j));
}

/// A text that trimming leaves as it is has no white space at its ends.
pub proof fn lemma_trimmed_ends(s: Seq<char>)
    requires
        trimmed(s) == s,
        s.len() > 0,
    ensures
        !is_white(s[0]),
        !is_white(s.last()),
{
    lemma_trim_range_exists(s);
    let (i, j) = choose|i: int, j: int| is_trim_range(s, i, j);
    assert(s.subrange(i, j).len() == s.len());
    assert(i == 0 && j == s.len());
}

} // verus!
