//! Texts: blanks, numbers, parts, lines, replacements and the order of texts.
use vstd::prelude::*;

use crate::seqs::{find, flat};
use crate::text::find::{contains, starts_with};
use crate::text::lines::{last_lines, lines_of, substituted, trimmed_end};
use crate::text::number::{decimal, digits_value, signed_decimal, u32_of};
use crate::text::order::{ascii_lower, insert_sorted, stable_sorted, text_lt};
use crate::text::split::{
    cut_at, cut_at_last, join, lemma_cut_at, lemma_cut_at_last, lemma_join_split,
    lemma_pieces_free_of_separator, lemma_split_nonempty, lemma_split_push, lemma_split_whole,
    replaced, split_on,
};
use crate::text::{all_white, is_white, lemma_trimmed, trimmed};

verus! {

// ---------------------------------------------------------------------------
// Blanks.
// ---------------------------------------------------------------------------

/// The characters that are blank, by their codes.
pub proof fn law_which_characters_are_blank(c: char)
    ensures
        is_white(c) <==> 9 <= c as u32 <= 13 || c as u32 == 32 || c as u32 == 0x85 || c as u32
            == 0xa0 || c as u32 == 0x1680 || 0x2000 <= c as u32 <= 0x200a || c as u32 == 0x2028
            || c as u32 == 0x2029 || c as u32 == 0x202f || c as u32 == 0x205f || c as u32 == 0x3000,
{
}

/// Blanks around a text are taken off, and none in it.
pub proof fn law_blanks_are_taken_off(a: Seq<char>, text: Seq<char>, b: Seq<char>)
    requires
        all_white(a),
        all_white(b),
        text.len() > 0,
        !is_white(text[0]),
        !is_white(text.last()),
    ensures
        trimmed(a + text + b) == text,
        trimmed_end(a + text + b) == a + text,
{
    let s = a + text + b;
    let i = a.len() as int;
    let j = (a.len() + text.len()) as int;
    assert(s.subrange(0, i) =~= a);
    assert(s.subrange(j, s.len() as int) =~= b);
    assert(s[i] == text[0]);
    assert(s[j - 1] == text.last());
    assert(crate::text::is_trim_range(s, i, j));
    lemma_trimmed(s, i, j);
    assert(s.subrange(i, j) =~= text);
    lemma_end(a + text, b);
}

proof fn lemma_end(text: Seq<char>, b: Seq<char>)
    requires
        all_white(b),
        text.len() == 0 || !is_white(text.last()),
    ensures
        trimmed_end(text + b) == text,
    decreases b.len(),
{
    let s = text + b;
    if b.len() > 0 {
        assert(s.last() == b.last());
        assert(is_white(b[b.len() - 1]));
        assert(s.drop_last() =~= text + b.drop_last());
        assert forall|i: int| 0 <= i < b.drop_last().len() implies is_white(
            #[trigger] b.drop_last()[i],
        ) by {
            assert(is_white(b[i]));
        }
        lemma_end(text, b.drop_last());
    } else {
        assert(s =~= text);
    }
}

/// Nothing is left of blanks.
pub proof fn law_nothing_is_left_of_blanks(s: Seq<char>)
    requires
        all_white(s),
    ensures
        trimmed(s).len() == 0,
        trimmed_end(s).len() == 0,
{
    assert(s.subrange(0, s.len() as int) =~= s);
    assert(crate::text::is_trim_range(s, s.len() as int, s.len() as int));
    lemma_trimmed(s, s.len() as int, s.len() as int);
    lemma_end(Seq::<char>::empty(), s);
    assert(Seq::<char>::empty() + s =~= s);
}

// ---------------------------------------------------------------------------
// Numbers.
// ---------------------------------------------------------------------------

/// The value of decimal digits.
pub open spec fn value(s: Seq<char>) -> int
    decreases s.len(),
{
    if s.len() == 0 {
        0
    } else {
        10 * value(s.drop_last()) + (s.last() as int - 48)
    }
}

/// A number is written in digits of its value, without a zero before them.
pub proof fn law_numbers_are_written_in_digits(n: nat)
    ensures
        value(decimal(n)) == n,
        decimal(n).len() > 0,
        forall|i: int| 0 <= i < decimal(n).len() ==> 48 <= #[trigger] decimal(n)[i] as int <= 57,
        n > 0 ==> decimal(n)[0] != '0',
        n == 0 ==> decimal(n) == seq!['0'],
        n > 0 ==> signed_decimal(-(n as int)) == seq!['-'] + decimal(n),
        signed_decimal(n as int) == decimal(n),
    decreases n,
{
    let s = decimal(n);
    assert(Seq::<char>::empty().len() == 0);
    if n < 10 {
        assert(s.drop_last() =~= Seq::<char>::empty());
        assert(value(s.drop_last()) == 0);
        assert(s[0] as int == 48 + n);
    } else {
        let rest = decimal(n / 10);
        law_numbers_are_written_in_digits(n / 10);
        assert(s.drop_last() =~= rest);
        assert(s.last() as int == 48 + n % 10);
        assert(s[0] == rest[0]);
        assert forall|i: int| 0 <= i < s.len() implies 48 <= #[trigger] s[i] as int <= 57 by {
            if i < rest.len() {
                assert(s[i] == rest[i]);
            }
        }
    }
}

/// A number is read from its digits, with or without a plus before them; from
/// nothing, or from a number that is too large, none is read.
pub proof fn law_numbers_are_read_from_digits(n: nat, s: Seq<char>)
    ensures
        n <= u32::MAX ==> u32_of(decimal(n), 10) == Some(n as u32),
        n <= u32::MAX ==> u32_of(seq!['+'] + decimal(n), 10) == Some(n as u32),
        n > u32::MAX ==> u32_of(decimal(n), 10) is None,
        s.len() == 0 ==> u32_of(s, 10) is None,
{
    crate::text::number::lemma_decimal_reads_back(n);
    let t = seq!['+'] + decimal(n);
    assert(t.skip(1) =~= decimal(n));
    assert(decimal(n)[0] != '+');
}

/// In base 16 the letters from a to f, large or small, are ten to fifteen.
pub proof fn law_letters_are_digits(s: Seq<char>, c: char, n: nat)
    requires
        digits_value(s, 16) == Some(n),
    ensures
        '0' <= c <= '9' ==> digits_value(s.push(c), 16) == Some((n * 16 + (c as int - 48)) as nat),
        'a' <= c <= 'f' ==> digits_value(s.push(c), 16) == Some((n * 16 + (c as int - 87)) as nat),
        'A' <= c <= 'F' ==> digits_value(s.push(c), 16) == Some((n * 16 + (c as int - 55)) as nat),
        !('0' <= c <= '9') && !('a' <= c <= 'f') && !('A' <= c <= 'F') ==> digits_value(
            s.push(c),
            16,
        ) is None,
        digits_value(Seq::<char>::empty(), 16) == Some(0nat),
{
    assert(s.push(c).drop_last() =~= s);
}

// ---------------------------------------------------------------------------
// Parts.
// ---------------------------------------------------------------------------

/// A text is cut at the first separator, or from behind at the last; one
/// without a separator is not cut.
pub proof fn law_where_a_text_is_cut(a: Seq<char>, sep: char, b: Seq<char>)
    ensures
        !a.contains(sep) ==> cut_at(a + seq![sep] + b, sep) == Some((a, b)),
        !b.contains(sep) ==> cut_at_last(a + seq![sep] + b, sep) == Some((a, b)),
        !a.contains(sep) ==> cut_at(a, sep) is None && cut_at_last(a, sep) is None,
{
    if !a.contains(sep) {
        lemma_cut_at(a, sep, b);
        lemma_no_index(a, sep);
        lemma_no_last(a, sep);
    }
    if !b.contains(sep) {
        lemma_cut_at_last(a, sep, b);
    }
}

proof fn lemma_no_index(s: Seq<char>, sep: char)
    requires
        !s.contains(sep),
    ensures
        crate::text::split::first_index(s, sep) == s.len(),
    decreases s.len(),
{
    if s.len() > 0 {
        assert(s.contains(s[0]));
        let rest = s.drop_first();
        assert forall|i: int| 0 <= i < rest.len() implies rest[i] != sep by {
            assert(s.contains(s[i + 1]));
        }
        lemma_no_index(rest, sep);
    }
}

proof fn lemma_no_last(s: Seq<char>, sep: char)
    requires
        !s.contains(sep),
    ensures
        cut_at_last(s, sep) is None,
    decreases s.len(),
{
    if s.len() > 0 {
        assert(s.contains(s[s.len() - 1]));
        let rest = s.drop_last();
        assert forall|i: int| 0 <= i < rest.len() implies rest[i] != sep by {
            assert(s.contains(s[i]));
        }
        lemma_no_last(rest, sep);
    }
}

/// The pieces of a text hold no separator, and with the separator between them
/// they make up the text. There is one more of them than separators.
pub proof fn law_pieces_make_up_the_text(a: Seq<char>, sep: char, b: Seq<char>, i: int)
    ensures
        split_on(a, sep).len() >= 1,
        0 <= i < split_on(a, sep).len() ==> !split_on(a, sep)[i].contains(sep),
        join(split_on(a, sep), seq![sep]) == a,
        !b.contains(sep) ==> split_on(b, sep) == seq![b],
        !b.contains(sep) ==> split_on(a + seq![sep] + b, sep) == split_on(a, sep).push(b),
{
    lemma_split_nonempty(a, sep);
    lemma_pieces_free_of_separator(a, sep);
    lemma_join_split(a, sep);
    if !b.contains(sep) {
        lemma_split_whole(b, sep);
        lemma_split_push(a, sep, b);
    }
}

/// Parts are joined with the separator between them, and only there.
pub proof fn law_how_parts_are_joined(parts: Seq<Seq<char>>, next: Seq<char>, sep: Seq<char>)
    ensures
        join(Seq::<Seq<char>>::empty(), sep).len() == 0,
        join(seq![next], sep) == next,
        parts.len() > 0 ==> join(parts.push(next), sep) == join(parts, sep) + sep + next,
{
    assert(parts.push(next).drop_last() =~= parts);
}

/// Lists are put together one after the other.
pub proof fn law_how_lists_are_put_together(lists: Seq<Seq<char>>, next: Seq<char>)
    ensures
        flat(Seq::<Seq<char>>::empty()).len() == 0,
        flat(lists.push(next)) == flat(lists) + next,
{
    assert(lists.push(next).drop_last() =~= lists);
}

// ---------------------------------------------------------------------------
// Lines.
// ---------------------------------------------------------------------------

/// A line ends at its line end, which is not part of it, nor a carriage return
/// before that. What follows the last line end is a line where it is not
/// empty.
pub proof fn law_where_lines_end(a: Seq<char>, line: Seq<char>)
    requires
        !line.contains('\n'),
    ensures
        lines_of(Seq::<char>::empty()).len() == 0,
        line.len() > 0 ==> lines_of(line) == seq![line],
        line.len() > 0 ==> lines_of(a + seq!['\n'] + line) == lines_of(a + seq!['\n']).push(line),
        line.len() == 0 || line.last() != '\r' ==> lines_of(line + seq!['\n']) == seq![line],
        line.len() > 0 && line.last() == '\r' ==> lines_of(line + seq!['\n']) == seq![
            line.drop_last(),
        ],
{
    let none = Seq::<char>::empty();
    assert(!none.contains('\n'));
    lemma_split_whole(none, '\n');
    assert(lines_of(none) =~= Seq::<Seq<char>>::empty());
    lemma_split_whole(line, '\n');
    if line.len() > 0 {
        assert(lines_of(line) =~= seq![line]);
    }
    lemma_split_push(a, '\n', line);
    lemma_split_push(a, '\n', none);
    assert(a + seq!['\n'] + none =~= a + seq!['\n']);
    lemma_split_nonempty(a, '\n');
    if line.len() > 0 {
        assert(lines_of(a + seq!['\n'] + line) =~= lines_of(a + seq!['\n']).push(line));
    }
    lemma_split_push(line, '\n', none);
    assert(line + seq!['\n'] + none =~= line + seq!['\n']);
    if line.len() == 0 || line.last() != '\r' {
        assert(lines_of(line + seq!['\n']) =~= seq![line]);
    } else {
        assert(lines_of(line + seq!['\n']) =~= seq![line.drop_last()]);
    }
}

/// The last lines of a text are all of them where there are no more than
/// asked for.
pub proof fn law_which_lines_are_last(s: Seq<char>, n: nat)
    ensures
        n >= lines_of(s).len() ==> last_lines(s, n) == join(lines_of(s), "\n"@),
        n < lines_of(s).len() ==> last_lines(s, n) == join(
            lines_of(s).subrange(lines_of(s).len() - n, lines_of(s).len() as int),
            "\n"@,
        ),
{
    let all = lines_of(s);
    assert(all.skip(0) =~= all);
    if n < all.len() {
        assert(all.skip(all.len() - n) =~= all.subrange(all.len() - n, all.len() as int));
    }
}

// ---------------------------------------------------------------------------
// Replacements.
// ---------------------------------------------------------------------------

/// One character is replaced where it is the one meant.
pub proof fn law_one_character_is_replaced(c: char, from: char, to: Seq<char>)
    ensures
        replaced(Seq::<char>::empty(), from, to).len() == 0,
        c == from ==> replaced(seq![c], from, to) == to,
        c != from ==> replaced(seq![c], from, to) == seq![c],
{
    let s = seq![c];
    assert(s.drop_last() =~= Seq::<char>::empty());
    assert(replaced(s.drop_last(), from, to) =~= Seq::<char>::empty());
    assert(Seq::<char>::empty() + to =~= to);
    assert(Seq::<char>::empty() + seq![c] =~= seq![c]);
}

/// A text is replaced part by part.
pub proof fn law_parts_are_replaced_alone(a: Seq<char>, b: Seq<char>, from: char, to: Seq<char>)
    ensures
        replaced(a + b, from, to) == replaced(a, from, to) + replaced(b, from, to),
    decreases b.len(),
{
    if b.len() == 0 {
        assert(a + b =~= a);
        assert(replaced(a, from, to) + replaced(b, from, to) =~= replaced(a, from, to));
    } else {
        let s = a + b;
        assert(s.drop_last() =~= a + b.drop_last());
        assert(s.last() == b.last());
        law_parts_are_replaced_alone(a, b.drop_last(), from, to);
        assert(replaced(s, from, to) =~= replaced(a, from, to) + replaced(b, from, to));
    }
}

/// A text without the character stays.
pub proof fn lemma_nothing_to_replace(s: Seq<char>, from: char, to: Seq<char>)
    requires
        !s.contains(from),
    ensures
        replaced(s, from, to) == s,
    decreases s.len(),
{
    if s.len() > 0 {
        let init = s.drop_last();
        assert forall|i: int| 0 <= i < init.len() implies init[i] != from by {
            assert(s.contains(s[i]));
        }
        lemma_nothing_to_replace(init, from, to);
        assert(s.contains(s[s.len() - 1]));
        assert(init + seq![s.last()] =~= s);
    } else {
        assert(s =~= Seq::<char>::empty());
    }
}

/// The first occurrence of a word is replaced, and what follows it is looked
/// through after it.
pub proof fn law_words_are_replaced_in_order(
    a: Seq<char>,
    from: Seq<char>,
    b: Seq<char>,
    to: Seq<char>,
)
    requires
        from.len() > 0,
        forall|i: int|
            0 <= i < a.len() ==> !starts_with(#[trigger] (a + from + b).skip(i), from),
    ensures
        substituted(a + from + b, from, to) == a + to + substituted(b, from, to),
    decreases a.len(),
{
    let s = a + from + b;
    if a.len() == 0 {
        assert(s.take(from.len() as int) =~= from);
        assert(s.skip(from.len() as int) =~= b);
        assert(a + to + substituted(b, from, to) =~= to + substituted(b, from, to));
    } else {
        assert(s.skip(0) =~= s);
        assert(!starts_with(s.skip(0), from));
        let rest = a.drop_first();
        assert(s.drop_first() =~= rest + from + b);
        assert forall|i: int| 0 <= i < rest.len() implies !starts_with(
            #[trigger] (rest + from + b).skip(i),
            from,
        ) by {
            assert((rest + from + b).skip(i) =~= s.skip(i + 1));
            assert(!starts_with(s.skip(i + 1), from));
        }
        law_words_are_replaced_in_order(rest, from, b, to);
        assert(seq![s[0]] + (rest + to + substituted(b, from, to)) =~= a + to + substituted(
            b,
            from,
            to,
        ));
    }
}

// ---------------------------------------------------------------------------
// Order and case.
// ---------------------------------------------------------------------------

/// Texts are ordered by the first character in which they differ, and a text
/// comes before what continues it.
pub proof fn law_how_texts_are_ordered(
    common: Seq<char>,
    a: char,
    b: char,
    x: Seq<char>,
    y: Seq<char>,
)
    ensures
        a < b ==> text_lt(common + (seq![a] + x), common + (seq![b] + y)),
        a > b ==> !text_lt(common + (seq![a] + x), common + (seq![b] + y)),
        text_lt(common, common + (seq![a] + x)),
        !text_lt(common + x, common),
    decreases common.len(),
{
    let s = common + (seq![a] + x);
    let t = common + (seq![b] + y);
    if common.len() > 0 {
        let rest = common.drop_first();
        law_how_texts_are_ordered(rest, a, b, x, y);
        assert(s.drop_first() =~= rest + (seq![a] + x));
        assert(t.drop_first() =~= rest + (seq![b] + y));
        assert((common + x).drop_first() =~= rest + x);
        assert(s[0] == common[0] && t[0] == common[0] && (common + x)[0] == common[0]);
    } else {
        assert(s[0] == a && t[0] == b);
    }
}

/// Sorting keeps everything, whatever the order is.
pub proof fn law_sorting_keeps_everything<T>(s: Seq<T>, leq: spec_fn(T, T) -> bool, i: int)
    requires
        0 <= i < s.len(),
    ensures
        stable_sorted(s, leq).contains(s[i]),
        stable_sorted(s, leq).len() == s.len(),
    decreases s.len(),
{
    let init = s.drop_last();
    let rest = stable_sorted(init, leq);
    lemma_sorted_len(init, leq);
    lemma_insert_keeps(rest, s.last(), leq);
    if i < init.len() {
        law_sorting_keeps_everything(init, leq, i);
        assert(init[i] == s[i]);
    }
}

proof fn lemma_sorted_len<T>(s: Seq<T>, leq: spec_fn(T, T) -> bool)
    ensures
        stable_sorted(s, leq).len() == s.len(),
    decreases s.len(),
{
    if s.len() > 0 {
        lemma_sorted_len(s.drop_last(), leq);
        lemma_insert_keeps(stable_sorted(s.drop_last(), leq), s.last(), leq);
    }
}

proof fn lemma_insert_keeps<T>(s: Seq<T>, x: T, leq: spec_fn(T, T) -> bool)
    ensures
        insert_sorted(s, x, leq).len() == s.len() + 1,
        insert_sorted(s, x, leq).contains(x),
        forall|y: T| s.contains(y) ==> #[trigger] insert_sorted(s, x, leq).contains(y),
    decreases s.len(),
{
    let all = insert_sorted(s, x, leq);
    if s.len() == 0 || leq(s.last(), x) {
        assert(all[s.len() as int] == x);
        assert forall|y: T| s.contains(y) implies #[trigger] all.contains(y) by {
            let k = choose|k: int| 0 <= k < s.len() && s[k] == y;
            assert(all[k] == y);
        }
    } else {
        let init = s.drop_last();
        let rest = insert_sorted(init, x, leq);
        lemma_insert_keeps(init, x, leq);
        let k = choose|k: int| 0 <= k < rest.len() && rest[k] == x;
        assert(all[k] == x);
        assert forall|y: T| s.contains(y) implies #[trigger] all.contains(y) by {
            let k = choose|k: int| 0 <= k < s.len() && s[k] == y;
            if k < init.len() {
                assert(init[k] == y);
                assert(rest.contains(y));
                let m = choose|m: int| 0 <= m < rest.len() && rest[m] == y;
                assert(all[m] == y);
            } else {
                assert(all[all.len() - 1] == y);
            }
        }
    }
}

/// Letters from A to Z become small, and everything else stays.
pub proof fn law_which_letters_become_small(s: Seq<char>, i: int)
    requires
        0 <= i < s.len(),
    ensures
        ascii_lower(s).len() == s.len(),
        65 <= s[i] as u32 <= 90 ==> ascii_lower(s)[i] as u32 == s[i] as u32 + 32,
        !(65 <= s[i] as u32 <= 90) ==> ascii_lower(s)[i] == s[i],
{
}

/// A text holds another where it can be parted around it.
pub proof fn law_what_a_text_holds(a: Seq<char>, word: Seq<char>, b: Seq<char>, h: Seq<char>)
    ensures
        contains(a + word + b, word),
        starts_with(word + b, word),
        contains(h, word) ==> exists|x: Seq<char>, y: Seq<char>| h == #[trigger] (x + word + y),
        h.len() < word.len() ==> !contains(h, word),
{
    let s = a + word + b;
    assert(s.subrange(a.len() as int, (a.len() + word.len()) as int) =~= word);
    assert(crate::text::find::occurs_at(s, word, a.len() as int));
    assert((word + b).take(word.len() as int) =~= word);
    if contains(h, word) {
        let i = choose|i: int| crate::text::find::occurs_at(h, word, i);
        let x = h.take(i);
        let y = h.skip(i + word.len());
        assert(h =~= x + word + y) by {
            assert forall|k: int| 0 <= k < h.len() implies h[k] == (x + word + y)[k] by {
                if i <= k < i + word.len() {
                    assert(h.subrange(i, i + word.len())[k - i] == word[k - i]);
                }
            }
        }
    }
}

} // verus!
