//! Laws of texts: how they are cut, joined, padded, searched and read as numbers.

use crate::text;
use vstd::prelude::*;

verus! {

/// Only the letters `A` to `Z` change their case, each to its own small letter;
/// nothing else of a text changes.
pub proof fn law_lower_case(s: Seq<char>, i: int)
    requires
        0 <= i < s.len(),
    ensures
        text::lower(s).len() == s.len(),
        'A' <= s[i] <= 'Z' ==> text::lower(s)[i] as u32 == s[i] as u32 + 32,
        !('A' <= s[i] <= 'Z') ==> text::lower(s)[i] == s[i],
{
}

/// Parts are joined with the separator between them, and with none at either end.
pub proof fn law_joined(parts: Seq<Seq<char>>, last: Seq<char>, sep: Seq<char>)
    ensures
        parts.len() > 0 ==> text::joined(parts.push(last), sep) == text::joined(parts, sep) + sep
            + last,
        text::joined(seq![last], sep) == last,
        text::joined(Seq::empty(), sep).len() == 0,
{
    assert(parts.push(last).drop_last() =~= parts);
}

/// A text is padded with blanks to its width, and is never cut.
pub proof fn law_padded(s: Seq<char>, width: nat, i: int)
    ensures
        ({
            let r = text::padded_right(s, width);
            let l = text::padded_left(s, width);
            let n = s.len();
            &&& r.len() == (if n < width {
                width
            } else {
                n
            })
            &&& l.len() == r.len()
            &&& r.take(n as int) == s
            &&& l.skip(l.len() - n) == s
            &&& n <= i < r.len() ==> r[i] == ' '
            &&& 0 <= i < l.len() - n ==> l[i] == ' '
        }),
{
    let gap: nat = if width > s.len() {
        (width - s.len()) as nat
    } else {
        0
    };
    lemma_blanks(gap);
    let r = text::padded_right(s, width);
    let l = text::padded_left(s, width);
    assert(r.take(s.len() as int) =~= s);
    assert(l.skip(l.len() - s.len()) =~= s);
}

proof fn lemma_blanks(n: nat)
    ensures
        text::repeated(" "@, n).len() == n,
        forall|i: int| 0 <= i < n ==> #[trigger] text::repeated(" "@, n)[i] == ' ',
    decreases n,
{
    reveal_strlit(" ");
    if n > 0 {
        lemma_blanks((n - 1) as nat);
    }
}

/// Something repeated stands there as often as was asked.
pub proof fn law_repeated(s: Seq<char>, n: nat)
    ensures
        text::repeated(s, 0).len() == 0,
        text::repeated(s, n + 1) == text::repeated(s, n) + s,
        text::repeated(s, n).len() == n * s.len(),
    decreases n,
{
    if n > 0 {
        law_repeated(s, (n - 1) as nat);
        assert((n - 1) * s.len() + s.len() == n * s.len()) by (nonlinear_arith)
            requires
                n > 0,
        ;
    } else {
        assert(0 * s.len() == 0);
    }
}

/// A text that is too long is cut to the limit, with a mark; no other changes.
pub proof fn law_clipped(s: Seq<char>, n: nat)
    ensures
        s.len() <= n ==> text::clipped(s, n) == s,
        s.len() > n ==> text::clipped(s, n) == s.take(n as int) + "…"@,
{
}

/// A text holds each of its parts, begins with each of its beginnings, and holds
/// nothing that stands nowhere in it.
pub proof fn law_parts(before: Seq<char>, part: Seq<char>, after: Seq<char>, other: Seq<char>)
    ensures
        text::has_part(before + part + after, part),
        text::has_prefix(part + after, part),
        text::has_prefix(other, part) ==> other.len() >= part.len() && other.take(
            part.len() as int,
        ) == part,
        text::has_part(other, part) ==> exists|i: int|
            0 <= i <= other.len() - part.len() && #[trigger] other.subrange(
                i,
                i + part.len(),
            ) == part,
{
    let whole = before + part + after;
    assert(whole.subrange(before.len() as int, (before.len() + part.len()) as int) =~= part);
    assert(text::stands_at(whole, part, before.len() as int));
    assert((part + after).subrange(0, part.len() as int) =~= part);
    if text::has_prefix(other, part) {
        assert(other.take(part.len() as int) =~= other.subrange(0, part.len() as int));
    }
    if text::has_part(other, part) {
        let i = choose|i: int| text::stands_at(other, part, i);
        assert(other.subrange(i, i + part.len()) == part);
    }
}

/// A number is written with two digits at least.
pub proof fn law_two_digits(n: nat)
    ensures
        n < 10 ==> text::dec2(n) == seq!['0'] + text::dec(n),
        n >= 10 ==> text::dec2(n) == text::dec(n),
{
    reveal_strlit("0");
    assert("0"@ =~= seq!['0']);
}

/// A number is read from digits alone, after a sign at most; what holds anything
/// else is none.
pub proof fn law_only_digits_are_numbers(s: Seq<char>, i: int)
    requires
        0 < i < s.len(),
        !text::is_digit(s[i]),
    ensures
        text::parsed_i64(s) is None,
        text::parsed_unsigned(s, u64::MAX as int) is None,
        text::parsed_nat(s) is None,
{
    assert(s.skip(1)[i - 1] == s[i]);
}

/// A plus sign before digits changes nothing, and a minus sign turns the number
/// over; neither is a number by itself.
pub proof fn law_signs(n: i64)
    requires
        n > 0,
    ensures
        text::parsed_i64(seq!['+'] + text::dec(n as nat)) == Some(n),
        text::parsed_i64(seq!['-'] + text::dec(n as nat)) == Some((-n) as i64),
        text::parsed_i64(seq!['+']) is None,
        text::parsed_i64(seq!['-']) is None,
        text::parsed_i64(Seq::empty()) is None,
        text::parsed_unsigned(seq!['-'] + text::dec(n as nat), u64::MAX as int) is None,
{
    text::lemma_dec_reads_back(n as nat);
    let d = text::dec(n as nat);
    assert((seq!['+'] + d).skip(1) =~= d);
    assert((seq!['-'] + d).skip(1) =~= d);
    let bad = seq!['-'] + d;
    assert(!text::is_digit(bad[0]));
    assert(seq!['+'].skip(1).len() == 0);
    assert(seq!['-'].skip(1).len() == 0);
}

/// Dashes go, and every other character stays in its place among the rest.
pub proof fn law_undashed(a: Seq<char>, c: char)
    ensures
        c == '-' || c == '_' ==> text::undashed(a.push(c)) == text::undashed(a),
        c != '-' && c != '_' ==> text::undashed(a.push(c)) == text::undashed(a).push(c),
        text::undashed(Seq::empty()).len() == 0,
{
    reveal(Seq::filter);
    assert(a.push(c).drop_last() =~= a);
}

/// The ends of a line go, all of them, and nothing else does.
pub proof fn law_line_end(s: Seq<char>, c: char)
    ensures
        c == '\n' || c == '\r' ==> text::without_line_end(s.push(c)) == text::without_line_end(s),
        c != '\n' && c != '\r' ==> text::without_line_end(s.push(c)) == s.push(c),
        text::without_line_end(Seq::empty()).len() == 0,
{
    assert(s.push(c).drop_last() =~= s);
}

/// White space goes at both ends, and stays within.
pub proof fn law_trimmed(s: Seq<char>, c: char)
    requires
        s.len() > 0,
        !text::is_space(s[0]),
        !text::is_space(s.last()),
        text::is_space(c),
    ensures
        text::trimmed(s) == s,
        text::trimmed(seq![c] + s) == s,
        text::trimmed(s.push(c)) == s,
        text::is_space(' ') && text::is_space('\t') && text::is_space('\n'),
        !text::is_space('a') && !text::is_space('0') && !text::is_space('-'),
{
    let a = seq![c] + s;
    let b = s.push(c);
    assert(a[0] == c && a.skip(1) =~= s);
    assert(text::trimmed_start(s) == s && text::trimmed_end(s) == s);
    assert(text::trimmed_start(a) == text::trimmed_start(a.skip(1)));
    assert(b[0] == s[0] && b.last() == c && b.drop_last() =~= s);
    assert(text::trimmed_start(b) == b);
    assert(text::trimmed_end(b) == text::trimmed_end(b.drop_last()));
}

/// Where a prefix goes, all its copies at the start do, and nothing else.
pub proof fn law_without_start(s: Seq<char>, p: Seq<char>)
    requires
        p.len() > 0,
    ensures
        text::without_start(p + s, p) == text::without_start(s, p),
        !text::has_prefix(s, p) ==> text::without_start(s, p) == s,
{
    assert((p + s).subrange(0, p.len() as int) =~= p);
    assert((p + s).skip(p.len() as int) =~= s);
}

} // verus!
