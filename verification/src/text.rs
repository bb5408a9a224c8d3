//! Text primitives: comparison, searching, trimming, decimal numbers, padding.
//!
//! Contracts speak of a string by its view, the sequence of its characters.

use vstd::prelude::*;
use vstd::string::*;

verus! {

/// `String::push` appends one character.
pub assume_specification[ String::push ](s: &mut String, c: char)
    ensures
        final(s)@ == old(s)@.push(c),
;

// ---------------------------------------------------------------------------
// characters
// ---------------------------------------------------------------------------

/// The characters of a string, in order.
pub fn chars_of(s: &str) -> (r: Vec<char>)
    ensures
        r@ == s@,
{
    let mut out: Vec<char> = Vec::new();
    for c in it: s.chars()
        invariant
            out@ == it.seq().take(it.index()),
            it.seq() == s@,
    {
        out.push(c);
        assert(it.seq().take(it.index() + 1) == it.seq().take(it.index()).push(c));
    }
    assert(out@ == s@);
    out
}

/// The string made of the characters `v[from..to]`.
pub fn text_of(v: &Vec<char>, from: usize, to: usize) -> (r: String)
    requires
        from <= to <= v@.len(),
    ensures
        r@ == v@.subrange(from as int, to as int),
{
    let mut out = String::new();
    let mut i: usize = from;
    while i < to
        invariant
            from <= i <= to <= v@.len(),
            out@ == v@.subrange(from as int, i as int),
        decreases to - i,
    {
        out.push(v[i]);
        assert(v@.subrange(from as int, i + 1) == v@.subrange(from as int, i as int).push(
            v@[i as int],
        ));
        i = i + 1;
    }
    out
}

/// Whether a number is that of a character.
pub open spec fn is_scalar(n: u32) -> bool {
    n < 0xD800 || 0xE000 <= n <= 0x10_FFFF
}

/// `char::from_u32`: the character of a number, where there is one.
#[verifier::external_body]
pub(crate) fn char_of(n: u32) -> (r: Option<char>)
    ensures
        r is Some == is_scalar(n),
        r matches Some(c) ==> c == n as char,
{
    char::from_u32(n)
}

/// Whether two strings hold the same characters.
pub fn same(a: &str, b: &str) -> (r: bool)
    ensures
        r == (a@ == b@),
{
    a.to_owned() == b.to_owned()
}

/// Whether a string is one of the four given ones.
pub fn one_of(a: &str, b: &str, c: &str, d: &str, e: &str) -> (r: bool)
    ensures
        r == (a@ == b@ || a@ == c@ || a@ == d@ || a@ == e@),
{
    same(a, b) || same(a, c) || same(a, d) || same(a, e)
}

pub fn is_empty(s: &str) -> (r: bool)
    ensures
        r == (s@.len() == 0),
{
    chars_of(s).len() == 0
}

/// An owned copy of a string.
pub fn owned(s: &str) -> (r: String)
    ensures
        r@ == s@,
{
    s.to_owned()
}

/// An owned copy of an optional string.
pub fn owned_option(s: &Option<String>) -> (r: Option<String>)
    ensures
        view_option(r) == view_option(*s),
{
    match s {
        Some(x) => Some(owned(x.as_str())),
        None => None,
    }
}

/// The characters of an optional string.
pub open spec fn view_option(s: Option<String>) -> Option<Seq<char>> {
    match s {
        Some(x) => Some(x@),
        None => None,
    }
}

/// The characters of each string of a list.
pub open spec fn view_all(v: Seq<String>) -> Seq<Seq<char>> {
    v.map_values(|s: String| s@)
}

// ---------------------------------------------------------------------------
// concatenation
// ---------------------------------------------------------------------------

pub fn cat2(a: &str, b: &str) -> (r: String)
    ensures
        r@ == a@ + b@,
{
    let mut out = owned(a);
    out.append(b);
    out
}

pub fn cat3(a: &str, b: &str, c: &str) -> (r: String)
    ensures
        r@ == a@ + b@ + c@,
{
    let mut out = cat2(a, b);
    out.append(c);
    out
}

pub fn cat4(a: &str, b: &str, c: &str, d: &str) -> (r: String)
    ensures
        r@ == a@ + b@ + c@ + d@,
{
    let mut out = cat3(a, b, c);
    out.append(d);
    out
}

pub fn cat5(a: &str, b: &str, c: &str, d: &str, e: &str) -> (r: String)
    ensures
        r@ == a@ + b@ + c@ + d@ + e@,
{
    let mut out = cat4(a, b, c, d);
    out.append(e);
    out
}

/// `n` copies of `s`, one after the other.
pub open spec fn repeated(s: Seq<char>, n: nat) -> Seq<char>
    decreases n,
{
    if n == 0 {
        seq![]
    } else {
        repeated(s, (n - 1) as nat) + s
    }
}

pub fn repeat(s: &str, n: usize) -> (r: String)
    ensures
        r@ == repeated(s@, n as nat),
{
    let mut out = String::new();
    let mut i: usize = 0;
    while i < n
        invariant
            i <= n,
            out@ == repeated(s@, i as nat),
        decreases n - i,
    {
        out.append(s);
        i = i + 1;
    }
    out
}

/// The parts, with `sep` between each and the next.
pub open spec fn joined(parts: Seq<Seq<char>>, sep: Seq<char>) -> Seq<char>
    decreases parts.len(),
{
    if parts.len() == 0 {
        seq![]
    } else if parts.len() == 1 {
        parts[0]
    } else {
        joined(parts.drop_last(), sep) + sep + parts.last()
    }
}

pub fn join(parts: &Vec<String>, sep: &str) -> (r: String)
    ensures
        r@ == joined(view_all(parts@), sep@),
{
    let mut out = String::new();
    let ghost all = view_all(parts@);
    let mut i: usize = 0;
    while i < parts.len()
        invariant
            all == view_all(parts@),
            i <= parts@.len(),
            out@ == joined(all.take(i as int), sep@),
        decreases parts@.len() - i,
    {
        proof {
            assert(all.take(i + 1).drop_last() == all.take(i as int));
        }
        if i > 0 {
            out.append(sep);
            out.append(parts[i].as_str());
        } else {
            out.append(parts[i].as_str());
            assert(out@ == parts@[0]@);
        }
        i = i + 1;
    }
    assert(all.take(all.len() as int) == all);
    out
}

/// `s` followed by spaces up to `width` characters.
pub open spec fn padded_right(s: Seq<char>, width: nat) -> Seq<char> {
    s + repeated(" "@, if width > s.len() { (width - s.len()) as nat } else { 0 })
}

/// Spaces up to `width` characters, then `s`.
pub open spec fn padded_left(s: Seq<char>, width: nat) -> Seq<char> {
    repeated(" "@, if width > s.len() { (width - s.len()) as nat } else { 0 }) + s
}

pub fn pad_right(s: &str, width: usize) -> (r: String)
    ensures
        r@ == padded_right(s@, width as nat),
{
    let n = chars_of(s).len();
    let gap: usize = if width > n {
        width - n
    } else {
        0
    };
    let spaces = repeat(" ", gap);
    cat2(s, spaces.as_str())
}

pub fn pad_left(s: &str, width: usize) -> (r: String)
    ensures
        r@ == padded_left(s@, width as nat),
{
    let n = chars_of(s).len();
    let gap: usize = if width > n {
        width - n
    } else {
        0
    };
    let spaces = repeat(" ", gap);
    cat2(spaces.as_str(), s)
}

// ---------------------------------------------------------------------------
// case
// ---------------------------------------------------------------------------

/// The lower-case form of an ASCII letter; any other character as it is.
pub open spec fn lower_char(c: char) -> char {
    if 'A' <= c <= 'Z' {
        (c as u32 + 32) as char
    } else {
        c
    }
}

pub open spec fn lower(s: Seq<char>) -> Seq<char> {
    s.map_values(|c: char| lower_char(c))
}

/// Lower-cases the ASCII letters of a string.
pub fn ascii_lower(s: &str) -> (r: String)
    ensures
        r@ == lower(s@),
{
    let v = chars_of(s);
    let mut out = String::new();
    let mut i: usize = 0;
    while i < v.len()
        invariant
            v@ == s@,
            i <= v@.len(),
            out@ == lower(s@.take(i as int)),
        decreases v@.len() - i,
    {
        let c = v[i];
        if c >= 'A' && c <= 'Z' {
            let b: u8 = (c as u8) + 32;
            out.push(b as char);
        } else {
            out.push(c);
        }
        assert(s@.take(i + 1) == s@.take(i as int).push(c));
        assert(lower(s@.take(i + 1)) == lower(s@.take(i as int)).push(lower_char(c)));
        i = i + 1;
    }
    assert(s@.take(s@.len() as int) == s@);
    out
}

/// What `str::to_lowercase` makes of a string.
pub uninterp spec fn unicode_lowered(s: Seq<char>) -> Seq<char>;

/// `str::to_lowercase`: the string with every letter of the Unicode tables in
/// lower case.
#[verifier::external_body]
pub(crate) fn unicode_lower(s: &str) -> (r: String)
    ensures
        r@ == unicode_lowered(s@),
{
    s.to_lowercase()
}

// ---------------------------------------------------------------------------
// searching
// ---------------------------------------------------------------------------

pub open spec fn has_prefix(s: Seq<char>, p: Seq<char>) -> bool {
    s.len() >= p.len() && s.subrange(0, p.len() as int) == p
}

/// `p` stands in `s` from position `i` on.
pub open spec fn stands_at(s: Seq<char>, p: Seq<char>, i: int) -> bool {
    0 <= i && i + p.len() <= s.len() && s.subrange(i, i + p.len()) == p
}

pub open spec fn has_part(s: Seq<char>, p: Seq<char>) -> bool {
    exists|i: int| stands_at(s, p, i)
}

fn matches_at(v: &Vec<char>, p: &Vec<char>, at: usize) -> (r: bool)
    ensures
        r == stands_at(v@, p@, at as int),
{
    let n = v.len();
    if at > n || p.len() > n - at {
        return false;
    }
    let mut j: usize = 0;
    while j < p.len()
        invariant
            j <= p@.len(),
            n == v@.len(),
            at + p@.len() <= n,
            forall|k: int| 0 <= k < j ==> v@[at + k] == p@[k],
        decreases p@.len() - j,
    {
        if v[at + j] != p[j] {
            assert(v@.subrange(at as int, at + p@.len())[j as int] == v@[at + j]);
            return false;
        }
        j = j + 1;
    }
    assert(v@.subrange(at as int, at + p@.len()) == p@);
    true
}

pub fn starts_with(s: &str, p: &str) -> (r: bool)
    ensures
        r == has_prefix(s@, p@),
{
    let v = chars_of(s);
    let w = chars_of(p);
    matches_at(&v, &w, 0)
}

pub fn contains(s: &str, p: &str) -> (r: bool)
    ensures
        r == has_part(s@, p@),
{
    let v = chars_of(s);
    let w = chars_of(p);
    let mut i: usize = 0;
    while i < v.len()
        invariant
            v@ == s@,
            w@ == p@,
            i <= v@.len(),
            forall|k: int| 0 <= k < i ==> !stands_at(s@, p@, k),
        decreases v@.len() - i,
    {
        if matches_at(&v, &w, i) {
            assert(stands_at(s@, p@, i as int));
            return true;
        }
        i = i + 1;
    }
    let r = matches_at(&v, &w, i);
    proof {
        if has_part(s@, p@) {
            let k = choose|k: int| stands_at(s@, p@, k);
            assert(k == i);
        }
    }
    r
}

// ---------------------------------------------------------------------------
// trimming and splitting
// ---------------------------------------------------------------------------

/// Whether a character has the Unicode property `White_Space`.
pub open spec fn is_space(c: char) -> bool {
    let n = c as u32;
    ||| 0x09 <= n <= 0x0D
    ||| n == 0x20
    ||| n == 0x85
    ||| n == 0xA0
    ||| n == 0x1680
    ||| 0x2000 <= n <= 0x200A
    ||| n == 0x2028
    ||| n == 0x2029
    ||| n == 0x202F
    ||| n == 0x205F
    ||| n == 0x3000
}

pub fn space(c: char) -> (r: bool)
    ensures
        r == is_space(c),
{
    let n: u32 = c as u32;
    (0x09 <= n && n <= 0x0D) || n == 0x20 || n == 0x85 || n == 0xA0 || n == 0x1680 || (0x2000 <= n
        && n <= 0x200A) || n == 0x2028 || n == 0x2029 || n == 0x202F || n == 0x205F || n == 0x3000
}

pub open spec fn trimmed_start(s: Seq<char>) -> Seq<char>
    decreases s.len(),
{
    if s.len() > 0 && is_space(s[0]) {
        trimmed_start(s.skip(1))
    } else {
        s
    }
}

pub open spec fn trimmed_end(s: Seq<char>) -> Seq<char>
    decreases s.len(),
{
    if s.len() > 0 && is_space(s.last()) {
        trimmed_end(s.drop_last())
    } else {
        s
    }
}

/// `s` without white space at either end.
pub open spec fn trimmed(s: Seq<char>) -> Seq<char> {
    trimmed_end(trimmed_start(s))
}

pub fn trim(s: &str) -> (r: String)
    ensures
        r@ == trimmed(s@),
{
    let v = chars_of(s);
    let mut a: usize = 0;
    assert(v@.subrange(0, v@.len() as int) == s@);
    while a < v.len() && space(v[a])
        invariant
            a <= v@.len(),
            v@ == s@,
            trimmed_start(v@.subrange(a as int, v@.len() as int)) == trimmed_start(s@),
        decreases v@.len() - a,
    {
        assert(v@.subrange(a as int, v@.len() as int).skip(1) == v@.subrange(
            a + 1,
            v@.len() as int,
        ));
        a = a + 1;
    }
    assert(trimmed_start(s@) == v@.subrange(a as int, v@.len() as int));
    let mut b: usize = v.len();
    while b > a && space(v[b - 1])
        invariant
            a <= b <= v@.len(),
            trimmed_end(v@.subrange(a as int, b as int)) == trimmed(s@),
        decreases b,
    {
        assert(v@.subrange(a as int, b as int).drop_last() == v@.subrange(a as int, b - 1));
        b = b - 1;
    }
    text_of(&v, a, b)
}

/// `s` without the newlines and carriage returns at its end.
pub open spec fn without_line_end(s: Seq<char>) -> Seq<char>
    decreases s.len(),
{
    if s.len() > 0 && (s.last() == '\n' || s.last() == '\r') {
        without_line_end(s.drop_last())
    } else {
        s
    }
}

pub fn strip_line_end(s: &str) -> (r: String)
    ensures
        r@ == without_line_end(s@),
{
    let v = chars_of(s);
    let mut b: usize = v.len();
    assert(v@.subrange(0, v@.len() as int) == s@);
    while b > 0 && (v[b - 1] == '\n' || v[b - 1] == '\r')
        invariant
            b <= v@.len(),
            without_line_end(v@.subrange(0, b as int)) == without_line_end(s@),
        decreases b,
    {
        assert(v@.subrange(0, b as int).drop_last() == v@.subrange(0, b - 1));
        b = b - 1;
    }
    text_of(&v, 0, b)
}

/// `s` without any `c` at its end.
pub open spec fn without_end(s: Seq<char>, c: char) -> Seq<char>
    decreases s.len(),
{
    if s.len() > 0 && s.last() == c {
        without_end(s.drop_last(), c)
    } else {
        s
    }
}

pub fn strip_end(s: &str, c: char) -> (r: String)
    ensures
        r@ == without_end(s@, c),
{
    let v = chars_of(s);
    let mut b: usize = v.len();
    assert(v@.subrange(0, v@.len() as int) == s@);
    while b > 0 && v[b - 1] == c
        invariant
            b <= v@.len(),
            without_end(v@.subrange(0, b as int), c) == without_end(s@, c),
        decreases b,
    {
        assert(v@.subrange(0, b as int).drop_last() == v@.subrange(0, b - 1));
        b = b - 1;
    }
    text_of(&v, 0, b)
}

/// `s` without the copies of `p` that it starts with.
pub open spec fn without_start(s: Seq<char>, p: Seq<char>) -> Seq<char>
    decreases s.len(),
{
    if p.len() > 0 && has_prefix(s, p) {
        without_start(s.skip(p.len() as int), p)
    } else {
        s
    }
}

pub fn strip_start(s: &str, p: &str) -> (r: String)
    ensures
        r@ == without_start(s@, p@),
{
    let v = chars_of(s);
    let w = chars_of(p);
    let n = v.len();
    let mut a: usize = 0;
    assert(v@.subrange(0, v@.len() as int) == s@);
    while w.len() > 0 && matches_at(&v, &w, a)
        invariant
            a <= n,
            n == v@.len(),
            v@ == s@,
            w@ == p@,
            without_start(v@.subrange(a as int, v@.len() as int), p@) == without_start(s@, p@),
        decreases v@.len() - a,
    {
        proof {
            let rest = v@.subrange(a as int, v@.len() as int);
            assert(rest.subrange(0, p@.len() as int) == v@.subrange(a as int, a + p@.len()));
            assert(rest.skip(p@.len() as int) == v@.subrange(a + p@.len(), v@.len() as int));
        }
        a = a + w.len();
    }
    proof {
        let rest = v@.subrange(a as int, v@.len() as int);
        if p@.len() > 0 && has_prefix(rest, p@) {
            assert(rest.subrange(0, p@.len() as int) == v@.subrange(a as int, a + p@.len()));
        }
    }
    text_of(&v, a, v.len())
}

/// What stands in `s` before the first `c`; all of `s` where there is none.
pub open spec fn before(s: Seq<char>, c: char) -> Seq<char>
    decreases s.len(),
{
    if s.len() == 0 || s[0] == c {
        seq![]
    } else {
        seq![s[0]] + before(s.skip(1), c)
    }
}

/// What stands in `s` after the first `c`, where there is one.
pub open spec fn after(s: Seq<char>, c: char) -> Option<Seq<char>>
    decreases s.len(),
{
    if s.len() == 0 {
        None
    } else if s[0] == c {
        Some(s.skip(1))
    } else {
        after(s.skip(1), c)
    }
}

/// Where the first `c` stands, or the length of `v`.
fn position(v: &Vec<char>, c: char) -> (r: usize)
    ensures
        r <= v@.len(),
        before(v@, c) == v@.subrange(0, r as int),
        after(v@, c) == (if r < v@.len() {
            Some(v@.skip(r + 1))
        } else {
            None
        }),
{
    let mut i: usize = 0;
    assert(v@.skip(0) == v@);
    assert(v@.subrange(0, 0) + before(v@, c) == before(v@, c));
    while i < v.len() && v[i] != c
        invariant
            i <= v@.len(),
            before(v@, c) == v@.subrange(0, i as int) + before(v@.skip(i as int), c),
            after(v@, c) == after(v@.skip(i as int), c),
        decreases v@.len() - i,
    {
        proof {
            let rest = v@.skip(i as int);
            assert(rest.skip(1) == v@.skip(i + 1));
            assert(v@.subrange(0, i + 1) == v@.subrange(0, i as int) + seq![rest[0]]);
            assert(v@.subrange(0, i as int) + (seq![rest[0]] + before(v@.skip(i + 1), c))
                == v@.subrange(0, i + 1) + before(v@.skip(i + 1), c));
        }
        i = i + 1;
    }
    assert(before(v@.skip(i as int), c) == Seq::<char>::empty());
    assert(v@.subrange(0, i as int) + Seq::<char>::empty() == v@.subrange(0, i as int));
    if i < v.len() {
        assert(v@.skip(i as int).skip(1) == v@.skip(i + 1));
    }
    i
}

pub fn take_before(s: &str, c: char) -> (r: String)
    ensures
        r@ == before(s@, c),
{
    let v = chars_of(s);
    let p = position(&v, c);
    text_of(&v, 0, p)
}

pub fn take_after(s: &str, c: char) -> (r: Option<String>)
    ensures
        view_option(r) == after(s@, c),
{
    let v = chars_of(s);
    let p = position(&v, c);
    if p < v.len() {
        let out = text_of(&v, p + 1, v.len());
        assert(v@.subrange(p + 1, v@.len() as int) == v@.skip(p + 1));
        Some(out)
    } else {
        None
    }
}

/// `s` without the characters `-` and `_`.
pub open spec fn undashed(s: Seq<char>) -> Seq<char> {
    s.filter(|c: char| c != '-' && c != '_')
}

pub fn undash(s: &str) -> (r: String)
    ensures
        r@ == undashed(s@),
{
    let v = chars_of(s);
    let mut out = String::new();
    let ghost keep = |c: char| c != '-' && c != '_';
    let mut i: usize = 0;
    proof {
        reveal(Seq::filter);
    }
    while i < v.len()
        invariant
            v@ == s@,
            i <= v@.len(),
            keep == (|c: char| c != '-' && c != '_'),
            out@ == s@.take(i as int).filter(keep),
        decreases v@.len() - i,
    {
        proof {
            reveal(Seq::filter);
            assert(s@.take(i + 1).drop_last() == s@.take(i as int));
            assert(s@.take(i + 1).last() == s@[i as int]);
        }
        let c = v[i];
        if c != '-' && c != '_' {
            out.push(c);
        }
        i = i + 1;
    }
    assert(s@.take(s@.len() as int) == s@);
    out
}

// ---------------------------------------------------------------------------
// shortening
// ---------------------------------------------------------------------------

/// `s`, or its first `n` characters and a `…` where it is longer.
pub open spec fn clipped(s: Seq<char>, n: nat) -> Seq<char> {
    if s.len() <= n {
        s
    } else {
        s.take(n as int) + "…"@
    }
}

pub fn clip(s: &str, n: usize) -> (r: String)
    ensures
        r@ == clipped(s@, n as nat),
{
    let v = chars_of(s);
    if v.len() <= n {
        owned(s)
    } else {
        let start = text_of(&v, 0, n);
        assert(v@.subrange(0, n as int) == s@.take(n as int));
        cat2(start.as_str(), "…")
    }
}

/// The number of bytes that UTF-8 takes for a character.
pub open spec fn width(c: char) -> nat {
    if (c as u32) < 0x80 {
        1
    } else if (c as u32) < 0x800 {
        2
    } else if (c as u32) < 0x1_0000 {
        3
    } else {
        4
    }
}

/// The number of bytes that UTF-8 takes for a text.
pub open spec fn byte_len(s: Seq<char>) -> nat
    decreases s.len(),
{
    if s.len() == 0 {
        0
    } else {
        width(s[0]) + byte_len(s.skip(1))
    }
}

/// How many characters of a text fit in `n` bytes.
pub open spec fn fitting(s: Seq<char>, n: nat) -> nat
    decreases s.len(),
{
    if s.len() == 0 || width(s[0]) > n {
        0
    } else {
        1 + fitting(s.skip(1), (n - width(s[0])) as nat)
    }
}

/// `s`, or where it takes more than `n` bytes the characters that fit in them and
/// a `…`.
pub open spec fn shortened(s: Seq<char>, n: nat) -> Seq<char> {
    if byte_len(s) <= n {
        s
    } else {
        s.take(fitting(s, n) as int) + "…"@
    }
}

pub fn shorten(s: &str, n: usize) -> (r: String)
    ensures
        r@ == shortened(s@, n as nat),
{
    let v = chars_of(s);
    let mut i: usize = 0;
    let mut left: usize = n;
    assert(v@.skip(0) == v@);
    while i < v.len()
        invariant
            v@ == s@,
            i <= v@.len(),
            left <= n,
            byte_len(s@) == n - left + byte_len(v@.skip(i as int)),
            fitting(s@, n as nat) == i + fitting(v@.skip(i as int), left as nat),
        decreases v@.len() - i,
    {
        let c = v[i];
        let w: usize = if (c as u32) < 0x80 {
            1
        } else if (c as u32) < 0x800 {
            2
        } else if (c as u32) < 0x1_0000 {
            3
        } else {
            4
        };
        proof {
            assert(v@.skip(i as int)[0] == c);
            assert(v@.skip(i as int).skip(1) == v@.skip(i + 1));
        }
        if w > left {
            let start = text_of(&v, 0, i);
            assert(v@.subrange(0, i as int) == s@.take(i as int));
            return cat2(start.as_str(), "…");
        }
        left = left - w;
        i = i + 1;
    }
    assert(byte_len(v@.skip(i as int)) == 0);
    owned(s)
}

// ---------------------------------------------------------------------------
// decimal numbers
// ---------------------------------------------------------------------------

/// The character of a decimal digit.
pub open spec fn digit(d: int) -> char {
    (48 + d) as char
}

/// The decimal digits of a number, without leading zeros.
pub open spec fn dec(n: nat) -> Seq<char>
    decreases n,
{
    if n < 10 {
        seq![digit(n as int)]
    } else {
        dec(n / 10).push(digit((n % 10) as int))
    }
}

/// A number as Rust prints it: its digits, after a `-` where it is negative.
pub open spec fn dec_int(n: int) -> Seq<char> {
    if n < 0 {
        "-"@ + dec((-n) as nat)
    } else {
        dec(n as nat)
    }
}

pub fn dec_u128(n: u128) -> (r: String)
    ensures
        r@ == dec(n as nat),
    decreases n,
{
    let d: u8 = (n % 10) as u8;
    let c: char = (48 + d) as char;
    if n < 10 {
        let mut out = String::new();
        out.push(c);
        assert(out@ == seq![digit(n as int)]);
        out
    } else {
        let mut out = dec_u128(n / 10);
        out.push(c);
        out
    }
}

pub fn dec_u64(n: u64) -> (r: String)
    ensures
        r@ == dec(n as nat),
{
    dec_u128(n as u128)
}

pub fn dec_i64(n: i64) -> (r: String)
    ensures
        r@ == dec_int(n as int),
{
    if n < 0 {
        let digits = dec_u128((-(n as i128)) as u128);
        cat2("-", digits.as_str())
    } else {
        dec_u128(n as u128)
    }
}

/// Zeros up to `width` characters, then `s`.
pub open spec fn zero_padded(s: Seq<char>, width: nat) -> Seq<char> {
    repeated("0"@, if width > s.len() { (width - s.len()) as nat } else { 0 }) + s
}

pub fn pad_zeros(s: &str, width: usize) -> (r: String)
    ensures
        r@ == zero_padded(s@, width as nat),
{
    let n = chars_of(s).len();
    let gap: usize = if width > n {
        width - n
    } else {
        0
    };
    let zeros = repeat("0", gap);
    cat2(zeros.as_str(), s)
}

/// The digits of `n`, after zeros up to two characters.
pub open spec fn dec2(n: nat) -> Seq<char> {
    if n < 10 {
        "0"@ + dec(n)
    } else {
        dec(n)
    }
}

pub fn dec2_u64(n: u64) -> (r: String)
    ensures
        r@ == dec2(n as nat),
{
    let digits = dec_u64(n);
    if n < 10 {
        cat2("0", digits.as_str())
    } else {
        digits
    }
}

pub open spec fn is_digit(c: char) -> bool {
    '0' <= c <= '9'
}

pub open spec fn all_digits(s: Seq<char>) -> bool {
    forall|i: int| 0 <= i < s.len() ==> is_digit(#[trigger] s[i])
}

/// The number that a sequence of decimal digits stands for.
pub open spec fn digits_value(s: Seq<char>) -> nat
    decreases s.len(),
{
    if s.len() == 0 {
        0
    } else {
        10 * digits_value(s.drop_last()) + (s.last() as u32 - 48) as nat
    }
}

/// The decimal digits that a text begins with.
pub open spec fn leading_digits(s: Seq<char>) -> Seq<char>
    decreases s.len(),
{
    if s.len() > 0 && is_digit(s[0]) {
        seq![s[0]] + leading_digits(s.skip(1))
    } else {
        Seq::empty()
    }
}

/// The number written as one or more decimal digits.
pub open spec fn parsed_nat(s: Seq<char>) -> Option<nat> {
    if s.len() > 0 && all_digits(s) {
        Some(digits_value(s))
    } else {
        None
    }
}

/// The number written as decimal digits, after a `+` or nothing, or, where
/// `signed`, after a `-`.
pub open spec fn parsed_int(s: Seq<char>, signed: bool) -> Option<int> {
    if s.len() > 0 && s[0] == '+' {
        match parsed_nat(s.skip(1)) {
            Some(n) => Some(n as int),
            None => None,
        }
    } else if s.len() > 0 && s[0] == '-' && signed {
        match parsed_nat(s.skip(1)) {
            Some(n) => Some(-(n as int)),
            None => None,
        }
    } else {
        match parsed_nat(s) {
            Some(n) => Some(n as int),
            None => None,
        }
    }
}

/// What `str::parse::<i64>` reads.
pub open spec fn parsed_i64(s: Seq<char>) -> Option<i64> {
    match parsed_int(s, true) {
        Some(n) => if i64::MIN <= n <= i64::MAX {
            Some(n as i64)
        } else {
            None
        },
        None => None,
    }
}

/// What the parsers of unsigned types read, up to `max`.
pub open spec fn parsed_unsigned(s: Seq<char>, max: int) -> Option<int> {
    match parsed_int(s, false) {
        Some(n) => if n <= max {
            Some(n)
        } else {
            None
        },
        None => None,
    }
}

/// Digits up to a character that is none, or up to the end, are the leading ones.
proof fn lemma_leading_digits(s: Seq<char>, n: int)
    requires
        0 <= n <= s.len(),
        all_digits(s.take(n)),
        n < s.len() ==> !is_digit(s[n]),
    ensures
        leading_digits(s) == s.take(n),
    decreases n,
{
    if n > 0 {
        let rest = s.skip(1);
        assert(s.take(n)[0] == s[0]);
        assert forall|k: int| 0 <= k < n - 1 implies is_digit(#[trigger] rest.take(n - 1)[k]) by {
            assert(rest.take(n - 1)[k] == s.take(n)[k + 1]);
        }
        lemma_leading_digits(rest, n - 1);
        assert(seq![s[0]] + rest.take(n - 1) == s.take(n));
    } else {
        assert(s.take(0) == Seq::<char>::empty());
    }
}

/// A number, or `u64::MAX + 1` where it is above `u64::MAX`.
spec fn capped(n: nat) -> int {
    if n <= u64::MAX {
        n as int
    } else {
        u64::MAX + 1
    }
}

/// The end of the digits that `v[from..]` begins with, and the number that they
/// stand for, capped.
fn read_digits(v: &Vec<char>, from: usize) -> (r: (usize, u128))
    requires
        from <= v@.len(),
    ensures
        from <= r.0 <= v@.len(),
        leading_digits(v@.skip(from as int)) == v@.skip(from as int).take(r.0 - from),
        all_digits(v@.skip(from as int)) <==> r.0 == v@.len(),
        r.1 == capped(digits_value(leading_digits(v@.skip(from as int)))),
{
    let ghost body = v@.skip(from as int);
    let mut acc: u128 = 0;
    let mut i: usize = from;
    assert(body.take(0).len() == 0);
    while i < v.len()
        invariant
            from <= i <= v@.len(),
            body == v@.skip(from as int),
            all_digits(body.take(i - from)),
            acc == capped(digits_value(body.take(i - from))),
        decreases v@.len() - i,
    {
        let c = v[i];
        assert(body[i - from] == c);
        if c < '0' || c > '9' {
            proof {
                assert(!is_digit(body[i - from]));
                lemma_leading_digits(body, i - from);
            }
            return (i, acc);
        }
        proof {
            let longer = body.take(i + 1 - from);
            assert(longer.drop_last() == body.take(i - from));
            assert(longer.last() == c);
            assert forall|k: int| 0 <= k < longer.len() implies is_digit(#[trigger] longer[k]) by {
                if k < i - from {
                    assert(longer[k] == body.take(i - from)[k]);
                }
            }
        }
        let d: u128 = (c as u32 - 48) as u128;
        acc = acc * 10 + d;
        if acc > u64::MAX as u128 {
            acc = u64::MAX as u128 + 1;
        }
        i = i + 1;
    }
    proof {
        assert(body.take(body.len() as int) == body);
        lemma_leading_digits(body, body.len() as int);
    }
    (i, acc)
}

/// Reads `v[from..]` as decimal digits; the number is capped.
fn parse_digits(v: &Vec<char>, from: usize) -> (r: Option<u128>)
    requires
        from <= v@.len(),
    ensures
        match parsed_nat(v@.skip(from as int)) {
            Some(n) => r == Some(capped(n) as u128),
            None => r is None,
        },
{
    let (end, n) = read_digits(v, from);
    assert(v@.skip(from as int).take(v@.len() - from) == v@.skip(from as int));
    if from < v.len() && end == v.len() {
        Some(n)
    } else {
        None
    }
}

/// Whether the digits that `v[from..]` begins with stand for more than `max`.
pub fn digits_exceed(v: &Vec<char>, from: usize, max: u64) -> (r: bool)
    requires
        from <= v@.len(),
    ensures
        r == (digits_value(leading_digits(v@.skip(from as int))) > max),
{
    let (_, n) = read_digits(v, from);
    n > max as u128
}

pub fn parse_i64(s: &str) -> (r: Option<i64>)
    ensures
        r == parsed_i64(s@),
{
    let v = chars_of(s);
    assert(v@.skip(0) == v@);
    if v.len() > 0 && v[0] == '-' {
        match parse_digits(&v, 1) {
            Some(n) => if n <= i64::MAX as u128 + 1 {
                Some((-(n as i128)) as i64)
            } else {
                None
            },
            None => None,
        }
    } else {
        let from: usize = if v.len() > 0 && v[0] == '+' {
            1
        } else {
            0
        };
        match parse_digits(&v, from) {
            Some(n) => if n <= i64::MAX as u128 {
                Some(n as i64)
            } else {
                None
            },
            None => None,
        }
    }
}

/// Reads an unsigned number of at most `max`.
pub fn parse_unsigned(s: &str, max: u64) -> (r: Option<u64>)
    ensures
        match parsed_unsigned(s@, max as int) {
            Some(n) => r == Some(n as u64),
            None => r is None,
        },
{
    let v = chars_of(s);
    assert(v@.skip(0) == v@);
    let from: usize = if v.len() > 0 && v[0] == '+' {
        1
    } else {
        0
    };
    match parse_digits(&v, from) {
        Some(n) => if n <= max as u128 {
            Some(n as u64)
        } else {
            None
        },
        None => None,
    }
}

/// Reading back the decimal digits of a number gives the number.
pub proof fn lemma_dec_reads_back(n: nat)
    ensures
        dec(n).len() > 0,
        all_digits(dec(n)),
        digits_value(dec(n)) == n,
    decreases n,
{
    if n < 10 {
        let s = dec(n);
        assert(digits_value(s.drop_last()) == 0);
        assert(s.last() as u32 == 48 + n);
    } else {
        lemma_dec_reads_back(n / 10);
        let s = dec(n);
        assert(s.drop_last() == dec(n / 10));
        assert(s.last() as u32 == 48 + n % 10);
        assert forall|i: int| 0 <= i < s.len() implies is_digit(#[trigger] s[i]) by {
            if i < s.len() - 1 {
                assert(s[i] == dec(n / 10)[i]);
            }
        }
    }
}

/// An `i64` printed and read again is the same number.
pub proof fn law_decimal_round_trip(n: i64)
    ensures
        parsed_i64(dec_int(n as int)) == Some(n),
{
    reveal_strlit("-");
    if n < 0 {
        let m = (-(n as int)) as nat;
        lemma_dec_reads_back(m);
        let s = dec_int(n as int);
        assert(s[0] == '-');
        assert(s.skip(1) == dec(m));
    } else {
        lemma_dec_reads_back(n as nat);
        let s = dec_int(n as int);
        assert(is_digit(s[0]));
    }
}

} // verus!
