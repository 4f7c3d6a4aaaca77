//! Character-level text helpers shared by the library: conversion between
//! strings and character vectors, Unicode whitespace and trimming, and the
//! decimal rendering of integers.

use vstd::prelude::*;

verus! {

broadcast use vstd::string::group_string_axioms;

/// The characters of `s`, in order.
pub fn chars_of(s: &str) -> (v: Vec<char>)
    ensures
        v@ == s@,
{
    let mut v: Vec<char> = Vec::new();
    for c in it: s.chars()
        invariant
            v@ == it.seq().take(it.index() as int),
    {
        v.push(c);
    }
    v
}


/// A `String` holding exactly the characters of `chars`.
///
/// Calls std's `FromIterator<&char> for String`, which appends the
/// characters one after the other; the contract claims no more than that.
#[verifier::external_body]
pub(crate) fn string_from_chars(chars: &[char]) -> (s: String)
    ensures
        s@ == chars@,
{
    chars.iter().collect()
}

/// A `String` holding the characters of `s`.
pub fn to_owned_string(s: &str) -> (r: String)
    ensures
        r@ == s@,
{
    s.to_owned()
}

/// Appends the characters of `s` to `v`.
pub fn push_str_chars(v: &mut Vec<char>, s: &str)
    ensures
        final(v)@ == old(v)@ + s@,
{
    let cs = chars_of(s);
    let mut i: usize = 0;
    while i < cs.len()
        invariant
            0 <= i <= cs@.len(),
            cs@ == s@,
            v@ == old(v)@ + s@.take(i as int),
        decreases cs@.len() - i,
    {
        v.push(cs[i]);
        i = i + 1;
        assert(s@.take(i as int) =~= s@.take(i - 1) .push(cs@[i - 1]));
    }
    assert(s@.take(s@.len() as int) =~= s@);
}

/// Unicode `White_Space` property (the characters for which std's
/// `char::is_whitespace` is documented to return true).
pub open spec fn is_white_space(c: char) -> bool {
    let u = c as u32;
    ||| 0x09 <= u <= 0x0d
    ||| u == 0x20
    ||| u == 0x85
    ||| u == 0xa0
    ||| u == 0x1680
    ||| 0x2000 <= u <= 0x200a
    ||| u == 0x2028
    ||| u == 0x2029
    ||| u == 0x202f
    ||| u == 0x205f
    ||| u == 0x3000
}

/// Whether `c` has the Unicode `White_Space` property.
pub fn is_whitespace_char(c: char) -> (b: bool)
    ensures
        b == is_white_space(c),
{
    let u = c as u32;
    (0x09 <= u && u <= 0x0d) || u == 0x20 || u == 0x85 || u == 0xa0 || u == 0x1680 || (0x2000
        <= u && u <= 0x200a) || u == 0x2028 || u == 0x2029 || u == 0x202f || u == 0x205f || u
        == 0x3000
}

/// `s` without its leading whitespace.
pub open spec fn trim_start_spec(s: Seq<char>) -> Seq<char>
    decreases s.len(),
{
    if s.len() > 0 && is_white_space(s[0]) {
        trim_start_spec(s.drop_first())
    } else {
        s
    }
}

/// `s` without its trailing whitespace.
pub open spec fn trim_end_spec(s: Seq<char>) -> Seq<char>
    decreases s.len(),
{
    if s.len() > 0 && is_white_space(s.last()) {
        trim_end_spec(s.drop_last())
    } else {
        s
    }
}

/// `s` without leading and trailing whitespace, as std's `str::trim` gives it.
pub open spec fn trim_spec(s: Seq<char>) -> Seq<char> {
    trim_end_spec(trim_start_spec(s))
}

/// Dropping leading whitespace leaves nothing, or a first character that is
/// not whitespace.
proof fn lemma_trim_start_shape(s: Seq<char>)
    ensures
        trim_start_spec(s).len() > 0 ==> !is_white_space(trim_start_spec(s)[0]),
        trim_start_spec(s).len() <= s.len(),
    decreases s.len(),
{
    if s.len() > 0 && is_white_space(s[0]) {
        lemma_trim_start_shape(s.drop_first());
    }
}

/// Dropping trailing whitespace keeps a prefix, which is empty or ends in a
/// character that is not whitespace.
proof fn lemma_trim_end_shape(s: Seq<char>)
    ensures
        trim_end_spec(s).len() <= s.len(),
        trim_end_spec(s) == s.take(trim_end_spec(s).len() as int),
        trim_end_spec(s).len() > 0 ==> !is_white_space(trim_end_spec(s).last()),
    decreases s.len(),
{
    if s.len() > 0 && is_white_space(s.last()) {
        lemma_trim_end_shape(s.drop_last());
        assert(s.drop_last().take(trim_end_spec(s).len() as int) =~= s.take(
            trim_end_spec(s).len() as int,
        ));
    } else {
        assert(s.take(s.len() as int) =~= s);
    }
}

/// A trimmed text is empty, or starts and ends with a character that is not
/// whitespace.
pub proof fn lemma_trim_shape(s: Seq<char>)
    ensures
        trim_spec(s).len() > 0 ==> !is_white_space(trim_spec(s)[0]) && !is_white_space(
            trim_spec(s).last(),
        ),
{
    let a = trim_start_spec(s);
    lemma_trim_start_shape(s);
    lemma_trim_end_shape(a);
    if trim_spec(s).len() > 0 {
        assert(trim_spec(s)[0] == a[0]);
    }
}

/// Trimming a trimmed text changes nothing.
pub proof fn lemma_trim_idempotent(s: Seq<char>)
    ensures
        trim_spec(trim_spec(s)) == trim_spec(s),
{
    let t = trim_spec(s);
    lemma_trim_shape(s);
    assert(trim_start_spec(t) == t);
    assert(trim_end_spec(t) == t);
}

/// The index of the first character of `cs` at or after `from` that is not
/// whitespace, or `cs.len()` when there is none.
fn skip_whitespace_forward(cs: &Vec<char>, from: usize) -> (k: usize)
    requires
        from <= cs@.len(),
    ensures
        from <= k <= cs@.len(),
        trim_start_spec(cs@.skip(from as int)) == cs@.skip(k as int),
    decreases cs@.len() - from,
{
    if from < cs.len() && is_whitespace_char(cs[from]) {
        assert(cs@.skip(from as int).drop_first() =~= cs@.skip(from + 1));
        skip_whitespace_forward(cs, from + 1)
    } else {
        at_non_whitespace(cs, from)
    }
}

/// `from` itself, when `cs[from]` is not whitespace (or `from` is the end).
fn at_non_whitespace(cs: &Vec<char>, from: usize) -> (k: usize)
    requires
        from <= cs@.len(),
        from < cs@.len() ==> !is_white_space(cs@[from as int]),
    ensures
        k == from,
        trim_start_spec(cs@.skip(from as int)) == cs@.skip(k as int),
{
    if from < cs.len() {
        assert(cs@.skip(from as int)[0] == cs@[from as int]);
    }
    from
}

/// The end (exclusive) of `cs.take(to)` once its trailing whitespace is dropped.
fn skip_whitespace_backward(cs: &Vec<char>, lo: usize, to: usize) -> (k: usize)
    requires
        lo <= to <= cs@.len(),
    ensures
        lo <= k <= to,
        trim_end_spec(cs@.subrange(lo as int, to as int)) == cs@.subrange(lo as int, k as int),
    decreases to,
{
    if lo < to && is_whitespace_char(cs[to - 1]) {
        assert(cs@.subrange(lo as int, to as int).drop_last() =~= cs@.subrange(
            lo as int,
            to - 1,
        ));
        skip_whitespace_backward(cs, lo, to - 1)
    } else {
        to
    }
}

/// The characters of `s` without leading and trailing whitespace.
pub fn trim_chars(s: &str) -> (t: Vec<char>)
    ensures
        t@ == trim_spec(s@),
{
    let cs = chars_of(s);
    trim_vec(&cs)
}

/// `cs` without leading and trailing whitespace.
pub fn trim_vec(cs: &Vec<char>) -> (t: Vec<char>)
    ensures
        t@ == trim_spec(cs@),
{
    assert(cs@.skip(0) =~= cs@);
    let lo = skip_whitespace_forward(cs, 0);
    assert(cs@.skip(lo as int) =~= cs@.subrange(lo as int, cs@.len() as int));
    let hi = skip_whitespace_backward(cs, lo, cs.len());
    let mut t: Vec<char> = Vec::new();
    let mut i = lo;
    while i < hi
        invariant
            lo <= i <= hi <= cs@.len(),
            t@ == cs@.subrange(lo as int, i as int),
        decreases hi - i,
    {
        t.push(cs[i]);
        i = i + 1;
        assert(t@ =~= cs@.subrange(lo as int, i as int));
    }
    t
}

/// The position of the first `c` in `s`, or its length when there is none.
pub open spec fn char_pos(s: Seq<char>, c: char) -> nat
    decreases s.len(),
{
    if s.len() == 0 {
        0
    } else if s[0] == c {
        0
    } else {
        1 + char_pos(s.drop_first(), c)
    }
}

/// The position of the first `c` in `cs`, or its length when there is none.
pub fn find_char(cs: &Vec<char>, c: char) -> (k: usize)
    ensures
        k == char_pos(cs@, c),
        k <= cs@.len(),
{
    let mut k: usize = 0;
    assert(cs@.skip(0) =~= cs@);
    while k < cs.len() && cs[k] != c
        invariant
            0 <= k <= cs@.len(),
            char_pos(cs@, c) == k + char_pos(cs@.skip(k as int), c),
        decreases cs@.len() - k,
    {
        proof {
            assert(cs@.skip(k as int).drop_first() =~= cs@.skip(k + 1));
        }
        k = k + 1;
    }
    proof {
        if k < cs.len() {
            assert(cs@.skip(k as int)[0] == c);
        } else {
            assert(cs@.skip(k as int).len() == 0);
        }
    }
    k
}

/// The ASCII digit for `d` (0..=9).
pub open spec fn digit_char(d: int) -> char {
    ((d + 48) as u8) as char
}

/// The digit for `d` in bases up to 36: '0'..='9', then 'a'..='z'.
pub open spec fn alnum_digit(d: int) -> char {
    if d < 10 {
        digit_char(d)
    } else {
        ((d - 10 + 97) as u8) as char
    }
}

/// Decimal rendering of a natural number, most significant digit first,
/// without leading zeros ("0" for zero).
pub open spec fn nat_to_decimal(n: nat) -> Seq<char>
    decreases n,
{
    if n < 10 {
        seq![digit_char(n as int)]
    } else {
        nat_to_decimal(n / 10).push(digit_char((n % 10) as int))
    }
}

/// Decimal rendering of an integer, with a leading '-' when negative, as
/// std's `Display` for integers writes it.
pub open spec fn int_to_decimal(i: int) -> Seq<char> {
    if i < 0 {
        seq!['-'] + nat_to_decimal((-i) as nat)
    } else {
        nat_to_decimal(i as nat)
    }
}

/// Appends the decimal digits of `n` to `v`.
pub fn push_u64_decimal(v: &mut Vec<char>, n: u64)
    ensures
        final(v)@ == old(v)@ + nat_to_decimal(n as nat),
    decreases n,
{
    if n < 10 {
        v.push(((n as u8) + 48) as char);
        assert(final(v)@ =~= old(v)@ + nat_to_decimal(n as nat));
    } else {
        push_u64_decimal(v, n / 10);
        v.push((((n % 10) as u8) + 48) as char);
        assert(v@ =~= old(v)@ + nat_to_decimal(n as nat));
    }
}

/// Appends the decimal rendering of `i` (with '-' when negative) to `v`.
pub fn push_i64_decimal(v: &mut Vec<char>, i: i64)
    ensures
        final(v)@ == old(v)@ + int_to_decimal(i as int),
{
    if i < 0 {
        v.push('-');
        let m: u64 = if i == i64::MIN {
            9223372036854775808u64
        } else {
            (-i) as u64
        };
        push_u64_decimal(v, m);
        assert(v@ =~= old(v)@ + int_to_decimal(i as int));
    } else {
        push_u64_decimal(v, i as u64);
    }
}


/// The characters of an optional owned string.
pub open spec fn opt_string_view(o: Option<String>) -> Option<Seq<char>> {
    match o {
        Some(s) => Some(s@),
        None => None,
    }
}

/// The characters of an optional borrowed string.
pub open spec fn opt_str_view(o: Option<&str>) -> Option<Seq<char>> {
    match o {
        Some(s) => Some(s@),
        None => None,
    }
}


/// The position of the first '\n' in `s`, or its length when there is none.
pub open spec fn newline_pos(s: Seq<char>) -> nat
    decreases s.len(),
{
    if s.len() == 0 {
        0
    } else if s[0] == '\n' {
        0
    } else {
        1 + newline_pos(s.drop_first())
    }
}

/// `line` without one trailing '\r'.
pub open spec fn strip_cr(line: Seq<char>) -> Seq<char> {
    if line.len() > 0 && line.last() == '\r' {
        line.drop_last()
    } else {
        line
    }
}

/// The lines of `s`, as std's `str::lines` yields them: split at each '\n',
/// a '\r' right before it dropped, and no empty line after a final '\n'.
pub open spec fn lines_spec(s: Seq<char>) -> Seq<Seq<char>>
    decreases s.len(),
{
    if s.len() == 0 {
        Seq::empty()
    } else {
        let k = newline_pos(s);
        if k >= s.len() {
            seq![s]
        } else {
            seq![strip_cr(s.take(k as int))] + lines_spec(s.skip(k as int + 1))
        }
    }
}

proof fn lemma_newline_pos(s: Seq<char>)
    ensures
        newline_pos(s) <= s.len(),
        forall|j: int| 0 <= j < newline_pos(s) ==> s[j] != '\n',
        newline_pos(s) < s.len() ==> s[newline_pos(s) as int] == '\n',
    decreases s.len(),
{
    if s.len() > 0 && s[0] != '\n' {
        lemma_newline_pos(s.drop_first());
        assert forall|j: int| 0 <= j < newline_pos(s) implies s[j] != '\n' by {
            if j > 0 {
                assert(s[j] == s.drop_first()[j - 1]);
            }
        }
    }
}

proof fn lemma_newline_pos_at(s: Seq<char>, k: int)
    requires
        0 <= k <= s.len(),
        forall|j: int| 0 <= j < k ==> s[j] != '\n',
        k < s.len() ==> s[k] == '\n',
    ensures
        newline_pos(s) == k,
{
    lemma_newline_pos(s);
    if newline_pos(s) < k {
        assert(s[newline_pos(s) as int] == '\n');
    } else if newline_pos(s) > k {
        assert(s[k] != '\n');
    }
}

/// The bounds `(start, end)` of each line of `cs` (see [`lines_spec`]).
pub fn line_bounds(cs: &Vec<char>) -> (r: Vec<(usize, usize)>)
    ensures
        r@.len() == lines_spec(cs@).len(),
        forall|i: int|
            0 <= i < r@.len() ==> {
                &&& (#[trigger] r@[i]).0 <= r@[i].1 <= cs@.len()
                &&& cs@.subrange(r@[i].0 as int, r@[i].1 as int) == lines_spec(cs@)[i]
            },
{
    let mut r: Vec<(usize, usize)> = Vec::new();
    let mut start: usize = 0;
    let ghost s = cs@;
    assert(s.skip(0) =~= s);
    assert(lines_spec_done(s, r@) =~= Seq::<Seq<char>>::empty());
    while start < cs.len()
        invariant
            s == cs@,
            0 <= start <= s.len(),
            lines_spec(s) == lines_spec_done(s, r@) + lines_spec(s.skip(start as int)),
            forall|i: int|
                0 <= i < r@.len() ==> {
                    &&& (#[trigger] r@[i]).0 <= r@[i].1 <= start
                },
        decreases s.len() - start,
    {
        let mut k: usize = start;
        while k < cs.len() && cs[k] != '\n'
            invariant
                s == cs@,
                start <= k <= s.len(),
                forall|j: int| start <= j < k ==> s[j] != '\n',
            decreases s.len() - k,
        {
            k = k + 1;
        }
        let ghost rest = s.skip(start as int);
        proof {
            lemma_newline_pos_at(rest, k - start);
            assert(rest.len() > 0);
        }
        let end = if k > start && cs[k - 1] == '\r' && k < cs.len() {
            k - 1
        } else {
            k
        };
        let ghost old_r = r@;
        r.push((start, end));
        proof {
            if k >= cs.len() {
                assert(rest.take((k - start) as int) =~= rest);
                assert(lines_spec(rest) == seq![rest]);
                assert(s.subrange(start as int, end as int) =~= rest);
                assert(s.skip(k as int) =~= Seq::<char>::empty());
            } else {
                assert(rest.take((k - start) as int) =~= s.subrange(start as int, k as int));
                assert(rest.skip((k - start) + 1) =~= s.skip(k + 1));
                assert(strip_cr(s.subrange(start as int, k as int)) =~= s.subrange(
                    start as int,
                    end as int,
                ));
            }
            lemma_lines_spec_done_push(s, old_r, (start, end));
        }
        start = if k < cs.len() {
            k + 1
        } else {
            k
        };
        proof {
            if k >= cs.len() {
                assert(lines_spec(s.skip(start as int)) =~= Seq::<Seq<char>>::empty());
            }
        }
    }
    proof {
        assert(s.skip(start as int) =~= Seq::<char>::empty());
        assert(lines_spec(s) =~= lines_spec_done(s, r@));
    }
    r
}

/// The pieces of `s` that the bounds `b` delimit.
pub open spec fn lines_spec_done(s: Seq<char>, b: Seq<(usize, usize)>) -> Seq<Seq<char>> {
    b.map_values(|p: (usize, usize)| s.subrange(p.0 as int, p.1 as int))
}

proof fn lemma_lines_spec_done_push(s: Seq<char>, b: Seq<(usize, usize)>, p: (usize, usize))
    ensures
        lines_spec_done(s, b.push(p)) == lines_spec_done(s, b).push(s.subrange(p.0 as int, p.1 as int)),
{
    assert(lines_spec_done(s, b.push(p)) =~= lines_spec_done(s, b).push(s.subrange(p.0 as int, p.1 as int)));
}


/// Whether `p` occurs in `s` starting at position `i`.
pub open spec fn occurs_at(s: Seq<char>, p: Seq<char>, i: int) -> bool {
    0 <= i && i + p.len() <= s.len() && s.subrange(i, i + p.len()) == p
}

/// Whether `p` occurs somewhere in `s` (the empty pattern occurs in every
/// string), as std's `str::contains` with a string pattern tells.
pub open spec fn has_substring(s: Seq<char>, p: Seq<char>) -> bool {
    exists|i: int| occurs_at(s, p, i)
}

/// Whether `pattern` occurs in `s`.
pub fn contains_str(s: &str, pattern: &str) -> (b: bool)
    ensures
        b == has_substring(s@, pattern@),
{
    let x = chars_of(s);
    let p = chars_of(pattern);
    if p.len() > x.len() {
        assert forall|i: int| !occurs_at(s@, pattern@, i) by {}
        return false;
    }
    let mut i: usize = 0;
    while i <= x.len() - p.len()
        invariant
            x@ == s@,
            p@ == pattern@,
            p@.len() <= x@.len(),
            0 <= i <= x@.len() - p@.len() + 1,
            forall|j: int| 0 <= j < i ==> !occurs_at(s@, pattern@, j),
        decreases x@.len() - i,
    {
        let mut k: usize = 0;
        while k < p.len() && x[i + k] == p[k]
            invariant
                x@ == s@,
                p@ == pattern@,
                i + p@.len() <= x@.len(),
                x@.len() <= usize::MAX,
                0 <= k <= p@.len(),
                forall|j: int| 0 <= j < k ==> x@[i + j] == p@[j],
            decreases p@.len() - k,
        {
            k = k + 1;
        }
        if k == p.len() {
            assert(s@.subrange(i as int, i + p@.len()) =~= pattern@);
            assert(occurs_at(s@, pattern@, i as int));
            return true;
        }
        assert(s@.subrange(i as int, i + p@.len())[k as int] != pattern@[k as int]);
        i = i + 1;
    }
    true_if_none(s, pattern, i)
}

fn true_if_none(s: &str, pattern: &str, i: usize) -> (b: bool)
    requires
        i + pattern@.len() > s@.len(),
        pattern@.len() <= s@.len(),
        forall|j: int| 0 <= j < i ==> !occurs_at(s@, pattern@, j),
    ensures
        !b,
        b == has_substring(s@, pattern@),
{
    false
}

} // verus!
