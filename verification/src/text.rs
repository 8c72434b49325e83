//! Text primitives shared by the bridge: whitespace trimming, line
//! splitting, decimal rendering of integers and conversions between
//! strings and character vectors.
//!
//! Every routine is specified over `Seq<char>`, the view of `str` and
//! `String`.

use vstd::prelude::*;

verus! {

/// The views of a sequence of strings, in order.
pub open spec fn texts(v: Seq<String>) -> Seq<Seq<char>> {
    v.map_values(|s: String| s@)
}

/// The views of a sequence of character vectors, in order.
pub open spec fn char_rows(v: Seq<Vec<char>>) -> Seq<Seq<char>> {
    v.map_values(|row: Vec<char>| row@)
}

/// Unicode `White_Space` code points.
pub open spec fn is_whitespace(c: char) -> bool {
    let n = c as u32;
    ||| 0x09 <= n <= 0x0d
    ||| n == 0x20
    ||| n == 0x85
    ||| n == 0xa0
    ||| n == 0x1680
    ||| 0x2000 <= n <= 0x200a
    ||| n == 0x2028
    ||| n == 0x2029
    ||| n == 0x202f
    ||| n == 0x205f
    ||| n == 0x3000
}

/// `s` without its leading whitespace.
pub open spec fn skip_leading_whitespace(s: Seq<char>) -> Seq<char>
    decreases s.len(),
{
    if s.len() > 0 && is_whitespace(s.first()) {
        skip_leading_whitespace(s.drop_first())
    } else {
        s
    }
}

/// `s` without its trailing whitespace.
pub open spec fn drop_trailing_whitespace(s: Seq<char>) -> Seq<char>
    decreases s.len(),
{
    if s.len() > 0 && is_whitespace(s.last()) {
        drop_trailing_whitespace(s.drop_last())
    } else {
        s
    }
}

/// `s` without leading and trailing whitespace.
pub open spec fn trimmed(s: Seq<char>) -> Seq<char> {
    drop_trailing_whitespace(skip_leading_whitespace(s))
}

/// True when nothing but whitespace occurs in `s`.
pub open spec fn is_blank(s: Seq<char>) -> bool {
    trimmed(s).len() == 0
}

/// Index of the first line feed in `s`, or `s.len()` when there is none.
pub open spec fn first_newline(s: Seq<char>) -> int
    decreases s.len(),
{
    if s.len() == 0 || s.first() == '\n' {
        0
    } else {
        1 + first_newline(s.drop_first())
    }
}

/// `s` without one trailing carriage return, if it ends in one.
pub open spec fn strip_carriage_return(s: Seq<char>) -> Seq<char> {
    if s.len() > 0 && s.last() == '\r' {
        s.drop_last()
    } else {
        s
    }
}

/// The lines of `s`. A line ends at a line feed or at a carriage return
/// followed by a line feed; the terminator is not part of the line. The
/// last line needs no terminator, and a terminator at the very end opens
/// no further line.
pub open spec fn lines_of(s: Seq<char>) -> Seq<Seq<char>>
    decreases s.len(),
{
    if s.len() == 0 {
        Seq::empty()
    } else {
        let end = first_newline(s);
        if 0 <= end < s.len() {
            seq![strip_carriage_return(s.subrange(0, end))] + lines_of(
                s.subrange(end + 1, s.len() as int),
            )
        } else {
            seq![s]
        }
    }
}

/// The character for a decimal digit value.
pub open spec fn digit_char(d: nat) -> char {
    if d == 0 {
        '0'
    } else if d == 1 {
        '1'
    } else if d == 2 {
        '2'
    } else if d == 3 {
        '3'
    } else if d == 4 {
        '4'
    } else if d == 5 {
        '5'
    } else if d == 6 {
        '6'
    } else if d == 7 {
        '7'
    } else if d == 8 {
        '8'
    } else {
        '9'
    }
}

/// Decimal digits of `n`, most significant first, without leading zeros
/// and without grouping separators.
pub open spec fn nat_digits(n: nat) -> Seq<char>
    decreases n,
{
    if n < 10 {
        seq![digit_char(n)]
    } else {
        nat_digits(n / 10).push(digit_char(n % 10))
    }
}

/// Decimal text of `i`: a minus sign for negative numbers, then the
/// digits of the magnitude.
pub open spec fn int_digits(i: int) -> Seq<char> {
    if i < 0 {
        seq!['-'] + nat_digits((-i) as nat)
    } else {
        nat_digits(i as nat)
    }
}

/// Builds a `String` from characters with `String::from_iter`: the string
/// holds exactly the given characters in the given order.
#[verifier::external_body]
pub(crate) fn string_from_chars(chars: &Vec<char>) -> (s: String)
    ensures
        s@ == chars@,
{
    String::from_iter(chars.iter())
}

/// The characters of `s` as a vector.
pub fn chars_of(s: &str) -> (v: Vec<char>)
    ensures
        v@ == s@,
{
    let mut v: Vec<char> = Vec::new();
    for c in it: s.chars()
        invariant
            it.seq() == s@,
            v@ == s@.take(it.index() as int),
    {
        v.push(c);
    }
    v
}

/// Tests a character against the Unicode `White_Space` set.
pub fn whitespace(c: char) -> (b: bool)
    ensures
        b == is_whitespace(c),
{
    let n: u32 = c as u32;
    (0x09 <= n && n <= 0x0d) || n == 0x20 || n == 0x85 || n == 0xa0 || n == 0x1680 || (0x2000 <= n
        && n <= 0x200a) || n == 0x2028 || n == 0x2029 || n == 0x202f || n == 0x205f || n == 0x3000
}

/// Copies `chars[from..to]`.
pub(crate) fn copy_range(chars: &Vec<char>, from: usize, to: usize) -> (out: Vec<char>)
    requires
        from <= to <= chars.len(),
    ensures
        out@ == chars@.subrange(from as int, to as int),
{
    let mut out: Vec<char> = Vec::new();
    let mut i: usize = from;
    while i < to
        invariant
            from <= i <= to <= chars.len(),
            out@ == chars@.subrange(from as int, i as int),
        decreases to - i,
    {
        out.push(chars[i]);
        i += 1;
    }
    out
}

/// Appends all of `tail` to `out`.
pub fn push_all(out: &mut Vec<char>, tail: &Vec<char>)
    ensures
        final(out)@ == old(out)@ + tail@,
{
    let mut i: usize = 0;
    while i < tail.len()
        invariant
            i <= tail.len(),
            out@ == old(out)@ + tail@.subrange(0, i as int),
        decreases tail.len() - i,
    {
        out.push(tail[i]);
        i += 1;
    }
    assert(tail@.subrange(0, tail.len() as int) == tail@);
}

/// Bounds of `chars[from..to]` without its leading and trailing
/// whitespace.
pub(crate) fn trim_bounds(chars: &Vec<char>, from: usize, to: usize) -> (bounds: (usize, usize))
    requires
        from <= to <= chars.len(),
    ensures
        from <= bounds.0 <= bounds.1 <= to,
        chars@.subrange(bounds.0 as int, bounds.1 as int) == trimmed(
            chars@.subrange(from as int, to as int),
        ),
{
    let ghost s = chars@;
    let mut a: usize = from;
    while a < to && whitespace(chars[a])
        invariant
            from <= a <= to <= chars.len(),
            s == chars@,
            skip_leading_whitespace(s.subrange(from as int, to as int)) == skip_leading_whitespace(
                s.subrange(a as int, to as int),
            ),
        decreases to - a,
    {
        assert(s.subrange(a as int, to as int).drop_first() == s.subrange(a + 1, to as int));
        a += 1;
    }
    assert(skip_leading_whitespace(s.subrange(a as int, to as int)) == s.subrange(
        a as int,
        to as int,
    ));
    let mut b: usize = to;
    while b > a && whitespace(chars[b - 1])
        invariant
            a <= b <= to <= chars.len(),
            s == chars@,
            drop_trailing_whitespace(s.subrange(a as int, to as int)) == drop_trailing_whitespace(
                s.subrange(a as int, b as int),
            ),
        decreases b - a,
    {
        assert(s.subrange(a as int, b as int).drop_last() == s.subrange(a as int, b - 1));
        b -= 1;
    }
    assert(drop_trailing_whitespace(s.subrange(a as int, b as int)) == s.subrange(
        a as int,
        b as int,
    ));
    (a, b)
}

/// `chars` without leading and trailing whitespace.
pub fn trim_chars(chars: &Vec<char>) -> (out: Vec<char>)
    ensures
        out@ == trimmed(chars@),
{
    assert(chars@.subrange(0, chars.len() as int) == chars@);
    let (a, b) = trim_bounds(chars, 0, chars.len());
    copy_range(chars, a, b)
}

/// `text` without leading and trailing whitespace.
pub fn trim(text: &str) -> (out: String)
    ensures
        out@ == trimmed(text@),
{
    let chars = chars_of(text);
    let kept = trim_chars(&chars);
    string_from_chars(&kept)
}

/// Tells whether `text` holds nothing but whitespace.
pub fn blank(text: &str) -> (b: bool)
    ensures
        b == is_blank(text@),
{
    let chars = chars_of(text);
    assert(chars@.subrange(0, chars.len() as int) == chars@);
    let (a, b) = trim_bounds(&chars, 0, chars.len());
    a == b
}

/// `first_newline` is the index reached by scanning past characters that
/// are not line feeds.
pub proof fn lemma_first_newline(s: Seq<char>, k: int)
    requires
        0 <= k <= s.len(),
        forall|j: int| 0 <= j < k ==> s[j] != '\n',
        k == s.len() || s[k] == '\n',
    ensures
        first_newline(s) == k,
    decreases s.len(),
{
    if k > 0 {
        let rest = s.drop_first();
        assert forall|j: int| 0 <= j < k - 1 implies rest[j] != '\n' by {
            assert(rest[j] == s[j + 1]);
        }
        lemma_first_newline(rest, k - 1);
    }
}

/// The lines of `chars`, each as a vector of its own.
pub fn split_lines(chars: &Vec<char>) -> (rows: Vec<Vec<char>>)
    ensures
        char_rows(rows@) == lines_of(chars@),
{
    let ghost s = chars@;
    let n: usize = chars.len();
    let mut rows: Vec<Vec<char>> = Vec::new();
    let mut start: usize = 0;
    let mut i: usize = 0;
    assert(s.subrange(0, n as int) == s);
    assert(char_rows(rows@) == Seq::<Seq<char>>::empty());
    while i < n
        invariant
            start <= i <= n,
            n == chars.len(),
            s == chars@,
            forall|j: int| start <= j < i ==> s[j] != '\n',
            lines_of(s) == char_rows(rows@) + lines_of(s.subrange(start as int, n as int)),
        decreases n - i,
    {
        if chars[i] == '\n' {
            let ghost rest = s.subrange(start as int, n as int);
            proof {
                assert forall|j: int| 0 <= j < i - start implies rest[j] != '\n' by {
                    assert(rest[j] == s[start + j]);
                }
                lemma_first_newline(rest, i - start);
                assert(rest.subrange(0, i - start) == s.subrange(start as int, i as int));
                assert(rest.subrange(i - start + 1, rest.len() as int) == s.subrange(
                    i + 1,
                    n as int,
                ));
            }
            let end: usize = if i > start && chars[i - 1] == '\r' {
                i - 1
            } else {
                i
            };
            let row = copy_range(chars, start, end);
            proof {
                let line = s.subrange(start as int, i as int);
                if i > start && s[i - 1] == '\r' {
                    assert(line.drop_last() == s.subrange(start as int, i - 1));
                }
                assert(row@ == strip_carriage_return(line));
                assert(char_rows(rows@.push(row)) == char_rows(rows@).push(row@));
            }
            rows.push(row);
            start = i + 1;
        }
        i += 1;
    }
    if start < n {
        let ghost rest = s.subrange(start as int, n as int);
        proof {
            assert forall|j: int| 0 <= j < n - start implies rest[j] != '\n' by {
                assert(rest[j] == s[start + j]);
            }
            lemma_first_newline(rest, n - start);
        }
        let row = copy_range(chars, start, n);
        proof {
            assert(char_rows(rows@.push(row)) == char_rows(rows@).push(row@));
        }
        rows.push(row);
    }
    rows
}

/// Turns each row of characters into a string.
pub fn rows_to_strings(rows: &Vec<Vec<char>>) -> (out: Vec<String>)
    ensures
        texts(out@) == char_rows(rows@),
{
    let mut out: Vec<String> = Vec::new();
    let mut i: usize = 0;
    while i < rows.len()
        invariant
            i <= rows.len(),
            texts(out@) == char_rows(rows@).subrange(0, i as int),
        decreases rows.len() - i,
    {
        let line = string_from_chars(&rows[i]);
        proof {
            assert(texts(out@.push(line)) == texts(out@).push(line@));
        }
        out.push(line);
        i += 1;
    }
    assert(char_rows(rows@).subrange(0, rows.len() as int) == char_rows(rows@));
    out
}

/// The lines of `text`.
pub fn lines(text: &str) -> (out: Vec<String>)
    ensures
        texts(out@) == lines_of(text@),
{
    let chars = chars_of(text);
    let rows = split_lines(&chars);
    rows_to_strings(&rows)
}

/// The character of a digit value.
pub(crate) fn digit(d: u8) -> (c: char)
    requires
        d < 10,
    ensures
        c == digit_char(d as nat),
{
    if d == 0 {
        '0'
    } else if d == 1 {
        '1'
    } else if d == 2 {
        '2'
    } else if d == 3 {
        '3'
    } else if d == 4 {
        '4'
    } else if d == 5 {
        '5'
    } else if d == 6 {
        '6'
    } else if d == 7 {
        '7'
    } else if d == 8 {
        '8'
    } else {
        '9'
    }
}

/// Appends the decimal digits of `n` to `out`.
pub fn push_digits(out: &mut Vec<char>, n: u64)
    ensures
        final(out)@ == old(out)@ + nat_digits(n as nat),
    decreases n,
{
    if n >= 10 {
        push_digits(out, n / 10);
    }
    let d: u8 = (n % 10) as u8;
    out.push(digit(d));
    proof {
        if n >= 10 {
            assert(old(out)@ + nat_digits(n as nat) == (old(out)@ + nat_digits((n / 10) as nat)).push(
                digit_char((n % 10) as nat),
            ));
        } else {
            assert(old(out)@ + nat_digits(n as nat) == old(out)@.push(digit_char(n as nat)));
        }
    }
}

/// Decimal text of an unsigned number.
pub fn u64_text(n: u64) -> (out: String)
    ensures
        out@ == nat_digits(n as nat),
{
    let mut chars: Vec<char> = Vec::new();
    push_digits(&mut chars, n);
    assert(Seq::<char>::empty() + nat_digits(n as nat) == nat_digits(n as nat));
    string_from_chars(&chars)
}

/// Decimal text of an unsigned 32-bit number.
pub fn u32_text(n: u32) -> (out: String)
    ensures
        out@ == nat_digits(n as nat),
{
    u64_text(n as u64)
}

/// Decimal text of a signed number.
pub fn i64_text(n: i64) -> (out: String)
    ensures
        out@ == int_digits(n as int),
{
    let mut chars: Vec<char> = Vec::new();
    if n < 0 {
        chars.push('-');
        let magnitude: u64 = if n == i64::MIN {
            9223372036854775808u64
        } else {
            (-n) as u64
        };
        push_digits(&mut chars, magnitude);
        assert(chars@ == seq!['-'] + nat_digits((-n) as nat));
    } else {
        push_digits(&mut chars, n as u64);
        assert(Seq::<char>::empty() + nat_digits(n as nat) == nat_digits(n as nat));
    }
    string_from_chars(&chars)
}

/// `head` followed by `tail`.
pub fn join_text(head: &str, tail: &str) -> (out: String)
    ensures
        out@ == head@ + tail@,
{
    let mut chars = chars_of(head);
    let rest = chars_of(tail);
    push_all(&mut chars, &rest);
    string_from_chars(&chars)
}

/// Tells whether two texts hold the same characters.
pub fn same_text(left: &str, right: &str) -> (same: bool)
    ensures
        same == (left@ == right@),
{
    let a = chars_of(left);
    let b = chars_of(right);
    if a.len() != b.len() {
        return false;
    }
    let mut i: usize = 0;
    while i < a.len()
        invariant
            i <= a.len(),
            a.len() == b.len(),
            a@ == left@,
            b@ == right@,
            forall|j: int| 0 <= j < i ==> a@[j] == b@[j],
        decreases a.len() - i,
    {
        if a[i] != b[i] {
            return false;
        }
        i += 1;
    }
    assert(a@ =~= b@);
    true
}

} // verus!
