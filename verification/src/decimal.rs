//! Numbers as they travel on a command line. A decimal number is a
//! sign, the digits before the point and the digits after it; its text
//! has no exponent, no grouping separators and does not depend on a
//! locale. Beside the decimal numbers stand the three values of a
//! floating-point number that have no digits: the two infinities and
//! "not a number".

use crate::text::{chars_of, digit, digit_char, nat_digits, same_text, string_from_chars};
use vstd::prelude::*;

verus! {

/// A decimal number held digit by digit, most significant digit first.
#[derive(Debug, Clone, PartialEq, Eq)]
pub struct Decimal {
    pub negative: bool,
    pub whole: Vec<u8>,
    pub fraction: Vec<u8>,
}

/// True when every element is a digit value.
pub open spec fn digit_values(d: Seq<u8>) -> bool {
    forall|i: int| 0 <= i < d.len() ==> d[i] < 10
}

/// True when every element is zero.
pub open spec fn all_zero(d: Seq<u8>) -> bool {
    forall|i: int| 0 <= i < d.len() ==> d[i] == 0
}

/// The characters of a run of digit values.
pub open spec fn digits_text(d: Seq<u8>) -> Seq<char> {
    d.map_values(|v: u8| digit_char(v as nat))
}

/// The text of a decimal number: `-` when negative, the whole digits and,
/// when there are fraction digits, a point followed by them.
pub open spec fn decimal_text(negative: bool, whole: Seq<u8>, fraction: Seq<u8>) -> Seq<char> {
    let sign = if negative {
        seq!['-']
    } else {
        Seq::<char>::empty()
    };
    let tail = if fraction.len() > 0 {
        seq!['.'] + digits_text(fraction)
    } else {
        Seq::<char>::empty()
    };
    sign + digits_text(whole) + tail
}

/// True for the characters `0` to `9`.
pub open spec fn is_digit(c: char) -> bool {
    '0' <= c <= '9'
}

/// The value of a digit character.
pub open spec fn digit_value(c: char) -> u8 {
    (c as u32 - '0' as u32) as u8
}

/// True when `s` holds digits only.
pub open spec fn all_digits(s: Seq<char>) -> bool {
    forall|i: int| 0 <= i < s.len() ==> is_digit(s[i])
}

/// The digit values of a run of digit characters.
pub open spec fn digit_values_of(s: Seq<char>) -> Seq<u8> {
    s.map_values(|c: char| digit_value(c))
}

/// Index of the first point in `s`, or `s.len()` when there is none.
pub open spec fn first_point(s: Seq<char>) -> int
    decreases s.len(),
{
    if s.len() == 0 || s.first() == '.' {
        0
    } else {
        1 + first_point(s.drop_first())
    }
}

/// `s` without a leading minus sign.
pub open spec fn unsigned_part(s: Seq<char>) -> Seq<char> {
    if s.len() > 0 && s.first() == '-' {
        s.drop_first()
    } else {
        s
    }
}

/// The shape of a decimal number's text: an optional `-`, at least one
/// digit and, optionally, a point followed by at least one digit.
pub open spec fn is_decimal_text(s: Seq<char>) -> bool {
    let body = unsigned_part(s);
    let point = first_point(body);
    &&& 0 < point <= body.len()
    &&& all_digits(body.subrange(0, point))
    &&& point == body.len() || (point + 1 < body.len() && all_digits(
        body.subrange(point + 1, body.len() as int),
    ))
}

/// The number that a text of decimal shape denotes.
pub open spec fn decimal_of_text(s: Seq<char>) -> (bool, Seq<u8>, Seq<u8>) {
    let body = unsigned_part(s);
    let point = first_point(body);
    (
        s.len() > 0 && s.first() == '-',
        digit_values_of(body.subrange(0, point)),
        if point < body.len() {
            digit_values_of(body.subrange(point + 1, body.len() as int))
        } else {
            Seq::<u8>::empty()
        },
    )
}

impl Decimal {
    /// At least one whole digit, and digit values only.
    pub open spec fn well_formed(&self) -> bool {
        &&& self.whole@.len() > 0
        &&& digit_values(self.whole@)
        &&& digit_values(self.fraction@)
    }

    /// The text of the number.
    pub open spec fn text(&self) -> Seq<char> {
        decimal_text(self.negative, self.whole@, self.fraction@)
    }

    /// True when the number is zero, whatever its sign.
    pub open spec fn is_zero(&self) -> bool {
        all_zero(self.whole@) && all_zero(self.fraction@)
    }

    /// True when the number is greater than zero.
    pub open spec fn is_positive(&self) -> bool {
        !self.negative && !self.is_zero()
    }

    /// The whole number `n`.
    pub fn from_u64(n: u64) -> (d: Decimal)
        ensures
            d.well_formed(),
            !d.negative,
            d.fraction@.len() == 0,
            d.whole@ == nat_digit_values(n as nat),
            d.text() == nat_digits(n as nat),
            d.is_zero() <==> n == 0,
    {
        let mut whole: Vec<u8> = Vec::new();
        push_digit_values(&mut whole, n);
        proof {
            lemma_digit_values_of_nat(n as nat);
            assert(whole@ == nat_digit_values(n as nat));
            assert(Seq::<char>::empty() + digits_text(whole@) + Seq::<char>::empty()
                == digits_text(whole@));
        }
        Decimal { negative: false, whole, fraction: Vec::new() }
    }

    /// Reads a number from its text. Succeeds exactly on texts of decimal
    /// shape, and the number read renders back to the same text.
    pub fn parse(text: &str) -> (r: Option<Decimal>)
        ensures
            r is Some <==> is_decimal_text(text@),
            r matches Some(d) ==> {
                &&& d.well_formed()
                &&& d.text() == text@
                &&& (d.negative, d.whole@, d.fraction@) == decimal_of_text(text@)
            },
    {
        let chars = chars_of(text);
        let ghost s = chars@;
        let n: usize = chars.len();
        let negative: bool = n > 0 && chars[0] == '-';
        let from: usize = if negative {
            1
        } else {
            0
        };
        let ghost body = unsigned_part(s);
        assert(body == s.subrange(from as int, n as int));
        let mut whole: Vec<u8> = Vec::new();
        let mut i: usize = from;
        while i < n && chars[i] != '.'
            invariant
                from <= i <= n,
                n == chars.len(),
                s == chars@,
                s == text@,
                body == unsigned_part(s),
                body == s.subrange(from as int, n as int),
                forall|j: int| from <= j < i ==> s[j] != '.' && is_digit(s[j]),
                whole@ == digit_values_of(s.subrange(from as int, i as int)),
                digit_values(whole@),
            decreases n - i,
        {
            let c: char = chars[i];
            if !('0' <= c && c <= '9') {
                proof {
                    assert forall|j: int| 0 <= j <= i - from implies body[j] != '.' by {
                        assert(body[j] == s[from + j]);
                    }
                    lemma_point_not_before(body, i - from);
                    let point = first_point(body);
                    assert(body.subrange(0, point)[i - from] == c);
                }
                return None;
            }
            let v: u8 = (c as u32 - '0' as u32) as u8;
            proof {
                assert(s.subrange(from as int, i + 1) == s.subrange(from as int, i as int).push(c));
                assert(digit_values_of(s.subrange(from as int, i + 1)) == whole@.push(v));
            }
            whole.push(v);
            i += 1;
        }
        let point: usize = i;
        proof {
            assert forall|j: int| 0 <= j < point - from implies body[j] != '.' by {
                assert(body[j] == s[from + j]);
            }
            lemma_first_point(body, point - from);
            assert(body.subrange(0, point - from) == s.subrange(from as int, point as int));
        }
        if point == from {
            return None;
        }
        let mut fraction: Vec<u8> = Vec::new();
        if point < n {
            if point + 1 == n {
                return None;
            }
            let mut k: usize = point + 1;
            while k < n
                invariant
                    from < point,
                    point + 1 <= k <= n,
                    n == chars.len(),
                    s == chars@,
                    s == text@,
                    body == unsigned_part(s),
                    body == s.subrange(from as int, n as int),
                    first_point(body) == point - from,
                    forall|j: int| point + 1 <= j < k ==> is_digit(s[j]),
                    fraction@ == digit_values_of(s.subrange(point + 1, k as int)),
                    digit_values(fraction@),
                decreases n - k,
            {
                let c: char = chars[k];
                if !('0' <= c && c <= '9') {
                    proof {
                        let rest = body.subrange(point - from + 1, body.len() as int);
                        assert(rest[k - point - 1] == c);
                    }
                    return None;
                }
                let v: u8 = (c as u32 - '0' as u32) as u8;
                proof {
                    assert(s.subrange(point + 1, k + 1) == s.subrange(point + 1, k as int).push(c));
                    assert(digit_values_of(s.subrange(point + 1, k + 1)) == fraction@.push(v));
                }
                fraction.push(v);
                k += 1;
            }
            proof {
                assert(body.subrange(point - from + 1, body.len() as int) == s.subrange(
                    point + 1,
                    n as int,
                ));
            }
        }
        let d = Decimal { negative, whole, fraction };
        proof {
            let w = s.subrange(from as int, point as int);
            assert(all_digits(w));
            lemma_digits_round_trip(w);
            if point < n {
                let f = s.subrange(point + 1, n as int);
                assert(all_digits(f));
                lemma_digits_round_trip(f);
                assert(body == w + seq!['.'] + f);
            } else {
                assert(body == w + Seq::<char>::empty());
            }
            if negative {
                assert(s == seq!['-'] + body);
            }
            assert(d.text() == s);
        }
        Some(d)
    }

    /// Renders the number as text.
    pub fn render(&self) -> (out: String)
        ensures
            out@ == self.text(),
    {
        let mut chars: Vec<char> = Vec::new();
        if self.negative {
            chars.push('-');
        }
        push_digit_chars(&mut chars, &self.whole);
        if self.fraction.len() > 0 {
            chars.push('.');
            push_digit_chars(&mut chars, &self.fraction);
        }
        assert(chars@ == self.text());
        string_from_chars(&chars)
    }

    /// Tells whether the number is greater than zero.
    pub fn positive(&self) -> (b: bool)
        ensures
            b == self.is_positive(),
    {
        !self.negative && !(zeros_only(&self.whole) && zeros_only(&self.fraction))
    }
}

/// A number of an operation: a decimal number, an infinity, or the value
/// that is not a number.
#[derive(Debug, Clone, PartialEq, Eq)]
pub enum Number {
    Finite(Decimal),
    Infinite { negative: bool },
    NotANumber,
}

/// The texts of the numbers that have no digits.
pub open spec fn is_special_text(s: Seq<char>) -> bool {
    s == "NaN"@ || s == "inf"@ || s == "-inf"@
}

impl Number {
    /// A decimal number is well-formed; the other values always are.
    pub open spec fn well_formed(&self) -> bool {
        self matches Number::Finite(d) ==> d.well_formed()
    }

    /// The text of the number: that of the decimal number, `inf`, `-inf`
    /// or `NaN`.
    pub open spec fn text(&self) -> Seq<char> {
        match self {
            Number::Finite(d) => d.text(),
            Number::Infinite { negative } => if *negative {
                "-inf"@
            } else {
                "inf"@
            },
            Number::NotANumber => "NaN"@,
        }
    }

    /// True when the number is a decimal zero, whatever its sign.
    pub open spec fn is_zero(&self) -> bool {
        self matches Number::Finite(d) && d.is_zero()
    }

    /// True when the number is greater than zero. What is not a number
    /// is not greater than anything.
    pub open spec fn is_positive(&self) -> bool {
        match self {
            Number::Finite(d) => d.is_positive(),
            Number::Infinite { negative } => !*negative,
            Number::NotANumber => false,
        }
    }

    /// Reads a number from its text: `NaN`, `inf`, `-inf`, or a text of
    /// decimal shape. The number read renders back to the same text.
    pub fn parse(text: &str) -> (r: Option<Number>)
        ensures
            r is Some <==> is_special_text(text@) || is_decimal_text(text@),
            r matches Some(n) ==> n.well_formed() && n.text() == text@,
            text@ == "NaN"@ ==> r == Some(Number::NotANumber),
            text@ == "inf"@ ==> r == Some(Number::Infinite { negative: false }),
            text@ == "-inf"@ ==> r == Some(Number::Infinite { negative: true }),
            !is_special_text(text@) ==> match r {
                Some(n) => n matches Number::Finite(d) && (d.negative, d.whole@, d.fraction@)
                    == decimal_of_text(text@),
                None => !is_decimal_text(text@),
            },
    {
        proof {
            reveal_strlit("NaN");
            reveal_strlit("inf");
            reveal_strlit("-inf");
            assert("NaN"@[0] != "inf"@[0]);
            assert("NaN"@.len() != "-inf"@.len());
            assert("inf"@.len() != "-inf"@.len());
        }
        if same_text(text, "NaN") {
            Some(Number::NotANumber)
        } else if same_text(text, "inf") {
            Some(Number::Infinite { negative: false })
        } else if same_text(text, "-inf") {
            Some(Number::Infinite { negative: true })
        } else {
            match Decimal::parse(text) {
                Some(d) => Some(Number::Finite(d)),
                None => None,
            }
        }
    }

    /// Renders the number as text.
    pub fn render(&self) -> (out: String)
        ensures
            out@ == self.text(),
    {
        match self {
            Number::Finite(d) => d.render(),
            Number::Infinite { negative } => if *negative {
                "-inf".to_owned()
            } else {
                "inf".to_owned()
            },
            Number::NotANumber => "NaN".to_owned(),
        }
    }

    /// Tells whether the number is greater than zero.
    pub fn positive(&self) -> (b: bool)
        ensures
            b == self.is_positive(),
    {
        match self {
            Number::Finite(d) => d.positive(),
            Number::Infinite { negative } => !*negative,
            Number::NotANumber => false,
        }
    }
}

/// The texts `NaN`, `inf` and `-inf` do not have decimal shape, so a
/// text denotes at most one number.
pub proof fn lemma_special_text_is_not_decimal(s: Seq<char>)
    requires
        is_special_text(s),
    ensures
        !is_decimal_text(s),
{
    reveal_strlit("NaN");
    reveal_strlit("inf");
    reveal_strlit("-inf");
    let body = unsigned_part(s);
    lemma_first_point_bounds(body);
    let point = first_point(body);
    if point > 0 {
        assert(!is_digit(body[0]));
        assert(body.subrange(0, point)[0] == body[0]);
    }
}

/// The digit values of `n`, most significant first.
pub open spec fn nat_digit_values(n: nat) -> Seq<u8>
    decreases n,
{
    if n < 10 {
        seq![n as u8]
    } else {
        nat_digit_values(n / 10).push((n % 10) as u8)
    }
}

/// The digit values of a number are digits, render to the number's
/// decimal text, and are all zero only for zero.
pub proof fn lemma_digit_values_of_nat(n: nat)
    ensures
        nat_digit_values(n).len() > 0,
        digit_values(nat_digit_values(n)),
        digits_text(nat_digit_values(n)) == nat_digits(n),
        all_zero(nat_digit_values(n)) <==> n == 0,
    decreases n,
{
    if n >= 10 {
        lemma_digit_values_of_nat(n / 10);
        let head = nat_digit_values(n / 10);
        let last = (n % 10) as u8;
        assert(digits_text(head.push(last)) == digits_text(head).push(digit_char(last as nat)));
        assert(!all_zero(head));
        let i = choose|i: int| 0 <= i < head.len() && head[i] != 0;
        assert(head.push(last)[i] != 0);
    } else {
        assert(digits_text(seq![n as u8]) == seq![digit_char(n)]);
        assert(nat_digit_values(n)[0] == n);
    }
}

/// The text of a well-formed number has decimal shape and denotes that
/// number: reading what was rendered gives the number back.
pub proof fn lemma_text_denotes_number(negative: bool, whole: Seq<u8>, fraction: Seq<u8>)
    requires
        whole.len() > 0,
        digit_values(whole),
        digit_values(fraction),
    ensures
        is_decimal_text(decimal_text(negative, whole, fraction)),
        decimal_of_text(decimal_text(negative, whole, fraction)) == (negative, whole, fraction),
{
    let text = decimal_text(negative, whole, fraction);
    let w = digits_text(whole);
    let f = digits_text(fraction);
    lemma_digit_text_round_trip(whole);
    lemma_digit_text_round_trip(fraction);
    let tail = if fraction.len() > 0 {
        seq!['.'] + f
    } else {
        Seq::<char>::empty()
    };
    let body = w + tail;
    assert(is_digit(w[0]));
    if negative {
        assert(text == seq!['-'] + body);
        assert(text.drop_first() == body);
    } else {
        assert(text == body);
        assert(text.first() == w[0]);
    }
    assert(unsigned_part(text) == body);
    assert forall|j: int| 0 <= j < w.len() implies body[j] != '.' by {
        assert(body[j] == w[j]);
        assert(is_digit(w[j]));
    }
    lemma_first_point(body, w.len() as int);
    assert(body.subrange(0, w.len() as int) == w);
    if fraction.len() > 0 {
        assert(body.subrange(w.len() as int + 1, body.len() as int) == f);
    }
}

/// Digit values turned into characters are digits, and turning them
/// back gives the values.
pub proof fn lemma_digit_text_round_trip(values: Seq<u8>)
    requires
        digit_values(values),
    ensures
        all_digits(digits_text(values)),
        digit_values_of(digits_text(values)) == values,
{
    assert forall|i: int| 0 <= i < values.len() implies is_digit(digits_text(values)[i])
        && digit_value(digits_text(values)[i]) == values[i] by {
        assert(values[i] < 10);
    }
    assert(digit_values_of(digits_text(values)) =~= values);
}

/// The decimal text of a number holds digits only: no sign, no point,
/// no grouping separator.
pub proof fn lemma_nat_digits_are_digits(n: nat)
    ensures
        nat_digits(n).len() > 0,
        all_digits(nat_digits(n)),
    decreases n,
{
    if n >= 10 {
        lemma_nat_digits_are_digits(n / 10);
        let head = nat_digits(n / 10);
        assert forall|i: int| 0 <= i < nat_digits(n).len() implies is_digit(nat_digits(n)[i]) by {
            if i < head.len() {
                assert(nat_digits(n)[i] == head[i]);
            }
        }
    }
}

/// `first_point` is the index reached by scanning past characters that
/// are not points.
pub proof fn lemma_first_point(s: Seq<char>, k: int)
    requires
        0 <= k <= s.len(),
        forall|j: int| 0 <= j < k ==> s[j] != '.',
        k == s.len() || s[k] == '.',
    ensures
        first_point(s) == k,
    decreases s.len(),
{
    if k > 0 {
        let rest = s.drop_first();
        assert forall|j: int| 0 <= j < k - 1 implies rest[j] != '.' by {
            assert(rest[j] == s[j + 1]);
        }
        lemma_first_point(rest, k - 1);
    }
}

/// No point stands before `first_point`.
pub proof fn lemma_point_not_before(s: Seq<char>, k: int)
    requires
        0 <= k < s.len(),
        forall|j: int| 0 <= j <= k ==> s[j] != '.',
    ensures
        k < first_point(s) <= s.len(),
    decreases s.len(),
{
    assert(s[0] != '.');
    if k > 0 {
        let rest = s.drop_first();
        assert forall|j: int| 0 <= j <= k - 1 implies rest[j] != '.' by {
            assert(rest[j] == s[j + 1]);
        }
        lemma_point_not_before(rest, k - 1);
    } else {
        lemma_first_point_bounds(s.drop_first());
    }
}

/// `first_point` lies within the sequence or at its end.
pub proof fn lemma_first_point_bounds(s: Seq<char>)
    ensures
        0 <= first_point(s) <= s.len(),
    decreases s.len(),
{
    if s.len() > 0 && s.first() != '.' {
        lemma_first_point_bounds(s.drop_first());
    }
}

/// Digit characters turned into values and back are unchanged.
pub proof fn lemma_digits_round_trip(s: Seq<char>)
    requires
        all_digits(s),
    ensures
        digit_values(digit_values_of(s)),
        digits_text(digit_values_of(s)) == s,
{
    assert forall|i: int| 0 <= i < s.len() implies digit_char(digit_value(s[i]) as nat)
        == s[i] by {
        assert(is_digit(s[i]));
    }
    assert(digits_text(digit_values_of(s)) =~= s);
}

/// The character of a digit value; values above nine count as nine.
pub fn digit_of(v: u8) -> (c: char)
    ensures
        c == digit_char(v as nat),
{
    if v < 10 {
        digit(v)
    } else {
        '9'
    }
}

/// Appends the characters of a run of digit values.
pub fn push_digit_chars(out: &mut Vec<char>, values: &Vec<u8>)
    ensures
        final(out)@ == old(out)@ + digits_text(values@),
{
    let mut i: usize = 0;
    while i < values.len()
        invariant
            i <= values.len(),
            out@ == old(out)@ + digits_text(values@.subrange(0, i as int)),
        decreases values.len() - i,
    {
        let c = digit_of(values[i]);
        proof {
            assert(values@.subrange(0, i + 1) == values@.subrange(0, i as int).push(values@[i as int]));
            assert(digits_text(values@.subrange(0, i + 1)) == digits_text(
                values@.subrange(0, i as int),
            ).push(c));
        }
        out.push(c);
        i += 1;
    }
    assert(values@.subrange(0, values.len() as int) == values@);
}

/// Appends the digit values of `n`.
pub fn push_digit_values(out: &mut Vec<u8>, n: u64)
    ensures
        final(out)@ == old(out)@ + nat_digit_values(n as nat),
    decreases n,
{
    if n >= 10 {
        push_digit_values(out, n / 10);
    }
    let d: u8 = (n % 10) as u8;
    out.push(d);
    proof {
        if n >= 10 {
            assert(old(out)@ + nat_digit_values(n as nat) == (old(out)@ + nat_digit_values(
                (n / 10) as nat,
            )).push(d));
        } else {
            assert(old(out)@ + nat_digit_values(n as nat) == old(out)@.push(d));
        }
    }
}

/// Tells whether every value is zero.
pub fn zeros_only(values: &Vec<u8>) -> (b: bool)
    ensures
        b == all_zero(values@),
{
    let mut i: usize = 0;
    while i < values.len()
        invariant
            i <= values.len(),
            forall|j: int| 0 <= j < i ==> values@[j] == 0,
        decreases values.len() - i,
    {
        if values[i] != 0 {
            return false;
        }
        i += 1;
    }
    true
}

} // verus!
