//! Decimal amounts and the three prices of a meal.

use vstd::prelude::*;
use vstd::std_specs::convert::TryFromSpecImpl;
use crate::error::ParseError;
use crate::number::{
    all_digits, digits_of, digits_value, is_all_digits, lemma_digits_round_trip,
    lemma_leading_zeros, lemma_pow10_grows, pow10, spec_digits, spec_is_digit, value_of_digits,
};
use crate::text::{
    chars_of, lacks, lemma_split_last, lemma_split_whole, lemma_trim_padded, piece_views, slice_chars,
    spec_is_whitespace, spec_split, spec_trim, split_chars, string_of, trim_chars,
};

verus! {

/// The index of the first `c` in `s`, or the length of `s` if there is none.
pub open spec fn spec_index_of(s: Seq<char>, c: char) -> int
    decreases s.len(),
{
    if s.len() == 0 || s[0] == c {
        0
    } else {
        1 + spec_index_of(s.skip(1), c)
    }
}

/// A decimal amount: `mantissa / 10^scale`, below zero where `negative`.
#[derive(Debug, Clone, Copy, PartialEq, Eq, Structural)]
pub struct Decimal {
    pub negative: bool,
    pub mantissa: u64,
    pub scale: u8,
}

/// The length of the sign that `s` starts with: 1 for `+` or `-`, else 0.
pub open spec fn spec_sign_len(s: Seq<char>) -> int {
    if s.len() > 0 && (s[0] == '+' || s[0] == '-') {
        1
    } else {
        0
    }
}

/// The digits before the decimal point of an unsigned numeral.
pub open spec fn spec_integer_digits(body: Seq<char>) -> Seq<char> {
    body.take(spec_index_of(body, '.'))
}

/// The digits after the first decimal point of an unsigned numeral; empty
/// where it has no point.
pub open spec fn spec_fraction_digits(body: Seq<char>) -> Seq<char> {
    let point = spec_index_of(body, '.');
    if point < body.len() {
        body.skip(point + 1)
    } else {
        Seq::empty()
    }
}

/// The amount that a decimal numeral denotes. A decimal numeral is an
/// optional sign, then digits with at most one decimal point among them and
/// at least one digit. It denotes an amount here if its digits, read without
/// the point, fit in 64 bits and no more than 255 of them follow the point.
pub open spec fn spec_parse_decimal(s: Seq<char>) -> Option<Decimal> {
    let body = s.skip(spec_sign_len(s));
    let digits = spec_decimal_digits(body);
    if spec_is_decimal(body) && digits_value(digits) <= u64::MAX && spec_fraction_digits(
        body,
    ).len() <= u8::MAX {
        Some(
            Decimal {
                negative: s.len() > 0 && s[0] == '-',
                mantissa: digits_value(digits) as u64,
                scale: spec_fraction_digits(body).len() as u8,
            },
        )
    } else {
        None
    }
}

/// The digits of an unsigned decimal numeral, read without the point.
pub open spec fn spec_decimal_digits(body: Seq<char>) -> Seq<char> {
    spec_integer_digits(body) + spec_fraction_digits(body)
}

/// `body` is an unsigned decimal numeral: digits with at most one decimal
/// point among them, and at least one digit.
pub open spec fn spec_is_decimal(body: Seq<char>) -> bool {
    spec_decimal_digits(body).len() > 0 && all_digits(spec_decimal_digits(body))
}

/// The index of the first `a` or `b` in `s`, or the length of `s` if there is
/// neither.
pub open spec fn spec_index_of_either(s: Seq<char>, a: char, b: char) -> int
    decreases s.len(),
{
    if s.len() == 0 || s[0] == a || s[0] == b {
        0
    } else {
        1 + spec_index_of_either(s.skip(1), a, b)
    }
}

/// `body` is an unsigned decimal numeral followed by an exponent: the letter
/// `e` in either case, an optional sign and at least one digit.
pub open spec fn spec_has_exponent(body: Seq<char>) -> bool {
    let mark = spec_index_of_either(body, 'e', 'E');
    let exponent = body.skip(mark + 1);
    let power = exponent.skip(spec_sign_len(exponent));
    mark < body.len() && spec_is_decimal(body.take(mark)) && power.len() > 0 && all_digits(power)
}

/// `body` is the word that `lower` and `upper` spell in lower and in upper
/// case, in any mix of the two cases.
pub open spec fn spells(body: Seq<char>, lower: Seq<char>, upper: Seq<char>) -> bool {
    &&& body.len() == lower.len()
    &&& body.len() == upper.len()
    &&& forall|i: int| 0 <= i < body.len() ==> body[i] == lower[i] || body[i] == upper[i]
}

/// `body` is one of the words that floating-point notation has for numbers
/// that are no amounts: `inf`, `infinity` and `nan`, in any case.
pub open spec fn spec_is_word(body: Seq<char>) -> bool {
    ||| spells(body, "inf"@, "INF"@)
    ||| spells(body, "infinity"@, "INFINITY"@)
    ||| spells(body, "nan"@, "NAN"@)
}

/// What a part of a price text is.
#[derive(Debug, Clone, Copy, PartialEq, Eq, Structural)]
pub enum Reading {
    /// A numeral, with or without an exponent, that the amount type holds.
    Amount(Decimal),
    /// A number that is no amount: a numeral beyond the limits of the amount
    /// type, or a word for infinity or not-a-number.
    Unfit,
    /// No number at all.
    NoNumber,
}

/// The amount `value * 10^shift`, negated where `negative`, if the amount
/// type holds it: with a shift to the right the value is the mantissa and the
/// shift is the scale; with a shift to the left the shifted value is the
/// mantissa and the scale is zero.
pub open spec fn spec_shifted(negative: bool, value: nat, shift: int) -> Option<Decimal> {
    if value > u64::MAX {
        None
    } else if shift <= 0 {
        if -shift <= u8::MAX {
            Some(Decimal { negative, mantissa: value as u64, scale: (-shift) as u8 })
        } else {
            None
        }
    } else if value * pow10(shift as nat) <= u64::MAX {
        Some(Decimal { negative, mantissa: (value * pow10(shift as nat)) as u64, scale: 0 })
    } else {
        None
    }
}

/// The amount that a numeral with an exponent denotes: the digits of its
/// decimal numeral, shifted by the exponent less the number of places after
/// the point. It denotes an amount here if the digits of the exponent fit in
/// 64 bits and the amount type holds the shifted value.
pub open spec fn spec_parse_scientific(s: Seq<char>) -> Option<Decimal> {
    let body = s.skip(spec_sign_len(s));
    let mark = spec_index_of_either(body, 'e', 'E');
    let numeral = body.take(mark);
    let exponent = body.skip(mark + 1);
    let power = digits_value(exponent.skip(spec_sign_len(exponent)));
    if spec_has_exponent(body) && power <= u64::MAX {
        spec_shifted(
            s.len() > 0 && s[0] == '-',
            digits_value(spec_decimal_digits(numeral)),
            (if exponent[0] == '-' {
                -power
            } else {
                power as int
            }) - spec_fraction_digits(numeral).len(),
        )
    } else {
        None
    }
}

/// What a text is, read as a number. A number is an optional sign and then
/// a decimal numeral, with or without an exponent, or one of the words of
/// floating-point notation. A numeral is an amount where the amount type
/// holds what it denotes; a word is none.
pub open spec fn spec_read(s: Seq<char>) -> Reading {
    let body = s.skip(spec_sign_len(s));
    if spec_is_decimal(body) {
        match spec_parse_decimal(s) {
            Some(amount) => Reading::Amount(amount),
            None => Reading::Unfit,
        }
    } else if spec_has_exponent(body) {
        match spec_parse_scientific(s) {
            Some(amount) => Reading::Amount(amount),
            None => Reading::Unfit,
        }
    } else if spec_is_word(body) {
        Reading::Unfit
    } else {
        Reading::NoNumber
    }
}

/// The first position of `a` or `b` is the one before which neither stands.
pub proof fn lemma_index_of_either(s: Seq<char>, a: char, b: char, k: int)
    requires
        0 <= k <= s.len(),
        forall|j: int| 0 <= j < k ==> s[j] != a && s[j] != b,
        k == s.len() || s[k] == a || s[k] == b,
    ensures
        spec_index_of_either(s, a, b) == k,
    decreases s.len(),
{
    if k > 0 {
        let rest = s.skip(1);
        assert forall|j: int| 0 <= j < k - 1 implies rest[j] != a && rest[j] != b by {
            assert(rest[j] == s[j + 1]);
        }
        lemma_index_of_either(rest, a, b, k - 1);
    }
}

/// The first position of `c` is the one before which no `c` stands.
pub proof fn lemma_index_of(s: Seq<char>, c: char, k: int)
    requires
        0 <= k <= s.len(),
        forall|j: int| 0 <= j < k ==> s[j] != c,
        k == s.len() || s[k] == c,
    ensures
        spec_index_of(s, c) == k,
    decreases s.len(),
{
    if k > 0 {
        let rest = s.skip(1);
        assert forall|j: int| 0 <= j < k - 1 implies rest[j] != c by {
            assert(rest[j] == s[j + 1]);
        }
        lemma_index_of(rest, c, k - 1);
    }
}

/// The index of the first `c` in `s`, or the length of `s`.
pub fn index_of_char(s: &Vec<char>, c: char) -> (k: usize)
    ensures
        k == spec_index_of(s@, c),
        k <= s.len(),
{
    let mut k: usize = 0;
    while k < s.len() && s[k] != c
        invariant
            k <= s.len(),
            forall|j: int| 0 <= j < k ==> s@[j] != c,
        decreases s.len() - k,
    {
        k += 1;
    }
    proof {
        lemma_index_of(s@, c, k as int);
    }
    k
}

/// The index of the first `a` or `b` in `s`, or the length of `s`.
pub fn index_of_either(s: &Vec<char>, a: char, b: char) -> (k: usize)
    ensures
        k == spec_index_of_either(s@, a, b),
        k <= s.len(),
{
    let mut k: usize = 0;
    while k < s.len() && s[k] != a && s[k] != b
        invariant
            k <= s.len(),
            forall|j: int| 0 <= j < k ==> s@[j] != a && s@[j] != b,
        decreases s.len() - k,
    {
        k += 1;
    }
    proof {
        lemma_index_of_either(s@, a, b, k as int);
    }
    k
}

/// The text after its sign, if it has one.
pub fn unsigned_part(s: &Vec<char>) -> (body: Vec<char>)
    ensures
        body@ == s@.skip(spec_sign_len(s@)),
{
    let signed = s.len() > 0 && (s[0] == '+' || s[0] == '-');
    let start: usize = if signed {
        1
    } else {
        0
    };
    let body = slice_chars(s, start, s.len());
    assert(body@ =~= s@.skip(spec_sign_len(s@)));
    body
}

/// The characters before and after the first decimal point, one after the
/// other, and how many of them stood after the point.
pub fn decimal_digits(body: &Vec<char>) -> (parts: (Vec<char>, usize))
    ensures
        parts.0@ == spec_decimal_digits(body@),
        parts.1 == spec_fraction_digits(body@).len(),
{
    let point = index_of_char(body, '.');
    let mut digits = slice_chars(body, 0, point);
    assert(digits@ =~= spec_integer_digits(body@));
    let fraction = if point < body.len() {
        slice_chars(body, point + 1, body.len())
    } else {
        Vec::new()
    };
    assert(fraction@ =~= spec_fraction_digits(body@));
    let ghost integer = digits@;
    let mut j: usize = 0;
    while j < fraction.len()
        invariant
            j <= fraction.len(),
            digits@ == integer + fraction@.take(j as int),
        decreases fraction.len() - j,
    {
        digits.push(fraction[j]);
        assert(digits@ =~= integer + fraction@.take(j + 1));
        j += 1;
    }
    assert(fraction@.take(fraction.len() as int) =~= fraction@);
    (digits, fraction.len())
}

/// Whether `body` is an unsigned decimal numeral.
pub fn is_decimal(body: &Vec<char>) -> (decimal: bool)
    ensures
        decimal == spec_is_decimal(body@),
{
    let (digits, _) = decimal_digits(body);
    digits.len() > 0 && is_all_digits(&digits)
}

/// Whether `body` is an unsigned decimal numeral followed by an exponent.
pub fn has_exponent(body: &Vec<char>) -> (exponent: bool)
    ensures
        exponent == spec_has_exponent(body@),
{
    let mark = index_of_either(body, 'e', 'E');
    if mark >= body.len() {
        return false;
    }
    let mantissa = slice_chars(body, 0, mark);
    assert(mantissa@ =~= body@.take(mark as int));
    let exponent = slice_chars(body, mark + 1, body.len());
    assert(exponent@ =~= body@.skip(mark + 1));
    let power = unsigned_part(&exponent);
    is_decimal(&mantissa) && power.len() > 0 && is_all_digits(&power)
}

/// Whether `body` is the word that `lower` and `upper` spell in the two
/// cases, in any mix of them.
pub fn is_spelling(body: &Vec<char>, lower: &str, upper: &str) -> (spelled: bool)
    ensures
        spelled == spells(body@, lower@, upper@),
{
    let small = chars_of(lower);
    let capital = chars_of(upper);
    if body.len() != small.len() || body.len() != capital.len() {
        return false;
    }
    let mut i: usize = 0;
    while i < body.len()
        invariant
            i <= body.len(),
            small@ == lower@,
            capital@ == upper@,
            body.len() == small.len(),
            body.len() == capital.len(),
            forall|k: int| 0 <= k < i ==> body@[k] == small@[k] || body@[k] == capital@[k],
        decreases body.len() - i,
    {
        if body[i] != small[i] && body[i] != capital[i] {
            assert(!(body@[i as int] == lower@[i as int] || body@[i as int] == upper@[i as int]));
            return false;
        }
        i += 1;
    }
    true
}

/// Whether `body` is one of the words `inf`, `infinity` and `nan`, in any
/// case.
pub fn is_word(body: &Vec<char>) -> (word: bool)
    ensures
        word == spec_is_word(body@),
{
    is_spelling(body, "inf", "INF") || is_spelling(body, "infinity", "INFINITY") || is_spelling(
        body,
        "nan",
        "NAN",
    )
}

/// Reads a decimal numeral: an optional sign, digits, at most one decimal
/// point.
pub fn parse_decimal(s: &Vec<char>) -> (amount: Option<Decimal>)
    ensures
        amount == spec_parse_decimal(s@),
{
    let negative = s.len() > 0 && s[0] == '-';
    let body = unsigned_part(s);
    let (digits, places) = decimal_digits(&body);
    if digits.len() == 0 || places > 255 || !is_all_digits(&digits) {
        return None;
    }
    match value_of_digits(&digits) {
        Some(mantissa) => Some(Decimal { negative, mantissa, scale: places as u8 }),
        None => None,
    }
}

/// The amount `value * 10^shift`, negated where `negative`, if the amount
/// type holds it.
pub fn shifted(negative: bool, value: u64, shift: i128) -> (amount: Option<Decimal>)
    ensures
        amount == spec_shifted(negative, value as nat, shift as int),
{
    if shift <= 0 {
        if shift < -255 {
            return None;
        }
        return Some(Decimal { negative, mantissa: value, scale: (-shift) as u8 });
    }
    if value == 0 {
        assert(0 * pow10(shift as nat) == 0) by (nonlinear_arith);
        return Some(Decimal { negative, mantissa: 0, scale: 0 });
    }
    let mut mantissa: u64 = value;
    let mut done: i128 = 0;
    assert(value * pow10(0) == value) by (nonlinear_arith)
        requires
            pow10(0) == 1,
    ;
    while done < shift
        invariant
            0 <= done <= shift,
            value > 0,
            mantissa == value * pow10(done as nat),
        decreases shift - done,
    {
        proof {
            lemma_pow10_grows((done + 1) as nat, shift as nat);
            let next = pow10((done + 1) as nat);
            let last = pow10(shift as nat);
            assert(value * next == mantissa * 10) by (nonlinear_arith)
                requires
                    next == 10 * pow10(done as nat),
                    mantissa == value * pow10(done as nat),
            ;
            assert(value * next <= value * last) by (nonlinear_arith)
                requires
                    next <= last,
                    value > 0,
            ;
        }
        mantissa = match mantissa.checked_mul(10) {
            Some(grown) => grown,
            None => {
                return None;
            },
        };
        done += 1;
    }
    Some(Decimal { negative, mantissa, scale: 0 })
}

/// Reads a numeral with an exponent, such as `1e3` or `-1.5E-3`.
pub fn parse_scientific(s: &Vec<char>) -> (amount: Option<Decimal>)
    ensures
        amount == spec_parse_scientific(s@),
{
    let negative = s.len() > 0 && s[0] == '-';
    let body = unsigned_part(s);
    if !has_exponent(&body) {
        return None;
    }
    let mark = index_of_either(&body, 'e', 'E');
    let numeral = slice_chars(&body, 0, mark);
    assert(numeral@ =~= body@.take(mark as int));
    let exponent = slice_chars(&body, mark + 1, body.len());
    assert(exponent@ =~= body@.skip(mark + 1));
    let downwards = exponent.len() > 0 && exponent[0] == '-';
    let power_digits = unsigned_part(&exponent);
    let (digits, places) = decimal_digits(&numeral);
    let power = match value_of_digits(&power_digits) {
        Some(power) => power,
        None => {
            return None;
        },
    };
    let value = match value_of_digits(&digits) {
        Some(value) => value,
        None => {
            return None;
        },
    };
    let shift: i128 = if downwards {
        -(power as i128) - places as i128
    } else {
        power as i128 - places as i128
    };
    shifted(negative, value, shift)
}

/// Reads a text as a number.
pub fn read_number(s: &Vec<char>) -> (reading: Reading)
    ensures
        reading == spec_read(s@),
{
    let body = unsigned_part(s);
    if is_decimal(&body) {
        match parse_decimal(s) {
            Some(amount) => Reading::Amount(amount),
            None => Reading::Unfit,
        }
    } else if has_exponent(&body) {
        match parse_scientific(s) {
            Some(amount) => Reading::Amount(amount),
            None => Reading::Unfit,
        }
    } else if is_word(&body) {
        Reading::Unfit
    } else {
        Reading::NoNumber
    }
}

impl Decimal {
    /// The digits of the mantissa, with zeros before them where the mantissa
    /// has no digit before the decimal point.
    pub open spec fn spec_padded_digits(self) -> Seq<char> {
        let digits = spec_digits(self.mantissa as nat);
        if digits.len() > self.scale {
            digits
        } else {
            Seq::new((self.scale + 1 - digits.len()) as nat, |i: int| '0') + digits
        }
    }

    /// The amount without its sign: the digits with a decimal point before
    /// the last `scale` of them, or without a point where `scale` is zero.
    pub open spec fn spec_unsigned_text(self) -> Seq<char> {
        let padded = self.spec_padded_digits();
        let point = padded.len() - self.scale;
        if self.scale == 0 {
            padded
        } else {
            padded.take(point) + seq!['.'] + padded.skip(point)
        }
    }

    /// The amount as a numeral: a minus sign where it is negative, then the
    /// unsigned text.
    pub open spec fn spec_to_text(self) -> Seq<char> {
        if self.negative {
            seq!['-'] + self.spec_unsigned_text()
        } else {
            self.spec_unsigned_text()
        }
    }

    /// Writes the amount as a numeral, such as `3.50` or `-0.05`.
    pub fn to_text(&self) -> (text: String)
        ensures
            text@ == self.spec_to_text(),
    {
        let digits = digits_of(self.mantissa);
        let scale: usize = self.scale as usize;
        let mut padded: Vec<char> = Vec::new();
        if digits.len() <= scale {
            let missing: usize = scale + 1 - digits.len();
            let mut i: usize = 0;
            while i < missing
                invariant
                    i <= missing,
                    padded@ == Seq::new(i as nat, |k: int| '0'),
                decreases missing - i,
            {
                padded.push('0');
                assert(padded@ =~= Seq::new((i + 1) as nat, |k: int| '0'));
                i += 1;
            }
        }
        let mut copy = slice_chars(&digits, 0, digits.len());
        assert(copy@ =~= digits@);
        let ghost zeros = padded@;
        padded.append(&mut copy);
        assert(padded@ =~= self.spec_padded_digits()) by {
            if digits.len() > scale {
                assert(zeros =~= Seq::<char>::empty());
            }
        }
        proof {
            lemma_digits_round_trip(self.mantissa as nat);
        }
        let point: usize = padded.len() - scale;
        let mut out: Vec<char> = Vec::new();
        if self.negative {
            out.push('-');
        }
        let ghost sign = out@;
        let mut whole = slice_chars(&padded, 0, point);
        out.append(&mut whole);
        if scale > 0 {
            out.push('.');
            let mut fraction = slice_chars(&padded, point, padded.len());
            out.append(&mut fraction);
        } else {
            assert(padded@.subrange(0, point as int) =~= padded@);
        }
        assert(out@ =~= self.spec_to_text());
        string_of(&out)
    }

    /// Reading what was written gives the amount back: sign, digits and
    /// scale.
    pub proof fn lemma_round_trip(self)
        ensures
            spec_parse_decimal(self.spec_to_text()) == Some(self),
    {
        let digits = spec_digits(self.mantissa as nat);
        lemma_digits_round_trip(self.mantissa as nat);
        let padded = self.spec_padded_digits();
        if digits.len() <= self.scale {
            let zeros = Seq::new((self.scale + 1 - digits.len()) as nat, |i: int| '0');
            lemma_leading_zeros(zeros, digits);
        }
        assert(all_digits(padded));
        assert(digits_value(padded) == self.mantissa);
        let point = padded.len() - self.scale;
        let whole = padded.take(point);
        let fraction = padded.skip(point);
        let body = self.spec_unsigned_text();
        assert(forall|j: int| 0 <= j < point ==> body[j] == padded[j]);
        assert forall|j: int| 0 <= j < point implies body[j] != '.' by {
            assert(spec_is_digit(padded[j]));
        }
        lemma_index_of(body, '.', point);
        assert(spec_integer_digits(body) =~= whole);
        assert(spec_fraction_digits(body) =~= fraction);
        assert(whole + fraction =~= padded);
        let text = self.spec_to_text();
        assert(spec_is_digit(padded[0]));
        assert(body[0] == padded[0]);
        if self.negative {
            assert(text.skip(1) =~= body);
        } else {
            assert(text.skip(0) =~= body);
        }
    }

    /// What was written holds digits, at most one point and, in front, at
    /// most one minus sign: no white space, no slash, no comma and no currency
    /// sign.
    pub proof fn lemma_text_is_plain(self)
        ensures
            self.spec_to_text().len() > 0,
            forall|i: int|
                0 <= i < self.spec_to_text().len() ==> {
                    let c = #[trigger] self.spec_to_text()[i];
                    spec_is_digit(c) || c == '.' || c == '-'
                },
    {
        lemma_digits_round_trip(self.mantissa as nat);
        let padded = self.spec_padded_digits();
        assert(all_digits(padded));
        let body = self.spec_unsigned_text();
        let point = padded.len() - self.scale;
        assert forall|i: int| 0 <= i < body.len() implies (spec_is_digit(#[trigger] body[i])
            || body[i] == '.') by {
            if self.scale > 0 {
                if i < point {
                    assert(body[i] == padded[i]);
                } else if i > point {
                    assert(body[i] == padded[i - 1]);
                }
            }
        }
        let text = self.spec_to_text();
        assert forall|i: int| 0 <= i < text.len() implies {
            let c = #[trigger] text[i];
            spec_is_digit(c) || c == '.' || c == '-'
        } by {
            if self.negative {
                if i > 0 {
                    assert(text[i] == body[i - 1]);
                }
            }
        }
    }

    /// Zero, written without a fraction.
    pub open spec fn spec_zero() -> Decimal {
        Decimal { negative: false, mantissa: 0, scale: 0 }
    }

    /// Zero, written without a fraction.
    pub fn zero() -> (amount: Decimal)
        ensures
            amount == Self::spec_zero(),
    {
        Decimal { negative: false, mantissa: 0, scale: 0 }
    }
}

/// The prices of one meal for the three groups of guests.
#[derive(Debug, Clone, Copy, PartialEq, Eq, Structural)]
pub struct Prices {
    pub students: Decimal,
    pub employees: Decimal,
    pub guests: Decimal,
}

/// `s` without currency signs and with every comma turned into a point.
pub open spec fn spec_clean(s: Seq<char>) -> Seq<char>
    decreases s.len(),
{
    if s.len() == 0 {
        Seq::empty()
    } else {
        let before = spec_clean(s.drop_last());
        if s.last() == '€' {
            before
        } else if s.last() == ',' {
            before.push('.')
        } else {
            before.push(s.last())
        }
    }
}

/// The amounts among `parts`, in order. Each part is stripped of the white
/// space around it and read as a number. A part that is no number is passed
/// over. A part that is a number and no amount leaves the whole without
/// amounts: a number is never passed over.
pub open spec fn spec_amounts(parts: Seq<Seq<char>>) -> Option<Seq<Decimal>>
    decreases parts.len(),
{
    if parts.len() == 0 {
        Some(Seq::empty())
    } else {
        match spec_amounts(parts.drop_last()) {
            None => None,
            Some(before) => match spec_read(spec_trim(parts.last())) {
                Reading::Amount(amount) => Some(before.push(amount)),
                Reading::Unfit => None,
                Reading::NoNumber => Some(before),
            },
        }
    }
}

/// Once a prefix of the parts is without amounts, so is the whole.
pub proof fn lemma_unfit_stays(parts: Seq<Seq<char>>, k: int)
    requires
        0 <= k <= parts.len(),
        spec_amounts(parts.take(k)).is_none(),
    ensures
        spec_amounts(parts).is_none(),
    decreases parts.len() - k,
{
    if k == parts.len() {
        assert(parts.take(k) =~= parts);
    } else {
        assert(parts.drop_last().take(k) =~= parts.take(k));
        lemma_unfit_stays(parts.drop_last(), k);
    }
}

/// A part that is a number and no amount leaves the text without prices,
/// wherever it stands and whatever the other parts are.
pub proof fn lemma_unfit_part_fails(text: Seq<char>, k: int)
    requires
        0 <= k < spec_split(spec_clean(text), '/').len(),
        spec_read(spec_trim(spec_split(spec_clean(text), '/')[k])) == Reading::Unfit,
    ensures
        spec_parse_prices(text).is_none(),
{
    let parts = spec_split(spec_clean(text), '/');
    assert(parts.take(k + 1).last() == parts[k]);
    lemma_unfit_stays(parts, k + 1);
}

/// The prices that a text denotes: the text is cleaned and split at every
/// slash, and its parts must hold exactly three numbers, each of them an
/// amount.
pub open spec fn spec_parse_prices(s: Seq<char>) -> Option<Prices> {
    match spec_amounts(spec_split(spec_clean(s), '/')) {
        Some(amounts) => if amounts.len() == 3 {
            Some(Prices { students: amounts[0], employees: amounts[1], guests: amounts[2] })
        } else {
            None
        },
        None => None,
    }
}

/// Removes currency signs and turns commas into points.
pub fn clean_chars(s: &Vec<char>) -> (out: Vec<char>)
    ensures
        out@ == spec_clean(s@),
{
    let mut out: Vec<char> = Vec::new();
    let mut i: usize = 0;
    assert(s@.take(0) =~= Seq::<char>::empty());
    while i < s.len()
        invariant
            i <= s.len(),
            out@ == spec_clean(s@.take(i as int)),
        decreases s.len() - i,
    {
        assert(s@.take(i + 1).drop_last() =~= s@.take(i as int));
        let c = s[i];
        if c == '€' {
        } else if c == ',' {
            out.push('.');
        } else {
            out.push(c);
        }
        i += 1;
    }
    assert(s@.take(i as int) =~= s@);
    out
}

impl Prices {
    /// The three amounts as numerals with slashes between them.
    pub open spec fn spec_to_text(self) -> Seq<char> {
        self.students.spec_to_text() + seq!['/'] + self.employees.spec_to_text() + seq!['/']
            + self.guests.spec_to_text()
    }

    /// Writes the three amounts as numerals with slashes between them, such
    /// as `3.50/4.20/5.00`.
    pub fn to_text(&self) -> (text: String)
        ensures
            text@ == self.spec_to_text(),
    {
        let mut out = chars_of(self.students.to_text().as_str());
        out.push('/');
        let mut employees = chars_of(self.employees.to_text().as_str());
        out.append(&mut employees);
        out.push('/');
        let mut guests = chars_of(self.guests.to_text().as_str());
        out.append(&mut guests);
        assert(out@ =~= self.spec_to_text());
        string_of(&out)
    }

    /// The prices that stand for "no price known": three times zero.
    pub open spec fn spec_default() -> Prices {
        Prices {
            students: Decimal::spec_zero(),
            employees: Decimal::spec_zero(),
            guests: Decimal::spec_zero(),
        }
    }

    /// Reads three prices from a text such as `3,50/4,20/5,00 €`.
    ///
    /// Currency signs are dropped and commas read as decimal points. The text
    /// is split at every slash; parts that are no numbers are passed over.
    /// Exactly three numbers must remain, each of them an amount: students,
    /// employees, guests. A number that is no amount, such as a numeral of
    /// more digits than an amount holds, makes the text malformed.
    pub fn parse(text: &str) -> (prices: Result<Prices, ParseError>)
        ensures
            match prices {
                Ok(found) => spec_parse_prices(text@) == Some(found),
                Err(error) => spec_parse_prices(text@).is_none() && error
                    == ParseError::MalformedPrice,
            },
    {
        let chars = chars_of(text);
        let cleaned = clean_chars(&chars);
        let parts = split_chars(&cleaned, '/');
        let mut amounts: Vec<Decimal> = Vec::new();
        let mut i: usize = 0;
        assert(piece_views(parts@).take(0) =~= Seq::<Seq<char>>::empty());
        while i < parts.len()
            invariant
                i <= parts.len(),
                spec_parse_prices(text@) == match spec_amounts(piece_views(parts@)) {
                    Some(all) => if all.len() == 3 {
                        Some(Prices { students: all[0], employees: all[1], guests: all[2] })
                    } else {
                        None
                    },
                    None => None,
                },
                Some(amounts@) == spec_amounts(piece_views(parts@).take(i as int)),
            decreases parts.len() - i,
        {
            assert(piece_views(parts@).take(i + 1).drop_last() =~= piece_views(parts@).take(i as int));
            let trimmed = trim_chars(&parts[i]);
            match read_number(&trimmed) {
                Reading::Amount(amount) => {
                    amounts.push(amount);
                },
                Reading::Unfit => {
                    proof {
                        lemma_unfit_stays(piece_views(parts@), i + 1);
                    }
                    return Err(ParseError::MalformedPrice);
                },
                Reading::NoNumber => {},
            }
            i += 1;
        }
        assert(piece_views(parts@).take(i as int) =~= piece_views(parts@));
        if amounts.len() != 3 {
            return Err(ParseError::MalformedPrice);
        }
        Ok(Prices { students: amounts[0], employees: amounts[1], guests: amounts[2] })
    }
}

impl TryFrom<String> for Prices {
    type Error = ParseError;

    /// [`Prices::parse`] on an owned text.
    fn try_from(value: String) -> (prices: Result<Prices, ParseError>)
        ensures
            match prices {
                Ok(found) => spec_parse_prices(value@) == Some(found),
                Err(error) => spec_parse_prices(value@).is_none() && error
                    == ParseError::MalformedPrice,
            },
    {
        Prices::parse(value.as_str())
    }
}

impl TryFromSpecImpl<String> for Prices {
    open spec fn obeys_try_from_spec() -> bool {
        false
    }

    open spec fn try_from_spec(value: String) -> Result<Prices, ParseError> {
        arbitrary()
    }
}

impl Default for Prices {
    fn default() -> (prices: Prices)
        ensures
            prices == Prices::spec_default(),
    {
        Prices { students: Decimal::zero(), employees: Decimal::zero(), guests: Decimal::zero() }
    }
}

/// Cleaning goes character by character: the cleaned form of two texts one
/// after the other is their cleaned forms one after the other.
pub proof fn lemma_clean_concat(s: Seq<char>, t: Seq<char>)
    ensures
        spec_clean(s + t) == spec_clean(s) + spec_clean(t),
    decreases t.len(),
{
    if t.len() == 0 {
        assert(s + t =~= s);
        assert(spec_clean(s) + spec_clean(t) =~= spec_clean(s));
    } else {
        assert((s + t).drop_last() =~= s + t.drop_last());
        lemma_clean_concat(s, t.drop_last());
        assert(spec_clean(s + t) =~= spec_clean(s) + spec_clean(t));
    }
}

/// Cleaning brings no slash into a text.
pub proof fn lemma_clean_lacks_slash(s: Seq<char>)
    requires
        lacks(s, '/'),
    ensures
        lacks(spec_clean(s), '/'),
    decreases s.len(),
{
    if s.len() > 0 {
        lemma_clean_lacks_slash(s.drop_last());
    }
}

/// Cleaning leaves a text without commas and currency signs as it is.
pub proof fn lemma_clean_plain(s: Seq<char>)
    requires
        lacks(s, ','),
        lacks(s, '€'),
    ensures
        spec_clean(s) == s,
    decreases s.len(),
{
    if s.len() > 0 {
        lemma_clean_plain(s.drop_last());
        assert(s.drop_last().push(s.last()) =~= s);
    }
}

/// `s` with a comma in place of every point.
pub open spec fn spec_with_commas(s: Seq<char>) -> Seq<char> {
    s.map_values(
        |c: char|
            if c == '.' {
                ','
            } else {
                c
            },
    )
}

/// Cleaning undoes the writing of points as commas.
pub proof fn lemma_clean_with_commas(s: Seq<char>)
    requires
        lacks(s, ','),
        lacks(s, '€'),
    ensures
        spec_clean(spec_with_commas(s)) == s,
    decreases s.len(),
{
    if s.len() > 0 {
        lemma_clean_with_commas(s.drop_last());
        assert(spec_with_commas(s).drop_last() =~= spec_with_commas(s.drop_last()));
        assert(s.drop_last().push(s.last()) =~= s);
    }
}

/// Every character of `s` is white space or a currency sign.
pub open spec fn is_noise(s: Seq<char>) -> bool {
    forall|i: int| 0 <= i < s.len() ==> spec_is_whitespace(#[trigger] s[i]) || s[i] == '€'
}

/// Of noise, cleaning leaves white space only.
pub proof fn lemma_clean_noise(s: Seq<char>)
    requires
        is_noise(s),
    ensures
        forall|i: int|
            0 <= i < spec_clean(s).len() ==> spec_is_whitespace(#[trigger] spec_clean(s)[i]),
    decreases s.len(),
{
    if s.len() > 0 {
        assert(is_noise(s.drop_last())) by {
            assert forall|i: int| 0 <= i < s.drop_last().len() implies spec_is_whitespace(
                #[trigger] s.drop_last()[i],
            ) || s.drop_last()[i] == '€' by {
                assert(s.drop_last()[i] == s[i]);
            }
        }
        lemma_clean_noise(s.drop_last());
        let before = spec_clean(s.drop_last());
        if s.last() == '€' {
            assert(spec_clean(s) == before);
        } else {
            assert(spec_is_whitespace(s.last()));
            assert(s.last() != ',');
            assert(spec_clean(s) == before.push(s.last()));
            assert forall|i: int| 0 <= i < spec_clean(s).len() implies spec_is_whitespace(
                #[trigger] spec_clean(s)[i],
            ) by {
                if i < before.len() {
                    assert(spec_clean(s)[i] == before[i]);
                }
            }
        }
    }
}

/// `text` is one way to write `amount` as a part of a price: it holds no
/// slash, and cleaned and trimmed it is a numeral that denotes the amount.
pub open spec fn spec_writes(text: Seq<char>, amount: Decimal) -> bool {
    lacks(text, '/') && spec_parse_decimal(spec_trim(spec_clean(text))) == Some(amount)
}

/// Noise around an amount does not matter: an amount written with a point
/// or with a comma, with white space and currency signs before and after
/// it, is a way to write that amount.
pub proof fn lemma_noise_is_ignored(
    amount: Decimal,
    before: Seq<char>,
    written: Seq<char>,
    after: Seq<char>,
)
    requires
        written == amount.spec_to_text() || written == spec_with_commas(amount.spec_to_text()),
        is_noise(before),
        is_noise(after),
    ensures
        spec_writes(before + written + after, amount),
{
    let plain = amount.spec_to_text();
    amount.lemma_text_is_plain();
    amount.lemma_round_trip();
    assert(lacks(plain, ',') && lacks(plain, '€') && lacks(plain, '/')) by {
        assert forall|i: int| 0 <= i < plain.len() implies plain[i] != ',' && plain[i] != '€'
            && plain[i] != '/' by {
            let c = plain[i];
            assert(spec_is_digit(c) || c == '.' || c == '-');
        }
    }
    if written == plain {
        lemma_clean_plain(plain);
    } else {
        lemma_clean_with_commas(plain);
    }
    assert(spec_clean(written) == plain);
    let text = before + written + after;
    lemma_clean_concat(before + written, after);
    lemma_clean_concat(before, written);
    lemma_clean_noise(before);
    lemma_clean_noise(after);
    assert(!spec_is_whitespace(plain[0]) && !spec_is_whitespace(plain.last())) by {
        let first = plain[0];
        let last = plain.last();
        assert(spec_is_digit(first) || first == '.' || first == '-');
        assert(spec_is_digit(last) || last == '.' || last == '-');
    }
    lemma_trim_padded(spec_clean(before), plain, spec_clean(after));
    assert(lacks(text, '/')) by {
        assert forall|i: int| 0 <= i < text.len() implies text[i] != '/' by {
            if i < before.len() {
                assert(text[i] == before[i]);
                assert(spec_is_whitespace(before[i]) || before[i] == '€');
            } else if i < before.len() + written.len() {
                let k = i - before.len();
                assert(text[i] == written[k]);
                assert(plain[k] != '/');
            } else {
                let k = i - before.len() - written.len();
                assert(text[i] == after[k]);
                assert(spec_is_whitespace(after[k]) || after[k] == '€');
            }
        }
    }
}

/// Three amounts, each written in one of its ways and with slashes between
/// them, are read back as they are: students, employees, guests.
pub proof fn lemma_three_amounts(
    first: Seq<char>,
    second: Seq<char>,
    third: Seq<char>,
    students: Decimal,
    employees: Decimal,
    guests: Decimal,
)
    requires
        spec_writes(first, students),
        spec_writes(second, employees),
        spec_writes(third, guests),
    ensures
        spec_parse_prices(first + seq!['/'] + second + seq!['/'] + third) == Some(
            Prices { students, employees, guests },
        ),
{
    let slash = seq!['/'];
    let text = first + slash + second + slash + third;
    let a = spec_clean(first);
    let b = spec_clean(second);
    let c = spec_clean(third);
    assert(spec_clean(slash) =~= slash) by {
        reveal_with_fuel(spec_clean, 2);
        assert(slash.drop_last() =~= Seq::<char>::empty());
    }
    lemma_clean_concat(first + slash + second + slash, third);
    lemma_clean_concat(first + slash + second, slash);
    lemma_clean_concat(first + slash, second);
    lemma_clean_concat(first, slash);
    assert(spec_clean(text) == a + slash + b + slash + c);
    lemma_clean_lacks_slash(first);
    lemma_clean_lacks_slash(second);
    lemma_clean_lacks_slash(third);
    lemma_split_whole(a, '/');
    lemma_split_last(a, b, '/');
    lemma_split_last(a + slash + b, c, '/');
    let parts = spec_split(spec_clean(text), '/');
    assert(parts =~= seq![a, b, c]);
    assert(parts.drop_last() =~= seq![a, b]);
    assert(parts.drop_last().drop_last() =~= seq![a]);
    assert(parts.drop_last().drop_last().drop_last() =~= Seq::<Seq<char>>::empty());
    assert(spec_amounts(seq![a]) == Some(seq![students])) by {
        reveal_with_fuel(spec_amounts, 2);
        assert(seq![a].drop_last() =~= Seq::<Seq<char>>::empty());
        assert(Seq::<Decimal>::empty().push(students) =~= seq![students]);
    }
    assert(spec_amounts(seq![a, b]) == Some(seq![students, employees])) by {
        assert(seq![students].push(employees) =~= seq![students, employees]);
    }
    assert(spec_amounts(parts) == Some(seq![students, employees, guests])) by {
        assert(seq![students, employees].push(guests) =~= seq![students, employees, guests]);
    }
}

/// Prices that are written out and read again are the same prices, whether
/// written with points or commas and whatever noise stands around the amounts.
pub proof fn lemma_prices_round_trip(prices: Prices)
    ensures
        spec_parse_prices(prices.spec_to_text()) == Some(prices),
{
    let none = Seq::<char>::empty();
    lemma_noise_is_ignored(prices.students, none, prices.students.spec_to_text(), none);
    lemma_noise_is_ignored(prices.employees, none, prices.employees.spec_to_text(), none);
    lemma_noise_is_ignored(prices.guests, none, prices.guests.spec_to_text(), none);
    assert(none + prices.students.spec_to_text() + none =~= prices.students.spec_to_text());
    assert(none + prices.employees.spec_to_text() + none =~= prices.employees.spec_to_text());
    assert(none + prices.guests.spec_to_text() + none =~= prices.guests.spec_to_text());
    lemma_three_amounts(
        prices.students.spec_to_text(),
        prices.employees.spec_to_text(),
        prices.guests.spec_to_text(),
        prices.students,
        prices.employees,
        prices.guests,
    );
}

} // verus!
