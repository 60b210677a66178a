//! Loudness-normalization values and their text: a gain is written with a
//! sign, two decimals and the unit `dB`, a peak with six decimals and no unit.
//! Values are fixed-point numbers of millionths, within nine million million
//! of zero either way.

use vstd::prelude::*;
use crate::decimal::{
    all_digits, decimal_text, digit_value, digits_value, is_digit, lemma_decimal_text,
    lemma_digits_value_prefix, lemma_padded_text, lemma_pow10_small, padded_text, pow10,
    push_decimal, push_padded, read_digits, value_of,
};
use crate::text::{chars_of, string_of};

verus! {

/// Millionths in one.
pub const MILLION: u64 = 1_000_000;

/// The largest whole part that a value can have.
pub const MAX_WHOLE: u64 = 9_000_000_000_000;

/// The largest size that a value can have, in millionths.
pub const MAX_MILLIONTHS: i64 = 9_000_000_000_000_000_000;

/// A gain in decibels, or a peak amplitude, as a whole number of millionths.
#[derive(Debug, Clone, Copy, PartialEq, Eq, Structural)]
pub struct GainValue {
    pub millionths: i64,
}

impl GainValue {
    /// A value lies within `MAX_MILLIONTHS` of zero, either way.
    pub open spec fn wf(self) -> bool {
        -MAX_MILLIONTHS <= self.millionths <= MAX_MILLIONTHS
    }

    /// Whether the value lies within `MAX_MILLIONTHS` of zero.
    pub fn is_valid(&self) -> (r: bool)
        ensures
            r == self.wf(),
    {
        -MAX_MILLIONTHS <= self.millionths && self.millionths <= MAX_MILLIONTHS
    }

    /// The value of a number of millionths; none beyond `MAX_MILLIONTHS`.
    pub fn new(millionths: i64) -> (r: Option<GainValue>)
        ensures
            r is Some <==> -MAX_MILLIONTHS <= millionths <= MAX_MILLIONTHS,
            r is Some ==> r->0.millionths == millionths && r->0.wf(),
    {
        if -MAX_MILLIONTHS <= millionths && millionths <= MAX_MILLIONTHS {
            Some(GainValue { millionths })
        } else {
            None
        }
    }
}

/// Whether a character is white space.
pub open spec fn is_space(c: char) -> bool {
    let u = c as u32;
    (0x09 <= u <= 0x0D) || u == 0x20 || u == 0x85 || u == 0xA0 || u == 0x1680 || (0x2000 <= u
        <= 0x200A) || u == 0x2028 || u == 0x2029 || u == 0x202F || u == 0x205F || u == 0x3000
}

/// A text without the white space in front of it.
pub open spec fn spec_trim_start(s: Seq<char>) -> Seq<char>
    decreases s.len(),
{
    if s.len() > 0 && is_space(s[0]) {
        spec_trim_start(s.drop_first())
    } else {
        s
    }
}

/// A text without the white space behind it.
pub open spec fn spec_trim_end(s: Seq<char>) -> Seq<char>
    decreases s.len(),
{
    if s.len() > 0 && is_space(s.last()) {
        spec_trim_end(s.drop_last())
    } else {
        s
    }
}

/// A text without the white space around it.
pub open spec fn spec_trim(s: Seq<char>) -> Seq<char> {
    spec_trim_end(spec_trim_start(s))
}

/// A text without the two characters `first`, `second` at its end, as often
/// as they stand there.
pub open spec fn spec_strip_unit(s: Seq<char>, first: char, second: char) -> Seq<char>
    decreases s.len(),
{
    if s.len() >= 2 && s[s.len() - 2] == first && s[s.len() - 1] == second {
        spec_strip_unit(s.take(s.len() - 2), first, second)
    } else {
        s
    }
}

/// The part of a stored text that writes the number: the text without the
/// white space around it, without the unit `dB` and then the unit `db` at its
/// end, and without the white space that this leaves around it.
pub open spec fn spec_number_text(s: Seq<char>) -> Seq<char> {
    spec_trim(spec_strip_unit(spec_strip_unit(spec_trim(s), 'd', 'B'), 'd', 'b'))
}

/// The place of the first `.` in a text; the text's length where it has none.
pub open spec fn spec_find_dot(s: Seq<char>) -> int
    decreases s.len(),
{
    if s.len() == 0 || s[0] == '.' {
        0
    } else {
        1 + spec_find_dot(s.drop_first())
    }
}

/// The first six digits of a fraction, with zeros where it has fewer.
pub open spec fn spec_six_digits(frac: Seq<char>) -> Seq<char> {
    Seq::new(
        6,
        |j: int|
            if j < frac.len() {
                frac[j]
            } else {
                '0'
            },
    )
}

/// The millionths that a fraction's digits write, rounded to the nearest
/// millionth, halves away from zero.
pub open spec fn spec_fraction_millionths(frac: Seq<char>) -> nat {
    digits_value(spec_six_digits(frac)) + if frac.len() > 6 && digit_value(frac[6]) >= 5 {
        1nat
    } else {
        0nat
    }
}

/// The digits in front of the `.` of an unsigned decimal text.
pub open spec fn spec_whole_part(body: Seq<char>) -> Seq<char> {
    body.take(spec_find_dot(body))
}

/// The digits behind the `.` of an unsigned decimal text.
pub open spec fn spec_fraction_part(body: Seq<char>) -> Seq<char> {
    if spec_find_dot(body) < body.len() {
        body.skip(spec_find_dot(body) + 1)
    } else {
        Seq::empty()
    }
}

/// Whether an unsigned text writes a decimal number: digits, with one `.`
/// among them or not, and one digit at least.
pub open spec fn spec_is_decimal(body: Seq<char>) -> bool {
    &&& all_digits(spec_whole_part(body))
    &&& all_digits(spec_fraction_part(body))
    &&& spec_whole_part(body).len() + spec_fraction_part(body).len() > 0
}

/// The millionths that an unsigned decimal text writes.
pub open spec fn spec_magnitude(body: Seq<char>) -> nat {
    digits_value(spec_whole_part(body)) * 1_000_000 + spec_fraction_millionths(
        spec_fraction_part(body),
    )
}

/// Whether a text begins with a sign.
pub open spec fn spec_has_sign(s: Seq<char>) -> bool {
    s.len() > 0 && (s[0] == '+' || s[0] == '-')
}

/// A text without its sign.
pub open spec fn spec_unsigned(s: Seq<char>) -> Seq<char> {
    if spec_has_sign(s) {
        s.drop_first()
    } else {
        s
    }
}

/// The millionths that a signed decimal text writes.
pub open spec fn spec_signed_value(s: Seq<char>) -> int {
    if s.len() > 0 && s[0] == '-' {
        -(spec_magnitude(spec_unsigned(s)) as int)
    } else {
        spec_magnitude(spec_unsigned(s)) as int
    }
}

/// The value that a decimal text writes, in millionths: a sign or none, then
/// a decimal number, where that lies within `MAX_MILLIONTHS` of zero. None
/// for any other text.
pub open spec fn spec_parse_decimal(s: Seq<char>) -> Option<int> {
    if spec_is_decimal(spec_unsigned(s)) && spec_magnitude(spec_unsigned(s)) <= MAX_MILLIONTHS {
        Some(spec_signed_value(s))
    } else {
        None
    }
}

/// The value that a stored text gives: that of its number part.
pub open spec fn spec_parse_replaygain(s: Seq<char>) -> Option<int> {
    spec_parse_decimal(spec_number_text(s))
}

/// The size of a value, whatever its sign.
pub open spec fn spec_abs(v: int) -> nat {
    if v < 0 {
        (-v) as nat
    } else {
        v as nat
    }
}

/// A number of units, rounded to the nearest whole number of `unit`s, halves
/// to the even one.
pub open spec fn spec_round_half_even(m: nat, unit: nat) -> nat {
    let q = m / unit;
    let r = m % unit;
    if 2 * r > unit || (2 * r == unit && q % 2 == 1) {
        q + 1
    } else {
        q
    }
}

/// The hundredths nearest to a number of millionths, whatever its sign.
pub open spec fn spec_hundredths(v: int) -> nat {
    spec_round_half_even(spec_abs(v), 10_000)
}

/// The value that a gain is written as: the value itself, rounded to
/// hundredths.
pub open spec fn spec_rounded_gain(v: int) -> int {
    if v < 0 {
        -(spec_hundredths(v) * 10_000) as int
    } else {
        (spec_hundredths(v) * 10_000) as int
    }
}

/// A sign, a whole part, a `.` and a fraction of `width` digits.
pub open spec fn spec_signed_text(sign: Seq<char>, whole: nat, frac: nat, width: nat) -> Seq<
    char,
> {
    sign + decimal_text(whole) + seq!['.'] + padded_text(frac, width)
}

/// The text of a gain: the sign, always shown, `-` for a value below zero
/// and `+` for any other; the hundredths nearest to the value with two
/// decimals; a space and the unit `dB`.
pub open spec fn spec_format_gain(v: int) -> Seq<char> {
    let h = spec_hundredths(v);
    spec_signed_text(
        if v < 0 {
            seq!['-']
        } else {
            seq!['+']
        },
        h / 100,
        h % 100,
        2,
    ) + seq![' ', 'd', 'B']
}

/// The text of a peak: a `-` for a value below zero, and the value with six
/// decimals.
pub open spec fn spec_format_peak(v: int) -> Seq<char> {
    spec_signed_text(
        if v < 0 {
            seq!['-']
        } else {
            Seq::empty()
        },
        spec_abs(v) / 1_000_000,
        spec_abs(v) % 1_000_000,
        6,
    )
}

/// Whether a character is white space.
pub fn is_space_char(c: char) -> (r: bool)
    ensures
        r == is_space(c),
{
    let u: u32 = c as u32;
    (0x09 <= u && u <= 0x0D) || u == 0x20 || u == 0x85 || u == 0xA0 || u == 0x1680 || (0x2000 <= u
        && u <= 0x200A) || u == 0x2028 || u == 0x2029 || u == 0x202F || u == 0x205F || u == 0x3000
}

/// Takes the white space behind a text away.
fn trim_end(text: &mut Vec<char>)
    ensures
        final(text)@ == spec_trim_end(old(text)@),
{
    while text.len() > 0 && is_space_char(text[text.len() - 1])
        invariant
            spec_trim_end(text@) == spec_trim_end(old(text)@),
        decreases text@.len(),
    {
        let ghost before = text@;
        text.pop();
        assert(text@ =~= before.drop_last());
    }
}

/// Takes the unit `first`, `second` away from the end of a text, as often as
/// it stands there.
fn strip_unit(text: &mut Vec<char>, first: char, second: char)
    ensures
        final(text)@ == spec_strip_unit(old(text)@, first, second),
{
    while text.len() >= 2 && text[text.len() - 2] == first && text[text.len() - 1] == second
        invariant
            spec_strip_unit(text@, first, second) == spec_strip_unit(old(text)@, first, second),
        decreases text@.len(),
    {
        let ghost before = text@;
        text.pop();
        text.pop();
        assert(text@ =~= before.take(before.len() - 2));
    }
}

/// The text without the white space in front of it.
fn trim_start(text: &Vec<char>) -> (r: Vec<char>)
    ensures
        r@ == spec_trim_start(text@),
{
    let mut i: usize = 0;
    assert(text@.skip(0) =~= text@);
    while i < text.len() && is_space_char(text[i])
        invariant
            i <= text@.len(),
            spec_trim_start(text@.skip(i as int)) == spec_trim_start(text@),
        decreases text@.len() - i,
    {
        assert(text@.skip(i as int).drop_first() =~= text@.skip(i as int + 1));
        i += 1;
    }
    let mut out: Vec<char> = Vec::new();
    let mut j: usize = i;
    while j < text.len()
        invariant
            i <= j <= text@.len(),
            out@ == text@.subrange(i as int, j as int),
        decreases text@.len() - j,
    {
        out.push(text[j]);
        j += 1;
        assert(out@ =~= text@.subrange(i as int, j as int));
    }
    assert(out@ =~= text@.skip(i as int));
    out
}

/// The part of a stored text that writes the number.
pub fn number_text(text: &str) -> (r: Vec<char>)
    ensures
        r@ == spec_number_text(text@),
{
    let chars = chars_of(text);
    let mut work = trim_start(&chars);
    trim_end(&mut work);
    strip_unit(&mut work, 'd', 'B');
    strip_unit(&mut work, 'd', 'b');
    let mut out = trim_start(&work);
    trim_end(&mut out);
    out
}

/// The first `.` of a text stands where no `.` stands before and one stands,
/// or the text ends.
pub proof fn lemma_find_dot_at(s: Seq<char>, k: int)
    requires
        0 <= k <= s.len(),
        forall|i: int| 0 <= i < k ==> s[i] != '.',
        k == s.len() || s[k] == '.',
    ensures
        spec_find_dot(s) == k,
    decreases k,
{
    if k > 0 {
        lemma_find_dot_at(s.drop_first(), k - 1);
    }
}

/// The first `.` of a text stands behind every place that no `.` stands up
/// to, and within the text or at its end.
pub proof fn lemma_find_dot_range(s: Seq<char>, k: int)
    requires
        0 <= k <= s.len(),
        forall|i: int| 0 <= i < k ==> s[i] != '.',
    ensures
        k <= spec_find_dot(s) <= s.len(),
    decreases s.len(),
{
    if s.len() == 0 || s[0] == '.' {
    } else if k == 0 {
        lemma_find_dot_range(s.drop_first(), 0);
    } else {
        lemma_find_dot_range(s.drop_first(), k - 1);
    }
}

/// Reads the six digits that stand for a fraction: those of `s` from `start`
/// on as far as there are any, then zeros. Gives their value, or none where
/// a character among them is no digit.
fn read_six_digits(s: &Vec<char>, start: usize) -> (r: Option<u64>)
    requires
        start <= s@.len(),
    ensures
        r is Some <==> (forall|i: int|
            0 <= i < 6 && i < s@.len() - start ==> is_digit(#[trigger] s@[start + i])),
        r is Some ==> r->0 == digits_value(spec_six_digits(s@.skip(start as int))),
        r is Some ==> r->0 < 1_000_000,
{
    let ghost frac = s@.skip(start as int);
    let ghost six = spec_six_digits(frac);
    let mut acc: u64 = 0;
    let mut j: usize = 0;
    proof {
        assert(six.take(0) =~= Seq::<char>::empty());
        lemma_pow10_small(0);
    }
    while j < 6
        invariant
            j <= 6,
            start <= s@.len(),
            frac == s@.skip(start as int),
            six == spec_six_digits(frac),
            all_digits(six.take(j as int)),
            acc == digits_value(six.take(j as int)),
            acc < pow10(j as nat),
        decreases 6 - j,
    {
        let d: u8 = if j < s.len() - start {
            match value_of(s[start + j]) {
                Some(d) => d,
                None => {
                    proof {
                        assert(!is_digit(s@[start + j]));
                    }
                    return None;
                },
            }
        } else {
            0
        };
        proof {
            let longer = six.take(j as int + 1);
            assert(longer.drop_last() =~= six.take(j as int));
            assert(longer.last() == six[j as int]);
            if j < frac.len() {
                assert(six[j as int] == s@[start + j]);
            }
            assert(digit_value(longer.last()) == d);
            assert forall|i: int| 0 <= i < longer.len() implies is_digit(#[trigger] longer[i]) by {
                if i < j {
                    assert(longer[i] == six.take(j as int)[i]);
                }
            }
            lemma_pow10_small(j as nat);
            lemma_pow10_small((j + 1) as nat);
        }
        acc = acc * 10 + d as u64;
        j += 1;
    }
    proof {
        assert(six.take(6) =~= six);
        lemma_pow10_small(6);
        assert forall|i: int| 0 <= i < 6 && i < s@.len() - start implies is_digit(
            #[trigger] s@[start + i],
        ) by {
            assert(six[i] == frac[i]);
            assert(is_digit(six[i]));
        }
    }
    Some(acc)
}

/// Whether every character of `s` from `start` on is a digit.
fn digits_to_end(s: &Vec<char>, start: usize) -> (r: bool)
    requires
        start <= s@.len(),
    ensures
        r == all_digits(s@.skip(start as int)),
{
    let mut i: usize = start;
    while i < s.len()
        invariant
            start <= i <= s@.len(),
            forall|k: int| start <= k < i ==> is_digit(#[trigger] s@[k]),
        decreases s@.len() - i,
    {
        if value_of(s[i]).is_none() {
            assert(s@.skip(start as int)[i - start] == s@[i as int]);
            return false;
        }
        i += 1;
    }
    assert forall|k: int| 0 <= k < s@.skip(start as int).len() implies is_digit(
        #[trigger] s@.skip(start as int)[k],
    ) by {
        assert(s@.skip(start as int)[k] == s@[start + k]);
    }
    true
}

/// The value that a decimal text writes, if it writes one.
#[verifier::rlimit(60)]
pub fn parse_decimal(s: &Vec<char>) -> (r: Option<GainValue>)
    ensures
        match spec_parse_decimal(s@) {
            Some(v) => r == Some(GainValue { millionths: v as i64 }) && -MAX_MILLIONTHS <= v
                <= MAX_MILLIONTHS,
            None => r is None,
        },
{
    let n = s.len();
    let negative = n > 0 && s[0] == '-';
    let start: usize = if n > 0 && (s[0] == '+' || s[0] == '-') {
        1
    } else {
        0
    };
    let ghost body = spec_unsigned(s@);
    proof {
        assert(body =~= s@.skip(start as int));
    }
    let (whole, end) = match read_digits(s, start, MAX_WHOLE) {
        Some(found) => found,
        None => {
            proof {
                let e = choose|e: int|
                    start <= e <= s@.len() && all_digits(s@.subrange(start as int, e))
                        && #[trigger] digits_value(s@.subrange(start as int, e)) > MAX_WHOLE;
                let prefix = s@.subrange(start as int, e);
                assert forall|i: int| 0 <= i < e - start implies body[i] != '.' by {
                    assert(body[i] == prefix[i]);
                    assert(is_digit(prefix[i]));
                }
                lemma_find_dot_range(body, e - start);
                let whole_part = spec_whole_part(body);
                if all_digits(whole_part) {
                    assert(whole_part.take(e - start) =~= prefix);
                    lemma_digits_value_prefix(whole_part, e - start);
                    assert(digits_value(whole_part) >= 9_000_000_000_001);
                    assert(spec_magnitude(body) >= 9_000_000_000_001_000_000);
                }
            }
            return None;
        },
    };
    let ghost digits = s@.subrange(start as int, end as int);
    proof {
        assert forall|i: int| 0 <= i < end - start implies body[i] != '.' by {
            assert(body[i] == digits[i]);
            assert(is_digit(digits[i]));
        }
    }
    let frac_start: usize = if end == n {
        proof {
            lemma_find_dot_at(body, end - start);
        }
        n
    } else if s[end] == '.' {
        proof {
            assert(body[end - start] == s@[end as int]);
            lemma_find_dot_at(body, end - start);
        }
        end + 1
    } else {
        proof {
            assert(body[end - start] == s@[end as int]);
            lemma_find_dot_range(body, end - start + 1);
            let whole_part = spec_whole_part(body);
            assert(whole_part[end - start] == s@[end as int]);
        }
        return None;
    };
    let ghost frac = spec_fraction_part(body);
    proof {
        assert(spec_whole_part(body) =~= digits);
        assert(frac =~= s@.skip(frac_start as int));
    }
    if !digits_to_end(s, frac_start) {
        return None;
    }
    if (end - start) + (n - frac_start) == 0 {
        return None;
    }
    let six = match read_six_digits(s, frac_start) {
        Some(v) => v,
        None => {
            proof {
                let i = choose|i: int|
                    0 <= i < 6 && i < s@.len() - frac_start && !is_digit(
                        #[trigger] s@[frac_start + i],
                    );
                assert(frac[i] == s@[frac_start + i]);
            }
            return None;
        },
    };
    let round_up: u64 = if n - frac_start > 6 {
        match value_of(s[frac_start + 6]) {
            Some(d) => if d >= 5 {
                1
            } else {
                0
            },
            None => {
                proof {
                    assert(frac[6] == s@[frac_start + 6]);
                }
                return None;
            },
        }
    } else {
        0
    };
    proof {
        if frac.len() > 6 {
            assert(frac[6] == s@[frac_start + 6]);
        }
        assert(whole * 1_000_000 <= 9_000_000_000_000_000_000) by (nonlinear_arith)
            requires
                whole <= 9_000_000_000_000,
        ;
    }
    let magnitude: u64 = whole * MILLION + six + round_up;
    assert(magnitude == spec_magnitude(body));
    assert(spec_is_decimal(body));
    assert(negative == (s@.len() > 0 && s@[0] == '-'));
    assert(spec_signed_value(s@) == if negative {
        -(magnitude as int)
    } else {
        magnitude as int
    });
    if magnitude > MAX_MILLIONTHS as u64 {
        None
    } else if negative {
        Some(GainValue { millionths: -(magnitude as i64) })
    } else {
        Some(GainValue { millionths: magnitude as i64 })
    }
}

/// The value that a stored text gives: that of its number part, where that
/// part writes a decimal number, and none otherwise.
pub fn parse_replaygain_value(value: &str) -> (r: Option<GainValue>)
    ensures
        match spec_parse_replaygain(value@) {
            Some(v) => r == Some(GainValue { millionths: v as i64 }) && -MAX_MILLIONTHS <= v
                <= MAX_MILLIONTHS,
            None => r is None,
        },
        r is Some ==> r->0.wf(),
{
    let chars = number_text(value);
    parse_decimal(&chars)
}

/// The size of a value, whatever its sign.
fn magnitude_of(value: GainValue) -> (m: u64)
    requires
        value.wf(),
    ensures
        m == spec_abs(value.millionths as int),
        m <= MAX_MILLIONTHS,
{
    if value.millionths >= 0 {
        value.millionths as u64
    } else {
        (-value.millionths) as u64
    }
}

/// The text of a gain in decibels: sign, two decimals, the unit `dB`.
pub fn format_replaygain_gain(value: GainValue) -> (r: String)
    requires
        value.wf(),
    ensures
        r@ == spec_format_gain(value.millionths as int),
{
    let m = magnitude_of(value);
    let q = m / 10_000;
    let rest = m % 10_000;
    let h: u64 = if rest > 5_000 || (rest == 5_000 && q % 2 == 1) {
        q + 1
    } else {
        q
    };
    let mut out: Vec<char> = Vec::new();
    if value.millionths < 0 {
        out.push('-');
    } else {
        out.push('+');
    }
    push_decimal(&mut out, h / 100);
    out.push('.');
    push_padded(&mut out, h % 100, 2);
    out.push(' ');
    out.push('d');
    out.push('B');
    assert(out@ =~= spec_format_gain(value.millionths as int));
    string_of(&out)
}

/// The text of a peak amplitude: six decimals, no unit.
pub fn format_replaygain_peak(value: GainValue) -> (r: String)
    requires
        value.wf(),
    ensures
        r@ == spec_format_peak(value.millionths as int),
{
    let m = magnitude_of(value);
    let mut out: Vec<char> = Vec::new();
    if value.millionths < 0 {
        out.push('-');
    }
    push_decimal(&mut out, m / MILLION);
    out.push('.');
    push_padded(&mut out, m % MILLION, 6);
    assert(out@ =~= spec_format_peak(value.millionths as int));
    string_of(&out)
}

/// A text of `k` zeros.
pub open spec fn spec_zeros(k: nat) -> Seq<char> {
    Seq::new(k, |i: int| '0')
}

/// Zeros behind a text of digits multiply its number by a power of ten.
proof fn lemma_zeros_behind(s: Seq<char>, k: nat)
    ensures
        digits_value(s + spec_zeros(k)) == digits_value(s) * pow10(k),
    decreases k,
{
    let padded = s + spec_zeros(k);
    let v = digits_value(s);
    if k == 0 {
        assert(padded =~= s);
        assert(pow10(0) == 1);
        assert(v * 1 == v);
    } else {
        let shorter = (k - 1) as nat;
        lemma_zeros_behind(s, shorter);
        assert(padded.drop_last() =~= s + spec_zeros(shorter));
        assert(padded.last() == '0');
        assert(digit_value('0') == 0);
        let p = pow10(shorter);
        assert(pow10(k) == 10 * p);
        assert(digits_value(padded) == v * p * 10);
        assert(v * p * 10 == v * (10 * p)) by (nonlinear_arith);
    }
}

/// The six digits that stand for a fraction of at most six digits write the
/// fraction's number times the power of ten that fills it up.
proof fn lemma_six_digits(frac: Seq<char>)
    requires
        frac.len() <= 6,
    ensures
        digits_value(spec_six_digits(frac)) == digits_value(frac) * pow10(
            (6 - frac.len()) as nat,
        ),
{
    let k = (6 - frac.len()) as nat;
    lemma_zeros_behind(frac, k);
    assert(spec_six_digits(frac) =~= frac + spec_zeros(k));
}

/// A text that neither begins with white space nor ends with it or with a
/// unit is its own number part.
proof fn lemma_number_text_plain(t: Seq<char>)
    requires
        t.len() > 0,
        !is_space(t[0]),
        is_digit(t.last()),
    ensures
        spec_number_text(t) == t,
{
    assert(spec_trim_start(t) == t);
    assert(spec_trim_end(t) == t);
    assert(spec_strip_unit(t, 'd', 'B') == t);
    assert(spec_strip_unit(t, 'd', 'b') == t);
}

/// A text as above with a space and the unit `dB` behind it has the text as
/// its number part.
proof fn lemma_number_text_unit(t: Seq<char>)
    requires
        t.len() > 0,
        !is_space(t[0]),
        is_digit(t.last()),
    ensures
        spec_number_text(t + seq![' ', 'd', 'B']) == t,
{
    let x = t + seq![' ', 'd', 'B'];
    let y = t + seq![' '];
    assert(x[0] == t[0]);
    assert(x.last() == 'B');
    assert(spec_trim_start(x) == x);
    assert(spec_trim_end(x) == x);
    assert(x.take(x.len() - 2) =~= y);
    assert(y.last() == ' ');
    assert(spec_strip_unit(y, 'd', 'B') == y);
    assert(spec_strip_unit(x, 'd', 'B') == y);
    assert(spec_strip_unit(y, 'd', 'b') == y);
    assert(y[0] == t[0]);
    assert(spec_trim_start(y) == y);
    assert(y.drop_last() =~= t);
    assert(is_space(' '));
    assert(spec_trim_end(t) == t);
    assert(spec_trim_end(y) == t);
}

/// What a signed text of a whole part and a fraction of `width` digits
/// writes: the whole part and the fraction, filled up to millionths, with the
/// sign of the text.
proof fn lemma_parse_signed_text(sign: Seq<char>, whole: nat, frac: nat, width: nat)
    requires
        sign == Seq::<char>::empty() || sign == seq!['+'] || sign == seq!['-'],
        1 <= width <= 6,
        frac < pow10(width),
        whole * 1_000_000 + frac * pow10((6 - width) as nat) <= MAX_MILLIONTHS,
    ensures
        spec_signed_text(sign, whole, frac, width).len() > 0,
        !is_space(spec_signed_text(sign, whole, frac, width)[0]),
        is_digit(spec_signed_text(sign, whole, frac, width).last()),
        spec_parse_decimal(spec_signed_text(sign, whole, frac, width)) == Some(
            if sign == seq!['-'] {
                -((whole * 1_000_000 + frac * pow10((6 - width) as nat)) as int)
            } else {
                (whole * 1_000_000 + frac * pow10((6 - width) as nat)) as int
            },
        ),
{
    let t = spec_signed_text(sign, whole, frac, width);
    let w = decimal_text(whole);
    let f = padded_text(frac, width);
    let body = w + seq!['.'] + f;
    lemma_decimal_text(whole);
    lemma_padded_text(frac, width);
    assert(t =~= sign + body);
    assert(is_digit(w[0]));
    assert(is_digit(f.last()));
    assert(t.last() == f.last());
    if sign.len() == 0 {
        assert(t =~= body);
        assert(t[0] == w[0]);
        assert(spec_unsigned(t) == body);
    } else {
        assert(t[0] == sign[0]);
        assert(t.drop_first() =~= body);
        assert(spec_unsigned(t) == body);
    }
    assert forall|i: int| 0 <= i < w.len() implies body[i] != '.' by {
        assert(body[i] == w[i]);
        assert(is_digit(w[i]));
    }
    assert(body[w.len() as int] == '.');
    lemma_find_dot_at(body, w.len() as int);
    assert(spec_whole_part(body) =~= w);
    assert(spec_fraction_part(body) =~= f);
    lemma_six_digits(f);
    vstd::arithmetic::div_mod::lemma_small_mod(frac, pow10(width));
    assert(spec_magnitude(body) == whole * 1_000_000 + frac * pow10((6 - width) as nat));
}

/// Decoding an encoded peak gives the value back, to the millionth.
pub proof fn lemma_peak_round_trip(v: i64)
    requires
        -MAX_MILLIONTHS <= v <= MAX_MILLIONTHS,
    ensures
        spec_parse_replaygain(spec_format_peak(v as int)) == Some(v as int),
{
    let m = spec_abs(v as int);
    let sign = if v < 0 {
        seq!['-']
    } else {
        Seq::<char>::empty()
    };
    lemma_pow10_small(6);
    assert(pow10(0) == 1);
    let whole = m / 1_000_000;
    let frac = m % 1_000_000;
    vstd::arithmetic::div_mod::lemma_fundamental_div_mod(m as int, 1_000_000);
    assert(frac * pow10(0) == frac) by (nonlinear_arith)
        requires
            pow10(0) == 1,
    ;
    lemma_parse_signed_text(sign, whole, frac, 6);
    lemma_number_text_plain(spec_format_peak(v as int));
}

/// The hundredths nearest to a value lie within half a hundredth of it, and
/// within `MAX_MILLIONTHS` of zero where the value does.
pub proof fn lemma_rounded_gain_is_near(v: i64)
    ensures
        -5_000 <= spec_rounded_gain(v as int) - v <= 5_000,
        v % 10_000 == 0 ==> spec_rounded_gain(v as int) == v,
        -MAX_MILLIONTHS <= v <= MAX_MILLIONTHS ==> -MAX_MILLIONTHS <= spec_rounded_gain(v as int)
            <= MAX_MILLIONTHS,
{
    let m = spec_abs(v as int);
    vstd::arithmetic::div_mod::lemma_fundamental_div_mod(m as int, 10_000);
    if v % 10_000 == 0 {
        if v < 0 {
            assert(m % 10_000 == 0) by {
                vstd::arithmetic::div_mod::lemma_fundamental_div_mod(v as int, 10_000);
                vstd::arithmetic::div_mod::lemma_fundamental_div_mod_converse(
                    m as int,
                    10_000,
                    -((v as int) / 10_000),
                    0,
                );
            }
        }
    }
}

/// Decoding an encoded gain gives the value back, rounded to hundredths.
pub proof fn lemma_gain_round_trip(v: i64)
    requires
        -MAX_MILLIONTHS <= v <= MAX_MILLIONTHS,
    ensures
        spec_parse_replaygain(spec_format_gain(v as int)) == Some(spec_rounded_gain(v as int)),
{
    lemma_rounded_gain_is_near(v);
    let h = spec_hundredths(v as int);
    let sign = if v < 0 {
        seq!['-']
    } else {
        seq!['+']
    };
    lemma_pow10_small(2);
    lemma_pow10_small(4);
    vstd::arithmetic::div_mod::lemma_fundamental_div_mod(h as int, 100);
    assert((h / 100) * 1_000_000 + (h % 100) * 10_000 == h * 10_000) by (nonlinear_arith)
        requires
            h == 100 * (h / 100) + h % 100,
    ;
    lemma_parse_signed_text(sign, h / 100, h % 100, 2);
    lemma_number_text_unit(spec_signed_text(sign, h / 100, h % 100, 2));
}

} // verus!
