//! Decimal digits: the text of a natural number, and the number of a text.

use vstd::prelude::*;

verus! {

/// Whether a character is one of the ten ASCII digits.
pub open spec fn is_digit(c: char) -> bool {
    '0' <= c && c <= '9'
}

/// The value of a digit.
pub open spec fn digit_value(c: char) -> nat {
    (c as int - '0' as int) as nat
}

/// The digit of a value below ten.
pub open spec fn digit_char(d: nat) -> char {
    if d == 0 {
        '0'
    } else if d == 1 {
        '1'
    } else if d == 2 {
        '2'
    } else if d == 3 {
        '3'
    } else if d == 4 {
        '4'
    } else if d == 5 {
        '5'
    } else if d == 6 {
        '6'
    } else if d == 7 {
        '7'
    } else if d == 8 {
        '8'
    } else {
        '9'
    }
}

/// Whether every character of a text is a digit.
pub open spec fn all_digits(s: Seq<char>) -> bool {
    forall|i: int| 0 <= i < s.len() ==> is_digit(#[trigger] s[i])
}

/// The number that a text of digits writes, most significant digit first;
/// zero for the empty text.
pub open spec fn digits_value(s: Seq<char>) -> nat
    decreases s.len(),
{
    if s.len() == 0 {
        0
    } else {
        digits_value(s.drop_last()) * 10 + digit_value(s.last())
    }
}

/// The shortest text of digits that writes a number.
pub open spec fn decimal_text(n: nat) -> Seq<char>
    decreases n,
{
    if n < 10 {
        seq![digit_char(n)]
    } else {
        decimal_text(n / 10).push(digit_char(n % 10))
    }
}

/// The last `width` digits of a number, with zeros in front where the number
/// has fewer.
pub open spec fn padded_text(n: nat, width: nat) -> Seq<char>
    decreases width,
{
    if width == 0 {
        Seq::empty()
    } else {
        padded_text(n / 10, (width - 1) as nat).push(digit_char(n % 10))
    }
}

/// Ten to the power of `e`.
pub open spec fn pow10(e: nat) -> nat
    decreases e,
{
    if e == 0 {
        1
    } else {
        10 * pow10((e - 1) as nat)
    }
}

/// The number that a text writes as an unsigned 32-bit integer: digits, with
/// a `+` in front of them or not, that write a number within range.
pub open spec fn spec_parse_u32(s: Seq<char>) -> Option<u32> {
    let body = if s.len() > 0 && s[0] == '+' {
        s.drop_first()
    } else {
        s
    };
    if body.len() > 0 && all_digits(body) && digits_value(body) <= u32::MAX {
        Some(digits_value(body) as u32)
    } else {
        None
    }
}

/// A digit and its value undo each other.
pub proof fn lemma_digit_round_trip(d: nat)
    requires
        d < 10,
    ensures
        is_digit(digit_char(d)),
        digit_value(digit_char(d)) == d,
{
}

/// The text of a number is made of digits and writes the number.
pub proof fn lemma_decimal_text(n: nat)
    ensures
        decimal_text(n).len() >= 1,
        all_digits(decimal_text(n)),
        digits_value(decimal_text(n)) == n,
    decreases n,
{
    if n < 10 {
        lemma_digit_round_trip(n);
        let s = decimal_text(n);
        assert(s.drop_last() =~= Seq::<char>::empty());
        assert(digits_value(s.drop_last()) == 0);
    } else {
        lemma_decimal_text(n / 10);
        lemma_digit_round_trip(n % 10);
        let s = decimal_text(n);
        assert(s.drop_last() =~= decimal_text(n / 10));
        assert(s.last() == digit_char(n % 10));
    }
}

/// The remainder by ten times `p` is ten times the remainder of the tenth
/// by `p`, and the last digit.
proof fn lemma_mod_by_tenfold(n: nat, p: nat)
    requires
        p > 0,
    ensures
        n % (10 * p) == ((n / 10) % p) * 10 + n % 10,
{
    let q = n / 10;
    let a = q / p;
    let b = q % p;
    let r = n % 10;
    vstd::arithmetic::div_mod::lemma_fundamental_div_mod(q as int, p as int);
    assert(n == (a * p + b) * 10 + r);
    assert((a * p + b) * 10 + r == a * (10 * p) + (b * 10 + r)) by (nonlinear_arith);
    assert(b * 10 + r < 10 * p) by (nonlinear_arith)
        requires
            b < p,
            r < 10,
    ;
    vstd::arithmetic::div_mod::lemma_fundamental_div_mod_converse(
        n as int,
        (10 * p) as int,
        a as int,
        (b * 10 + r) as int,
    );
}

/// A padded text has the width asked for, is made of digits and writes the
/// number's remainder by ten to the width.
pub proof fn lemma_padded_text(n: nat, width: nat)
    ensures
        padded_text(n, width).len() == width,
        all_digits(padded_text(n, width)),
        digits_value(padded_text(n, width)) == n % pow10(width),
        pow10(width) > 0,
    decreases width,
{
    if width == 0 {
    } else {
        let shorter = (width - 1) as nat;
        lemma_padded_text(n / 10, shorter);
        lemma_digit_round_trip(n % 10);
        let s = padded_text(n, width);
        assert(s.drop_last() =~= padded_text(n / 10, shorter));
        assert(s.last() == digit_char(n % 10));
        lemma_mod_by_tenfold(n, pow10(shorter));
    }
}

/// The number of a text grows with the text: a prefix writes no more than
/// the whole.
pub proof fn lemma_digits_value_prefix(s: Seq<char>, k: int)
    requires
        0 <= k <= s.len(),
    ensures
        digits_value(s.take(k)) <= digits_value(s),
    decreases s.len() - k,
{
    if k == s.len() {
        assert(s.take(k) =~= s);
    } else {
        lemma_digits_value_prefix(s, k + 1);
        assert(s.take(k + 1).drop_last() =~= s.take(k));
    }
}

/// The powers of ten up to the sixth.
pub proof fn lemma_pow10_small(e: nat)
    requires
        e <= 6,
    ensures
        1 <= pow10(e) <= 1_000_000,
        e == 2 ==> pow10(e) == 100,
        e == 4 ==> pow10(e) == 10_000,
        e == 6 ==> pow10(e) == 1_000_000,
{
    reveal_with_fuel(pow10, 8);
}

/// Writing a 32-bit number and reading the text gives the number back.
pub proof fn lemma_u32_round_trip(n: u32)
    ensures
        spec_parse_u32(decimal_text(n as nat)) == Some(n),
{
    lemma_decimal_text(n as nat);
    let s = decimal_text(n as nat);
    assert(is_digit(s[0]));
}

/// The digit of a value below ten.
pub fn digit_of(d: u8) -> (c: char)
    requires
        d < 10,
    ensures
        c == digit_char(d as nat),
{
    match d {
        0 => '0',
        1 => '1',
        2 => '2',
        3 => '3',
        4 => '4',
        5 => '5',
        6 => '6',
        7 => '7',
        8 => '8',
        _ => '9',
    }
}

/// The value of a character that is a digit; none for any other.
pub fn value_of(c: char) -> (r: Option<u8>)
    ensures
        r is Some <==> is_digit(c),
        r is Some ==> r->0 == digit_value(c) && r->0 < 10,
{
    match c {
        '0' => Some(0),
        '1' => Some(1),
        '2' => Some(2),
        '3' => Some(3),
        '4' => Some(4),
        '5' => Some(5),
        '6' => Some(6),
        '7' => Some(7),
        '8' => Some(8),
        '9' => Some(9),
        _ => None,
    }
}

/// Appends the shortest text of a number to `out`.
pub fn push_decimal(out: &mut Vec<char>, n: u64)
    ensures
        final(out)@ == old(out)@ + decimal_text(n as nat),
    decreases n,
{
    if n >= 10 {
        push_decimal(out, n / 10);
    }
    out.push(digit_of((n % 10) as u8));
    proof {
        if n < 10 {
            assert(final(out)@ =~= old(out)@ + decimal_text(n as nat));
        } else {
            assert(final(out)@ =~= old(out)@ + decimal_text(n as nat));
        }
    }
}

/// Appends the last `width` digits of a number to `out`, with zeros in front
/// where the number has fewer.
pub fn push_padded(out: &mut Vec<char>, n: u64, width: u8)
    ensures
        final(out)@ == old(out)@ + padded_text(n as nat, width as nat),
    decreases width,
{
    if width > 0 {
        push_padded(out, n / 10, width - 1);
        out.push(digit_of((n % 10) as u8));
        proof {
            assert(final(out)@ =~= old(out)@ + padded_text(n as nat, width as nat));
        }
    } else {
        proof {
            assert(final(out)@ =~= old(out)@ + padded_text(n as nat, width as nat));
        }
    }
}

/// Reads the digits of `s` from `start` on, as far as they go and as long as
/// the number they write stays within `limit`. Gives the number and the
/// place where the reading stopped, or none where the number went beyond the
/// limit.
pub fn read_digits(s: &Vec<char>, start: usize, limit: u64) -> (r: Option<(u64, usize)>)
    requires
        start <= s@.len(),
        limit <= u64::MAX / 10 - 1,
    ensures
        match r {
            Some((value, end)) => {
                &&& start <= end <= s@.len()
                &&& all_digits(s@.subrange(start as int, end as int))
                &&& end < s@.len() ==> !is_digit(s@[end as int])
                &&& value == digits_value(s@.subrange(start as int, end as int))
                &&& value <= limit
            },
            None => exists|end: int|
                start <= end <= s@.len() && all_digits(s@.subrange(start as int, end))
                    && #[trigger] digits_value(s@.subrange(start as int, end)) > limit,
        },
{
    let mut value: u64 = 0;
    let mut i: usize = start;
    while i < s.len()
        invariant
            start <= i <= s@.len(),
            limit <= u64::MAX / 10 - 1,
            all_digits(s@.subrange(start as int, i as int)),
            value == digits_value(s@.subrange(start as int, i as int)),
            value <= limit,
        decreases s@.len() - i,
    {
        match value_of(s[i]) {
            None => {
                return Some((value, i));
            },
            Some(d) => {
                let ghost longer = s@.subrange(start as int, i as int + 1);
                proof {
                    assert(longer.drop_last() =~= s@.subrange(start as int, i as int));
                    assert(longer.last() == s@[i as int]);
                    assert forall|j: int| 0 <= j < longer.len() implies is_digit(
                        #[trigger] longer[j],
                    ) by {
                        if j < longer.len() - 1 {
                            assert(longer[j] == s@.subrange(start as int, i as int)[j]);
                        }
                    }
                }
                let next: u64 = value * 10 + d as u64;
                if next > limit {
                    proof {
                        assert(digits_value(longer) > limit);
                        assert(longer == s@.subrange(start as int, i + 1));
                    }
                    return None;
                }
                value = next;
                i += 1;
            },
        }
    }
    Some((value, i))
}

} // verus!
