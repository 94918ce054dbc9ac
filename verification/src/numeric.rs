//! The runtime's numbers: 64-bit signed integers together with the
//! "not a number" marker, with decimal parsing and formatting proved
//! against sequence-level specifications.

use vstd::prelude::*;

verus! {

/// Numeric payload of a runtime value. Any operation whose exact result is
/// not representable as an `i64` yields `Nan`, which propagates through
/// arithmetic and is the one value strict equality never relates to itself.
#[derive(Clone, Copy, Debug, PartialEq, Eq, Structural)]
pub enum JsNumber {
    Int(i64),
    Nan,
}

pub open spec fn spec_is_digit(c: char) -> bool {
    '0' <= c && c <= '9'
}

pub open spec fn spec_digit_val(c: char) -> int {
    c as int - '0' as int
}

pub open spec fn spec_all_digits(s: Seq<char>) -> bool {
    forall|i: int| 0 <= i < s.len() ==> spec_is_digit(#[trigger] s[i])
}

/// Value of a sequence of decimal digits, most significant first.
pub open spec fn spec_digits_val(s: Seq<char>) -> int
    decreases s.len(),
{
    if s.len() == 0 {
        0
    } else {
        spec_digits_val(s.drop_last()) * 10 + spec_digit_val(s.last())
    }
}

pub proof fn lemma_digits_val_nonneg(s: Seq<char>)
    requires
        spec_all_digits(s),
    ensures
        spec_digits_val(s) >= 0,
    decreases s.len(),
{
    if s.len() > 0 {
        assert(spec_all_digits(s.drop_last()));
        lemma_digits_val_nonneg(s.drop_last());
    }
}

/// Appending digits never decreases the value of the prefix read so far.
pub proof fn lemma_digits_val_prefix_le(s: Seq<char>, i: int, j: int)
    requires
        spec_all_digits(s),
        0 <= i <= j <= s.len(),
    ensures
        spec_digits_val(s.take(i)) <= spec_digits_val(s.take(j)),
    decreases j - i,
{
    if i < j {
        lemma_digits_val_prefix_le(s, i, j - 1);
        let p = s.take(j);
        assert(p.drop_last() =~= s.take(j - 1));
        assert(spec_all_digits(s.take(j - 1)));
        lemma_digits_val_nonneg(s.take(j - 1));
    }
}

/// What parsing a decimal string means: an optional leading minus sign,
/// then at least one digit; a representable result or `Nan`.
pub open spec fn spec_parse_decimal(s: Seq<char>) -> JsNumber {
    let neg = s.len() > 0 && s[0] == '-';
    let ds = if neg { s.skip(1) } else { s };
    if ds.len() == 0 || !spec_all_digits(ds) {
        JsNumber::Nan
    } else {
        let v = if neg { -spec_digits_val(ds) } else { spec_digits_val(ds) };
        if i64::MIN <= v <= i64::MAX {
            JsNumber::Int(v as i64)
        } else {
            JsNumber::Nan
        }
    }
}

/// Decimal image of a non-negative integer, most significant digit first.
pub open spec fn spec_nat_to_dec(n: int) -> Seq<char>
    decreases n,
{
    if n <= 0 {
        seq!['0']
    } else if n < 10 {
        seq![spec_char_of_digit(n)]
    } else {
        spec_nat_to_dec(n / 10).push(spec_char_of_digit(n % 10))
    }
}

pub open spec fn spec_char_of_digit(d: int) -> char {
    if d == 0 { '0' }
    else if d == 1 { '1' }
    else if d == 2 { '2' }
    else if d == 3 { '3' }
    else if d == 4 { '4' }
    else if d == 5 { '5' }
    else if d == 6 { '6' }
    else if d == 7 { '7' }
    else if d == 8 { '8' }
    else if d == 9 { '9' }
    else { '0' }
}

/// Decimal image of any integer: a minus sign before the magnitude.
pub open spec fn spec_int_to_dec(n: int) -> Seq<char> {
    if n < 0 {
        seq!['-'] + spec_nat_to_dec(-n)
    } else {
        spec_nat_to_dec(n)
    }
}

/// Image of a number as source text: the decimal digits, or `NaN`.
pub open spec fn spec_number_to_chars(n: JsNumber) -> Seq<char> {
    match n {
        JsNumber::Int(v) => spec_int_to_dec(v as int),
        JsNumber::Nan => seq!['N', 'a', 'N'],
    }
}

fn char_of_digit(d: u64) -> (c: char)
    requires
        d < 10,
    ensures
        c == spec_char_of_digit(d as int),
{
    match d {
        0 => '0',
        1 => '1',
        2 => '2',
        3 => '3',
        4 => '4',
        5 => '5',
        6 => '6',
        7 => '7',
        8 => '8',
        _ => '9',
    }
}

fn push_nat_dec(out: &mut Vec<char>, n: u64)
    ensures
        final(out)@ == old(out)@ + spec_nat_to_dec(n as int),
    decreases n,
{
    if n < 10 {
        out.push(char_of_digit(n));
        assert(out@ =~= old(out)@ + spec_nat_to_dec(n as int));
    } else {
        push_nat_dec(out, n / 10);
        out.push(char_of_digit(n % 10));
        assert(out@ =~= old(out)@ + spec_nat_to_dec(n as int));
    }
}

/// Characters of the decimal form of `n`, appended to `out`.
pub fn push_int_dec(out: &mut Vec<char>, n: i64)
    ensures
        final(out)@ == old(out)@ + spec_int_to_dec(n as int),
{
    if n >= 0 {
        push_nat_dec(out, n as u64);
    } else {
        out.push('-');
        let wide: i128 = n as i128;
        let mag: u64 = (-wide) as u64;
        assert(mag == -(n as int)) by {
            assert(0 < -(n as int) <= u64::MAX);
        };
        let ghost mid = out@;
        push_nat_dec(out, mag);
        assert(out@ =~= old(out)@ + spec_int_to_dec(n as int));
    }
}

impl JsNumber {
    /// Sum with `Nan` propagation; an overflowing sum is `Nan`.
    pub fn plus(self, other: JsNumber) -> (r: JsNumber)
        ensures
            r == spec_plus(self, other),
    {
        match (self, other) {
            (JsNumber::Int(a), JsNumber::Int(b)) => match a.checked_add(b) {
                Some(v) => JsNumber::Int(v),
                None => JsNumber::Nan,
            },
            _ => JsNumber::Nan,
        }
    }

    /// Difference with `Nan` propagation; an overflowing difference is `Nan`.
    pub fn minus(self, other: JsNumber) -> (r: JsNumber)
        ensures
            r == spec_minus(self, other),
    {
        match (self, other) {
            (JsNumber::Int(a), JsNumber::Int(b)) => match a.checked_sub(b) {
                Some(v) => JsNumber::Int(v),
                None => JsNumber::Nan,
            },
            _ => JsNumber::Nan,
        }
    }

    /// Product with `Nan` propagation; an overflowing product is `Nan`.
    pub fn times(self, other: JsNumber) -> (r: JsNumber)
        ensures
            r == spec_times(self, other),
    {
        match (self, other) {
            (JsNumber::Int(a), JsNumber::Int(b)) => match a.checked_mul(b) {
                Some(v) => JsNumber::Int(v),
                None => JsNumber::Nan,
            },
            _ => JsNumber::Nan,
        }
    }

    /// Quotient, defined only where it is exact; everything else is `Nan`.
    pub fn quotient(self, other: JsNumber) -> (r: JsNumber)
        ensures
            r == spec_quotient(self, other),
    {
        match (self, other) {
            (JsNumber::Int(a), JsNumber::Int(b)) => {
                if b == 0 {
                    JsNumber::Nan
                } else {
                    match (a.checked_div(b), a.checked_rem(b)) {
                        (Some(q), Some(rm)) => if rm == 0 {
                            JsNumber::Int(q)
                        } else {
                            JsNumber::Nan
                        },
                        _ => JsNumber::Nan,
                    }
                }
            },
            _ => JsNumber::Nan,
        }
    }

    /// Remainder with truncation toward zero, as `%` behaves on integers.
    pub fn remainder(self, other: JsNumber) -> (r: JsNumber)
        ensures
            r == spec_remainder(self, other),
    {
        match (self, other) {
            (JsNumber::Int(a), JsNumber::Int(b)) => {
                if b == 0 {
                    JsNumber::Nan
                } else if a == i64::MIN && b == -1 {
                    JsNumber::Int(0)
                } else {
                    match a.checked_rem(b) {
                        Some(rm) => JsNumber::Int(rm),
                        None => JsNumber::Nan,
                    }
                }
            },
            _ => JsNumber::Nan,
        }
    }

    /// Strictly-less comparison; any comparison against `Nan` is false.
    pub fn lt_num(self, other: JsNumber) -> (r: bool)
        ensures
            r == spec_lt(self, other),
    {
        match (self, other) {
            (JsNumber::Int(a), JsNumber::Int(b)) => a < b,
            _ => false,
        }
    }

    /// Less-or-equal comparison; any comparison against `Nan` is false.
    pub fn le_num(self, other: JsNumber) -> (r: bool)
        ensures
            r == spec_le(self, other),
    {
        match (self, other) {
            (JsNumber::Int(a), JsNumber::Int(b)) => a <= b,
            _ => false,
        }
    }
}

pub open spec fn spec_plus(a: JsNumber, b: JsNumber) -> JsNumber {
    match (a, b) {
        (JsNumber::Int(x), JsNumber::Int(y)) => if i64::MIN <= x + y <= i64::MAX {
            JsNumber::Int((x + y) as i64)
        } else {
            JsNumber::Nan
        },
        _ => JsNumber::Nan,
    }
}

pub open spec fn spec_minus(a: JsNumber, b: JsNumber) -> JsNumber {
    match (a, b) {
        (JsNumber::Int(x), JsNumber::Int(y)) => if i64::MIN <= x - y <= i64::MAX {
            JsNumber::Int((x - y) as i64)
        } else {
            JsNumber::Nan
        },
        _ => JsNumber::Nan,
    }
}

pub open spec fn spec_times(a: JsNumber, b: JsNumber) -> JsNumber {
    match (a, b) {
        (JsNumber::Int(x), JsNumber::Int(y)) => if i64::MIN <= x * y <= i64::MAX {
            JsNumber::Int((x * y) as i64)
        } else {
            JsNumber::Nan
        },
        _ => JsNumber::Nan,
    }
}

/// Quotient with truncation toward zero, as integer `/` behaves.
pub open spec fn spec_trunc_div(x: int, d: int) -> int
    recommends
        d != 0,
{
    if x == 0 {
        0
    } else if x > 0 && d > 0 {
        x / d
    } else if x < 0 && d < 0 {
        (x * -1) / (d * -1)
    } else if x < 0 {
        ((x * -1) / d) * -1
    } else {
        (x / (d * -1)) * -1
    }
}

/// Remainder with truncation toward zero, as integer `%` behaves.
pub open spec fn spec_trunc_rem(x: int, d: int) -> int
    recommends
        d != 0,
{
    if x == 0 {
        0
    } else if x > 0 && d > 0 {
        x % d
    } else if x < 0 && d < 0 {
        ((x * -1) % (d * -1)) * -1
    } else if x < 0 {
        ((x * -1) % d) * -1
    } else {
        x % (d * -1)
    }
}

pub open spec fn spec_quotient(a: JsNumber, b: JsNumber) -> JsNumber {
    match (a, b) {
        (JsNumber::Int(x), JsNumber::Int(y)) => if y == 0 {
            JsNumber::Nan
        } else if spec_trunc_rem(x as int, y as int) == 0
            && i64::MIN <= spec_trunc_div(x as int, y as int) <= i64::MAX {
            JsNumber::Int(spec_trunc_div(x as int, y as int) as i64)
        } else {
            JsNumber::Nan
        },
        _ => JsNumber::Nan,
    }
}

pub open spec fn spec_remainder(a: JsNumber, b: JsNumber) -> JsNumber {
    match (a, b) {
        (JsNumber::Int(x), JsNumber::Int(y)) => if y == 0 {
            JsNumber::Nan
        } else {
            JsNumber::Int(spec_trunc_rem(x as int, y as int) as i64)
        },
        _ => JsNumber::Nan,
    }
}

pub open spec fn spec_lt(a: JsNumber, b: JsNumber) -> bool {
    match (a, b) {
        (JsNumber::Int(x), JsNumber::Int(y)) => x < y,
        _ => false,
    }
}

pub open spec fn spec_le(a: JsNumber, b: JsNumber) -> bool {
    match (a, b) {
        (JsNumber::Int(x), JsNumber::Int(y)) => x <= y,
        _ => false,
    }
}

/// The value of a decimal digit, `None` for any other character.
pub fn digit_of_char(c: char) -> (r: Option<u64>)
    ensures
        match r {
            Some(d) => spec_is_digit(c) && d == spec_digit_val(c),
            None => !spec_is_digit(c),
        },
{
    match c {
        '0' => Some(0),
        '1' => Some(1),
        '2' => Some(2),
        '3' => Some(3),
        '4' => Some(4),
        '5' => Some(5),
        '6' => Some(6),
        '7' => Some(7),
        '8' => Some(8),
        '9' => Some(9),
        _ => None,
    }
}

/// Parse the characters of a decimal literal, `Nan` on any other shape.
pub fn parse_decimal_chars(s: &Vec<char>) -> (r: JsNumber)
    ensures
        r == spec_parse_decimal(s@),
{
    let n = s.len();
    let neg = n > 0 && s[0] == '-';
    let start: usize = if neg { 1 } else { 0 };
    let ghost ds = if neg { s@.skip(1) } else { s@ };
    assert(ds.len() == n - start);
    if n == start {
        return JsNumber::Nan;
    }
    let mut mag: u64 = 0;
    let mut i: usize = start;
    while i < n
        invariant
            start <= i <= n,
            n == s@.len(),
            neg == (s@.len() > 0 && s@[0] == '-'),
            start == if neg { 1int } else { 0int },
            ds == if neg { s@.skip(1) } else { s@ },
            ds.len() == n - start,
            spec_all_digits(ds.take(i - start)),
            mag == spec_digits_val(ds.take(i - start)),
        decreases n - i,
    {
        let c = s[i];
        assert(s@[i as int] == ds[i - start]);
        let d: u64 = match digit_of_char(c) {
            Some(d) => d,
            None => {
                assert(!spec_is_digit(ds[i - start]));
                return JsNumber::Nan;
            },
        };
        assert(d == spec_digit_val(ds[i - start]));
        let m10 = mag.checked_mul(10);
        let stepped = match m10 {
            Some(m) => m.checked_add(d),
            None => None,
        };
        proof {
            assert(ds.take(i - start + 1).drop_last() =~= ds.take(i - start));
            assert(ds.take(i - start + 1).last() == ds[i - start]);
        }
        match stepped {
            Some(m) => {
                mag = m;
            },
            None => {
                // The digits read so far already exceed `u64`, so the full
                // magnitude cannot be an `i64` either way.
                proof {
                    let k = i - start + 1;
                    assert(spec_digits_val(ds.take(k)) == mag * 10 + d);
                    if spec_all_digits(ds) {
                        lemma_digits_val_prefix_le(ds, k, ds.len() as int);
                        assert(ds.take(ds.len() as int) =~= ds);
                        assert(spec_digits_val(ds) > u64::MAX);
                    }
                }
                return JsNumber::Nan;
            },
        }
        i = i + 1;
    }
    assert(ds.take(n - start) =~= ds);
    if neg {
        if mag <= 9223372036854775808u64 {
            let wide: i128 = -(mag as i128);
            let v: i64 = wide as i64;
            assert(v == -(mag as int));
            JsNumber::Int(v)
        } else {
            JsNumber::Nan
        }
    } else {
        if mag <= 9223372036854775807u64 {
            JsNumber::Int(mag as i64)
        } else {
            JsNumber::Nan
        }
    }
}

} // verus!
