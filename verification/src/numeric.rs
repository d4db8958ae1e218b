//! Whole numbers written in decimal: reading them from text and writing them
//! out again.

use vstd::prelude::*;
use crate::text::string_of;

verus! {

/// Whether `c` is one of the digits `0` to `9`.
pub open spec fn is_digit(c: char) -> bool {
    0x30 <= c as u32 <= 0x39
}

/// The number that the digit `c` stands for.
pub open spec fn digit_of(c: char) -> nat {
    (c as u32 - 0x30) as nat
}

/// Whether `s` holds digits only.
pub open spec fn all_digits(s: Seq<char>) -> bool {
    forall|i: int| 0 <= i < s.len() ==> is_digit(#[trigger] s[i])
}

/// The number that the digits of `s` write in decimal; the empty text
/// writes zero.
pub open spec fn decimal_value(s: Seq<char>) -> nat
    decreases s.len(),
{
    if s.len() == 0 {
        0
    } else {
        decimal_value(s.drop_last()) * 10 + digit_of(s.last())
    }
}

/// The number that `s` writes without a minus sign: an optional `+` and then
/// at least one digit, nothing else.
pub open spec fn unsigned_value(s: Seq<char>) -> Option<nat> {
    let body = if s.len() > 0 && s[0] == '+' {
        s.skip(1)
    } else {
        s
    };
    if body.len() > 0 && all_digits(body) {
        Some(decimal_value(body))
    } else {
        None
    }
}

/// The number that `s` writes: an optional `+` or `-` and then at least one
/// digit, nothing else.
pub open spec fn signed_value(s: Seq<char>) -> Option<int> {
    if s.len() > 0 && s[0] == '-' {
        let body = s.skip(1);
        if body.len() > 0 && all_digits(body) {
            Some(-(decimal_value(body) as int))
        } else {
            None
        }
    } else {
        match unsigned_value(s) {
            Some(n) => Some(n as int),
            None => None,
        }
    }
}

/// The `u32` that `s` writes, where it writes one.
pub open spec fn u32_of(s: Seq<char>) -> Option<u32> {
    match unsigned_value(s) {
        Some(n) => if n <= u32::MAX {
            Some(n as u32)
        } else {
            None
        },
        None => None,
    }
}

/// The `i32` that `s` writes, where it writes one.
pub open spec fn i32_of(s: Seq<char>) -> Option<i32> {
    match signed_value(s) {
        Some(n) => if i32::MIN <= n <= i32::MAX {
            Some(n as i32)
        } else {
            None
        },
        None => None,
    }
}

/// A number is at least as large as the number that its leading digits
/// write.
pub proof fn lemma_decimal_prefix(s: Seq<char>, k: int)
    requires
        0 <= k <= s.len(),
    ensures
        decimal_value(s.take(k)) <= decimal_value(s),
    decreases s.len() - k,
{
    if k == s.len() {
        assert(s.take(k) == s);
    } else {
        lemma_decimal_prefix(s.drop_last(), k);
        assert(s.drop_last().take(k) == s.take(k));
    }
}

/// Whether `c` is one of the digits `0` to `9`.
pub fn is_ascii_digit(c: char) -> (digit: bool)
    ensures
        digit == is_digit(c),
{
    let n: u32 = c as u32;
    0x30 <= n && n <= 0x39
}

/// Reads the digits of `s` from position `from` to the end as a number that
/// is at most `limit`.
pub fn read_digits(s: &Vec<char>, from: usize, limit: u64) -> (value: Option<u64>)
    requires
        from <= s.len(),
        limit <= 0xffff_ffff_ffff,
    ensures
        value is Some <==> from < s.len() && all_digits(s@.skip(from as int)) && decimal_value(
            s@.skip(from as int),
        ) <= limit,
        value is Some ==> value->Some_0 == decimal_value(s@.skip(from as int)),
{
    if from == s.len() {
        return None;
    }
    let ghost body = s@.skip(from as int);
    let mut acc: u64 = 0;
    let mut i: usize = from;
    while i < s.len()
        invariant
            from <= i <= s.len(),
            body == s@.skip(from as int),
            limit <= 0xffff_ffff_ffff,
            all_digits(body.take(i - from)),
            acc == decimal_value(body.take(i - from)),
            acc <= limit,
        decreases s.len() - i,
    {
        let c = s[i];
        if !is_ascii_digit(c) {
            proof {
                assert(body[i - from] == c);
            }
            return None;
        }
        let d: u64 = (c as u32 - 0x30) as u64;
        proof {
            let next = body.take(i - from + 1);
            assert(next.drop_last() == body.take(i - from));
        }
        acc = acc * 10 + d;
        if acc > limit {
            proof {
                if all_digits(body) {
                    lemma_decimal_prefix(body, i - from + 1);
                }
            }
            return None;
        }
        i += 1;
    }
    proof {
        assert(body.take(body.len() as int) == body);
    }
    Some(acc)
}

/// Reads a `u32` from `s`: an optional `+`, then digits only.
pub fn parse_u32(s: &Vec<char>) -> (value: Option<u32>)
    ensures
        value == u32_of(s@),
{
    let from: usize = if s.len() > 0 && s[0] == '+' {
        1
    } else {
        0
    };
    proof {
        assert(s@.skip(0) == s@);
    }
    match read_digits(s, from, 0xffff_ffff) {
        Some(n) => Some(n as u32),
        None => None,
    }
}

/// Reads an `i32` from `s`: an optional `+` or `-`, then digits only.
pub fn parse_i32(s: &Vec<char>) -> (value: Option<i32>)
    ensures
        value == i32_of(s@),
{
    proof {
        assert(s@.skip(0) == s@);
    }
    if s.len() > 0 && s[0] == '-' {
        match read_digits(s, 1, 0x8000_0000) {
            Some(n) => if n == 0x8000_0000 {
                Some(i32::MIN)
            } else {
                Some(-(n as i32))
            },
            None => None,
        }
    } else {
        let from: usize = if s.len() > 0 && s[0] == '+' {
            1
        } else {
            0
        };
        match read_digits(s, from, 0x7fff_ffff) {
            Some(n) => Some(n as i32),
            None => None,
        }
    }
}

/// The digit that writes `d`, for `d` below ten.
pub open spec fn digit_char(d: nat) -> char {
    ((0x30 + d) as u8) as char
}

/// `n` written in decimal, without leading zeros.
pub open spec fn decimal_text(n: nat) -> Seq<char>
    decreases n,
{
    if n < 10 {
        seq![digit_char(n)]
    } else {
        decimal_text(n / 10).push(digit_char(n % 10))
    }
}

/// `n` written in decimal on at least two places, with a leading zero where
/// one digit would do.
pub open spec fn two_digit_text(n: nat) -> Seq<char> {
    if n < 10 {
        seq!['0'] + decimal_text(n)
    } else {
        decimal_text(n)
    }
}

/// `n` written in decimal, with a minus sign where it is negative.
pub open spec fn signed_text(n: int) -> Seq<char> {
    if n < 0 {
        seq!['-'] + decimal_text((-n) as nat)
    } else {
        decimal_text(n as nat)
    }
}

/// Appends `n`, written in decimal, to `out`.
pub fn push_decimal(out: &mut Vec<char>, n: u64)
    ensures
        final(out)@ == old(out)@ + decimal_text(n as nat),
    decreases n,
{
    if n >= 10 {
        push_decimal(out, n / 10);
    }
    let d: u8 = (n % 10) as u8;
    out.push((0x30 + d) as char);
}

/// Appends `n`, written in decimal with a minus sign where it is negative, to
/// `out`.
pub fn push_signed(out: &mut Vec<char>, n: i64)
    requires
        n > i64::MIN,
    ensures
        final(out)@ == old(out)@ + signed_text(n as int),
{
    if n < 0 {
        out.push('-');
        push_decimal(out, (-n) as u64);
    } else {
        push_decimal(out, n as u64);
    }
}

/// A number written with an optional sign and an optional decimal point.
pub struct Decimal {
    /// Whether a minus sign stands in front.
    pub negative: bool,
    /// The digits before the point.
    pub whole: Seq<char>,
    /// The digits behind the point.
    pub fraction: Seq<char>,
}

/// The position of the first decimal point in `s`, or the length of `s`
/// where it has none.
pub open spec fn point_of(s: Seq<char>) -> int
    decreases s.len(),
{
    if s.len() == 0 || s[0] == '.' {
        0
    } else {
        1 + point_of(s.skip(1))
    }
}

/// The decimal number that `s` writes: an optional `+` or `-`, digits, and
/// at most one point among them, with at least one digit in all. Any other
/// text writes none.
pub open spec fn decimal_of(s: Seq<char>) -> Option<Decimal> {
    let signed = s.len() > 0 && (s[0] == '+' || s[0] == '-');
    let body = if signed {
        s.skip(1)
    } else {
        s
    };
    let point = point_of(body);
    let whole = body.take(point);
    let fraction = if point < body.len() {
        body.skip(point + 1)
    } else {
        Seq::empty()
    };
    if all_digits(whole) && all_digits(fraction) && whole.len() + fraction.len() > 0 {
        Some(Decimal { negative: signed && s[0] == '-', whole, fraction })
    } else {
        None
    }
}

/// `n` zeros.
pub open spec fn zeros(n: nat) -> Seq<char> {
    Seq::new(n, |i: int| '0')
}

/// The digits of a number after its point has moved `places` to the right
/// and what is then behind the point has been cut off.
pub open spec fn shifted_digits(whole: Seq<char>, fraction: Seq<char>, places: nat) -> Seq<char> {
    whole + if fraction.len() >= places {
        fraction.take(places as int)
    } else {
        fraction + zeros((places - fraction.len()) as nat)
    }
}

/// The decimal number that `s` writes, times ten to the power of `places`,
/// cut down to a whole number and brought into the range of `u32`: a
/// negative number gives 0, one that is too large gives the largest `u32`.
pub open spec fn scaled_u32(s: Seq<char>, places: nat) -> Option<u32> {
    match decimal_of(s) {
        None => None,
        Some(d) => {
            let value = decimal_value(shifted_digits(d.whole, d.fraction, places));
            Some(
                if d.negative {
                    0u32
                } else if value > u32::MAX {
                    u32::MAX
                } else {
                    value as u32
                },
            )
        },
    }
}

/// Whether the characters of `s` from `from` up to `to` are digits.
pub fn digits_between(s: &Vec<char>, from: usize, to: usize) -> (ok: bool)
    requires
        from <= to <= s.len(),
    ensures
        ok == all_digits(s@.subrange(from as int, to as int)),
{
    let mut i: usize = from;
    while i < to
        invariant
            from <= i <= to <= s.len(),
            all_digits(s@.subrange(from as int, i as int)),
        decreases to - i,
    {
        if !is_ascii_digit(s[i]) {
            proof {
                assert(s@.subrange(from as int, to as int)[i - from] == s@[i as int]);
            }
            return false;
        }
        i += 1;
    }
    true
}

/// The position of the first decimal point at or behind `from`, or the
/// length of `s` where there is none.
pub fn find_point(s: &Vec<char>, from: usize) -> (at: usize)
    requires
        from <= s.len(),
    ensures
        at == from + point_of(s@.skip(from as int)),
        from <= at <= s.len(),
{
    let mut i: usize = from;
    while i < s.len() && s[i] != '.'
        invariant
            from <= i <= s.len(),
            (i - from) + point_of(s@.skip(i as int)) == point_of(s@.skip(from as int)),
        decreases s.len() - i,
    {
        proof {
            assert(s@.skip(i as int).skip(1) == s@.skip(i + 1));
        }
        i += 1;
    }
    i
}

/// Writes out the digits of a number after its point has moved `places` to
/// the right: those of `s` from `start` up to `point`, then the first
/// `places` of those from `after` on, filled up with zeros.
fn shift_digits(s: &Vec<char>, start: usize, point: usize, after: usize, places: usize) -> (digits:
    Vec<char>)
    requires
        start <= point <= after <= s.len(),
    ensures
        digits@ == shifted_digits(
            s@.subrange(start as int, point as int),
            s@.subrange(after as int, s.len() as int),
            places as nat,
        ),
{
    let ghost whole = s@.subrange(start as int, point as int);
    let ghost fraction = s@.subrange(after as int, s.len() as int);
    let mut digits: Vec<char> = Vec::new();
    let mut i: usize = start;
    while i < point
        invariant
            start <= i <= point <= s.len(),
            digits@ == s@.subrange(start as int, i as int),
        decreases point - i,
    {
        digits.push(s[i]);
        i += 1;
    }
    let mut k: usize = 0;
    while k < places
        invariant
            k <= places,
            after <= s.len(),
            whole == s@.subrange(start as int, point as int),
            fraction == s@.subrange(after as int, s.len() as int),
            digits@ == whole + if fraction.len() >= k {
                fraction.take(k as int)
            } else {
                fraction + zeros((k - fraction.len()) as nat)
            },
        decreases places - k,
    {
        if k < s.len() - after {
            digits.push(s[after + k]);
        } else {
            digits.push('0');
        }
        k += 1;
    }
    digits
}

/// Reads a decimal number from `s` and gives it times ten to the power of
/// `places`, cut down to a whole number in the range of `u32`.
pub fn parse_scaled(s: &Vec<char>, places: usize) -> (value: Option<u32>)
    ensures
        value == scaled_u32(s@, places as nat),
{
    let signed = s.len() > 0 && (s[0] == '+' || s[0] == '-');
    let start: usize = if signed {
        1
    } else {
        0
    };
    proof {
        assert(s@.skip(0) == s@);
    }
    let ghost body = s@.skip(start as int);
    let point = find_point(s, start);
    let after: usize = if point < s.len() {
        point + 1
    } else {
        point
    };
    let ghost whole = s@.subrange(start as int, point as int);
    let ghost fraction = s@.subrange(after as int, s.len() as int);
    proof {
        assert(body.take(point - start) == whole);
        if point < s.len() {
            assert(body.skip(point - start + 1) == fraction);
        }
    }
    if !digits_between(s, start, point) || !digits_between(s, after, s.len()) {
        return None;
    }
    if (point - start) + (s.len() - after) == 0 {
        return None;
    }
    if signed && s[0] == '-' {
        return Some(0);
    }
    let digits = shift_digits(s, start, point, after, places);
    proof {
        assert(digits@.skip(0) == digits@);
    }
    if digits.len() == 0 {
        return Some(0);
    }
    match read_digits(&digits, 0, 0xffff_ffff) {
        Some(n) => Some(n as u32),
        None => Some(u32::MAX),
    }
}

/// `n` written in decimal.
pub fn decimal_string(n: u64) -> (out: String)
    ensures
        out@ == decimal_text(n as nat),
{
    let mut digits: Vec<char> = Vec::new();
    push_decimal(&mut digits, n);
    string_of(&digits)
}

/// `n` written in decimal on at least two places.
pub fn two_digit_string(n: u32) -> (out: String)
    ensures
        out@ == two_digit_text(n as nat),
{
    let mut digits: Vec<char> = Vec::new();
    if n < 10 {
        digits.push('0');
    }
    push_decimal(&mut digits, n as u64);
    string_of(&digits)
}

/// `n` written in decimal, with a minus sign where it is negative.
pub fn signed_string(n: i32) -> (out: String)
    ensures
        out@ == signed_text(n as int),
{
    let mut digits: Vec<char> = Vec::new();
    push_signed(&mut digits, n as i64);
    string_of(&digits)
}

} // verus!
