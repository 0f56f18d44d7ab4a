//! Real numbers as they are written.
//!
//! A real-valued parameter of a request is kept as the decimal that it was
//! written as: a whole number of units of some power of ten. Nothing is
//! rounded on the way in, and decimals are compared exactly.

use crate::text::{
    all_digits, digits_value, is_digit, is_signed, lemma_digits_value_prefix, read_span,
    unsigned_part, MAGNITUDE_OF_MAX, MINUS, PLUS,
};
use vstd::arithmetic::power::*;
use vstd::prelude::*;
use vstd::string::*;

verus! {

broadcast use vstd::string::group_string_axioms;

/// A real number as it is written in decimal: `units / 10^scale`, where
/// `scale` counts the digits behind the decimal point.
#[derive(Clone, Copy, Debug, PartialEq, Eq, Structural)]
pub struct Decimal {
    pub units: i64,
    pub scale: u8,
}

/// The most digits that a decimal may have behind its point.
pub const MAX_SCALE: u8 = 18;

/// Ten to the power `exponent`.
pub open spec fn pow10(exponent: nat) -> int {
    pow(10, exponent)
}

impl Decimal {
    /// The decimal has no more digits behind its point than a decimal may
    /// have.
    pub open spec fn wf(self) -> bool {
        self.scale <= MAX_SCALE
    }

    /// The decimal is less than `other`, as a number.
    pub open spec fn less_than(self, other: Decimal) -> bool {
        self.units * pow10(other.scale as nat) < other.units * pow10(self.scale as nat)
    }

    /// The decimal `units / 10^scale`, if it has no more digits behind its
    /// point than a decimal may have.
    pub fn new(units: i64, scale: u8) -> (r: Option<Decimal>)
        ensures
            r == (if scale <= MAX_SCALE {
                Some(Decimal { units, scale })
            } else {
                None
            }),
    {
        if scale <= MAX_SCALE {
            Some(Decimal { units, scale })
        } else {
            None
        }
    }

    /// Whether the decimal is less than `other`, as a number: `0.5` is
    /// less than `0.75`, and `0.5` is not less than `0.50`.
    pub fn lt(self, other: Decimal) -> (r: bool)
        requires
            self.wf(),
            other.wf(),
        ensures
            r == self.less_than(other),
    {
        let left_one: i128 = pow10_i128(other.scale as u32);
        let right_one: i128 = pow10_i128(self.scale as u32);
        proof {
            lemma_pow10_fits(other.scale as nat);
            lemma_pow10_fits(self.scale as nat);
            lemma_scaled_fits(self.units, left_one as int);
            lemma_scaled_fits(other.units, right_one as int);
        }
        self.units as i128 * left_one < other.units as i128 * right_one
    }
}

/// Where the decimal point of `s` stands: the position of its first `.`, or
/// the length of `s` where it has none.
pub open spec fn point_index(s: Seq<char>) -> int
    decreases s.len(),
{
    if s.len() == 0 || s[0] == '.' {
        0
    } else {
        1 + point_index(s.skip(1))
    }
}

/// The digits of `s` behind its decimal point.
pub open spec fn fraction_part(s: Seq<char>) -> Seq<char> {
    if point_index(s) < s.len() {
        s.skip(point_index(s) + 1)
    } else {
        Seq::empty()
    }
}

/// The decimal that `s` denotes: an optional `+` or `-`, one or more digits
/// and then, optionally, a point followed by one to eighteen digits. The
/// digits taken together have to fit in an `i64`. Any other text denotes no
/// decimal.
pub open spec fn decimal_of(s: Seq<char>) -> Option<Decimal> {
    let body = unsigned_part(s);
    let whole = body.take(point_index(body));
    let fraction = fraction_part(body);
    let magnitude = digits_value(whole + fraction);
    if whole.len() == 0 || !all_digits(whole) || !all_digits(fraction) {
        None
    } else if point_index(body) < body.len() && fraction.len() == 0 {
        None
    } else if fraction.len() > MAX_SCALE || magnitude > i64::MAX {
        None
    } else {
        Some(
            Decimal {
                units: (if s[0] == '-' {
                    -magnitude
                } else {
                    magnitude
                }) as i64,
                scale: fraction.len() as u8,
            },
        )
    }
}

/// The byte that spells `.`.
const POINT: u8 = 46;

/// Finds the decimal point of `text` behind position `start`.
fn find_point(text: &str, start: usize) -> (p: usize)
    requires
        text.is_ascii(),
        start <= text@.len(),
    ensures
        start <= p <= text@.len(),
        p - start == point_index(text@.skip(start as int)),
{
    let n = text.unicode_len();
    let ghost body = text@.skip(start as int);
    let mut p: usize = start;
    while p < n
        invariant
            text.is_ascii(),
            n == text@.len(),
            start <= p <= n,
            body == text@.skip(start as int),
            forall|i: int| 0 <= i < p - start ==> #[trigger] body[i] != '.',
        decreases n - p,
    {
        let b = text.get_ascii(p);
        let ghost c = text@[p as int];
        assert(c == body[p - start]);
        assert('\0' <= c <= '\u{7f}');
        if b == POINT {
            proof {
                lemma_point_index_is(body, p - start);
            }
            return p;
        }
        p = p + 1;
    }
    proof {
        lemma_point_index_is(body, p - start);
    }
    p
}

/// Reads the decimal that `text` denotes, if it denotes one.
pub fn parse_decimal(text: &str) -> (r: Option<Decimal>)
    ensures
        r == decimal_of(text@),
        r matches Some(decimal) ==> decimal.scale <= MAX_SCALE,
{
    if !text.is_ascii() {
        proof {
            if decimal_of(text@) is Some {
                lemma_decimal_is_ascii(text@);
            }
        }
        return None;
    }
    let n = text.unicode_len();
    if n == 0 {
        assert(unsigned_part(text@).take(point_index(unsigned_part(text@))).len() == 0);
        return None;
    }
    let first = text.get_ascii(0);
    let negative = first == MINUS;
    let signed = negative || first == PLUS;
    let start: usize = if signed {
        1
    } else {
        0
    };
    let ghost body = unsigned_part(text@);
    let ghost whole = body.take(point_index(body));
    let ghost fraction = fraction_part(body);
    assert(signed == is_signed(text@));
    assert(negative == (text@[0] == '-'));
    assert(text@.skip(start as int) =~= body);
    let p = find_point(text, start);
    assert(text@.subrange(start as int, p as int) =~= whole);
    assert(Seq::<char>::empty() + whole =~= whole);
    if p == start {
        return None;
    }
    let limit: u64 = MAGNITUDE_OF_MAX;
    proof {
        if all_digits(whole) && all_digits(fraction) {
            assert forall|j: int| 0 <= j < (whole + fraction).len() implies is_digit(
                #[trigger] (whole + fraction)[j],
            ) by {
                if j < whole.len() {
                    assert((whole + fraction)[j] == whole[j]);
                } else {
                    assert((whole + fraction)[j] == fraction[j - whole.len()]);
                }
            }
            assert((whole + fraction).subrange(0, whole.len() as int) =~= whole);
            lemma_digits_value_prefix(whole + fraction, whole.len() as int);
        }
    }
    let units = match read_span(text, start, p, 0, limit, Ghost(Seq::empty())) {
        None => {
            return None;
        },
        Some(units) => units,
    };
    if p == n {
        assert(fraction =~= Seq::<char>::empty());
        assert(whole + fraction =~= whole);
        return Some(
            Decimal {
                units: if negative {
                    -(units as i64)
                } else {
                    units as i64
                },
                scale: 0,
            },
        );
    }
    assert(text@.subrange(p + 1, n as int) =~= fraction);
    if n - p - 1 == 0 || n - p - 1 > MAX_SCALE as usize {
        return None;
    }
    match read_span(text, p + 1, n, units, limit, Ghost(whole)) {
        None => None,
        Some(units) => Some(
            Decimal {
                units: if negative {
                    -(units as i64)
                } else {
                    units as i64
                },
                scale: (n - p - 1) as u8,
            },
        ),
    }
}

/// Computes ten to the power `exponent`, for an exponent up to
/// thirty-eight.
pub fn pow10_i128(exponent: u32) -> (r: i128)
    requires
        exponent <= 38,
    ensures
        r == pow10(exponent as nat),
        r >= 1,
{
    let mut power: i128 = 1;
    let mut i: u32 = 0;
    proof {
        lemma_pow0(10);
    }
    while i < exponent
        invariant
            i <= exponent <= 38,
            power == pow10(i as nat),
            power >= 1,
        decreases exponent - i,
    {
        proof {
            lemma_pow10_fits((i + 1) as nat);
            lemma_pow10_step(i as nat);
        }
        power = power * 10;
        i = i + 1;
    }
    power
}

/// Computes ten to the power `exponent`, if that fits in an `i64`: it does
/// for the exponents up to eighteen.
pub fn checked_pow10(exponent: u32) -> (r: Option<i64>)
    ensures
        r == (if pow10(exponent as nat) <= i64::MAX {
            Some(pow10(exponent as nat) as i64)
        } else {
            None
        }),
        r is Some <==> exponent <= 18,
{
    proof {
        lemma_pow10_fits(exponent as nat);
    }
    if exponent <= 18 {
        Some(pow10_i128(exponent) as i64)
    } else {
        None
    }
}

/// The powers of ten that fit in an `i64` are those up to the eighteenth,
/// and those that fit in an `i128` are those up to the thirty-eighth.
pub proof fn lemma_pow10_fits(exponent: nat)
    ensures
        pow10(exponent) >= 1,
        pow10(exponent) <= i64::MAX <==> exponent <= 18,
        pow10(exponent) <= i128::MAX <==> exponent <= 38,
{
    reveal_with_fuel(pow, 40);
    lemma_pow_positive(10, exponent);
    assert(pow10(18) == 1_000_000_000_000_000_000);
    assert(pow10(19) == 10_000_000_000_000_000_000);
    assert(pow10(38) == 100_000_000_000_000_000_000_000_000_000_000_000_000);
    assert(pow10(39) == 1_000_000_000_000_000_000_000_000_000_000_000_000_000);
    if exponent <= 18 {
        lemma_pow_increases(10, exponent, 18);
    } else {
        lemma_pow_increases(10, 19, exponent);
    }
    if exponent <= 38 {
        lemma_pow_increases(10, exponent, 38);
    } else {
        lemma_pow_increases(10, 39, exponent);
    }
}

/// Each power of ten is ten times the one before it.
pub proof fn lemma_pow10_step(exponent: nat)
    ensures
        pow10(exponent + 1) == 10 * pow10(exponent),
{
    lemma_pow_adds(10, exponent, 1);
    lemma_pow1(10);
}

/// A 64-bit integer times a power of ten that fits in 64 bits fits in 128
/// bits.
proof fn lemma_scaled_fits(units: i64, one: int)
    requires
        1 <= one <= i64::MAX,
    ensures
        i128::MIN <= units * one <= i128::MAX,
{
    assert(-0x8000_0000_0000_0000 * 0x8000_0000_0000_0000 <= units * one
        <= 0x8000_0000_0000_0000 * 0x8000_0000_0000_0000) by (nonlinear_arith)
        requires
            -0x8000_0000_0000_0000 <= units <= 0x8000_0000_0000_0000,
            0 <= one <= 0x8000_0000_0000_0000,
    ;
}

/// The decimal point of `s` stands inside `s` or at its end, no `.` stands
/// before it, and a `.` stands at it unless it is the end.
pub proof fn lemma_point_index(s: Seq<char>)
    ensures
        0 <= point_index(s) <= s.len(),
        forall|i: int| 0 <= i < point_index(s) ==> #[trigger] s[i] != '.',
        point_index(s) < s.len() ==> s[point_index(s)] == '.',
    decreases s.len(),
{
    if s.len() > 0 && s[0] != '.' {
        let rest = s.skip(1);
        lemma_point_index(rest);
        assert forall|i: int| 0 <= i < point_index(s) implies #[trigger] s[i] != '.' by {
            if i > 0 {
                assert(s[i] == rest[i - 1]);
            }
        }
    }
}

/// The first `.` of `s` is its decimal point.
pub proof fn lemma_point_index_is(s: Seq<char>, p: int)
    requires
        0 <= p <= s.len(),
        forall|i: int| 0 <= i < p ==> #[trigger] s[i] != '.',
        p < s.len() ==> s[p] == '.',
    ensures
        point_index(s) == p,
{
    lemma_point_index(s);
    let q = point_index(s);
    if q < p {
        assert(s[q] != '.');
    } else if p < q {
        assert(s[p] != '.');
    }
}

/// Text that denotes a decimal is ASCII.
proof fn lemma_decimal_is_ascii(s: Seq<char>)
    requires
        decimal_of(s) is Some,
    ensures
        vstd::utf8::is_ascii_chars(s),
{
    let body = unsigned_part(s);
    let p = point_index(body);
    let whole = body.take(p);
    let fraction = fraction_part(body);
    lemma_point_index(body);
    assert forall|i: int| 0 <= i < body.len() implies '\0' <= #[trigger] body[i] <= '\u{7f}' by {
        if i < p {
            assert(is_digit(whole[i]));
        } else if i > p {
            assert(is_digit(fraction[i - p - 1]));
        }
    }
    assert forall|i: int| 0 <= i < s.len() implies '\0' <= #[trigger] s[i] <= '\u{7f}' by {
        if is_signed(s) {
            if i > 0 {
                assert(s[i] == body[i - 1]);
            }
        }
    }
}

} // verus!
