//! Reading integers out of request text.
//!
//! Structural parameters arrive as decimal text. This module says which
//! texts denote an integer and which one, and reads them: no sign or one,
//! then digits, and nothing else.

use vstd::prelude::*;
use vstd::string::*;

verus! {

broadcast use vstd::string::group_string_axioms;

/// `c` is one of the ten decimal digits.
pub open spec fn is_digit(c: char) -> bool {
    '0' <= c <= '9'
}

/// The number a decimal digit stands for.
pub open spec fn digit_value(c: char) -> int {
    c as int - '0' as int
}

/// Every character of `s` is a decimal digit.
pub open spec fn all_digits(s: Seq<char>) -> bool {
    forall|i: int| 0 <= i < s.len() ==> is_digit(#[trigger] s[i])
}

/// The number that a run of decimal digits denotes, most significant first.
pub open spec fn digits_value(s: Seq<char>) -> int
    decreases s.len(),
{
    if s.len() == 0 {
        0
    } else {
        10 * digits_value(s.drop_last()) + digit_value(s.last())
    }
}

/// `s` starts with a sign character.
pub open spec fn is_signed(s: Seq<char>) -> bool {
    s.len() > 0 && (s[0] == '-' || s[0] == '+')
}

/// `s` without its sign character, if it has one.
pub open spec fn unsigned_part(s: Seq<char>) -> Seq<char> {
    if is_signed(s) {
        s.skip(1)
    } else {
        s
    }
}

/// The integer that `s` denotes: an optional `+` or `-`, then one or more
/// decimal digits and nothing else. Any other text denotes no integer.
pub open spec fn integer_value(s: Seq<char>) -> Option<int> {
    let digits = unsigned_part(s);
    if digits.len() == 0 || !all_digits(digits) {
        None
    } else if s[0] == '-' {
        Some(-digits_value(digits))
    } else {
        Some(digits_value(digits))
    }
}

/// The integer that `s` denotes, where it fits in an `i64`.
pub open spec fn integer_i64(s: Seq<char>) -> Option<i64> {
    match integer_value(s) {
        Some(v) => if i64::MIN <= v <= i64::MAX {
            Some(v as i64)
        } else {
            None
        },
        None => None,
    }
}

/// The byte that spells `-`.
pub(crate) const MINUS: u8 = 45;

/// The byte that spells `+`.
pub(crate) const PLUS: u8 = 43;

/// The byte that spells `0`.
const ZERO: u8 = 48;

/// The byte that spells `9`.
const NINE: u8 = 57;

/// The greatest `i64`, as the magnitude that the digits of a number may
/// reach.
pub const MAGNITUDE_OF_MAX: u64 = 9223372036854775807;

/// The magnitude of the least `i64`, which is one more.
pub const MAGNITUDE_OF_MIN: u64 = 9223372036854775808;

/// Whether `a` and `b` are the same text.
pub fn same_text(a: &str, b: &str) -> (r: bool)
    ensures
        r == (a@ == b@),
{
    String::from_str(a) == String::from_str(b)
}

/// Reads the digits of `text` from `start` up to `end`, behind the digits
/// `before` that were read already and came to `init`. The result is the
/// value of all those digits together, if it is at most `limit`.
pub(crate) fn read_span(
    text: &str,
    start: usize,
    end: usize,
    init: u64,
    limit: u64,
    Ghost(before): Ghost<Seq<char>>,
) -> (r: Option<u64>)
    requires
        text.is_ascii(),
        start <= end <= text@.len(),
        all_digits(before),
        init == digits_value(before),
        init <= limit,
        9 <= limit <= MAGNITUDE_OF_MIN,
    ensures
        r == (if all_digits(text@.subrange(start as int, end as int)) && digits_value(
            before + text@.subrange(start as int, end as int),
        ) <= limit {
            Some(digits_value(before + text@.subrange(start as int, end as int)) as u64)
        } else {
            None
        }),
        r matches Some(m) ==> m == digits_value(
            before + text@.subrange(start as int, end as int),
        ) && m <= limit,
{
    let ghost span = text@.subrange(start as int, end as int);
    let ghost all = before + span;
    let ghost offset = before.len() as int;
    let mut acc: u64 = init;
    let mut i: usize = start;
    assert(all.subrange(0, offset) =~= before);
    assert(span.subrange(0, 0) =~= Seq::<char>::empty());
    while i < end
        invariant
            text.is_ascii(),
            start <= i <= end <= text@.len(),
            span == text@.subrange(start as int, end as int),
            all == before + span,
            offset == before.len(),
            all_digits(before),
            9 <= limit <= MAGNITUDE_OF_MIN,
            all_digits(span.subrange(0, i - start)),
            acc == digits_value(all.subrange(0, offset + i - start)),
            acc <= limit,
        decreases end - i,
    {
        let b = text.get_ascii(i);
        let ghost c = text@[i as int];
        assert(c == span[i - start]);
        assert(c == all[offset + i - start]);
        assert('\0' <= c <= '\u{7f}');
        if b < ZERO || b > NINE {
            assert(!is_digit(span[i - start]));
            return None;
        }
        let d: u64 = (b - ZERO) as u64;
        proof {
            lemma_digits_value_step(all, offset + i - start);
            assert(d == digit_value(c));
        }
        if acc > (limit - d) / 10 {
            proof {
                if all_digits(span) {
                    assert forall|j: int| 0 <= j < all.len() implies is_digit(#[trigger] all[j]) by {
                        if j < offset {
                            assert(all[j] == before[j]);
                        } else {
                            assert(all[j] == span[j - offset]);
                        }
                    }
                    lemma_digits_value_prefix(all, offset + i - start + 1);
                }
            }
            return None;
        }
        acc = 10 * acc + d;
        proof {
            let grown = span.subrange(0, i - start + 1);
            assert forall|j: int| 0 <= j < grown.len() implies is_digit(#[trigger] grown[j]) by {
                if j < i - start {
                    assert(grown[j] == span.subrange(0, i - start)[j]);
                }
            }
        }
        i = i + 1;
    }
    assert(span.subrange(0, end - start) =~= span);
    assert(all.subrange(0, offset + end - start) =~= all);
    Some(acc)
}

/// Reads the integer that `text` denotes, if it denotes one that fits in
/// an `i64`.
pub fn parse_integer(text: &str) -> (r: Option<i64>)
    ensures
        r == integer_i64(text@),
{
    if !text.is_ascii() {
        proof {
            if integer_value(text@) is Some {
                lemma_integer_is_ascii(text@);
            }
        }
        return None;
    }
    let n = text.unicode_len();
    if n == 0 {
        return None;
    }
    let first = text.get_ascii(0);
    let negative = first == MINUS;
    let signed = negative || first == PLUS;
    let start: usize = if signed {
        1
    } else {
        0
    };
    if start == n {
        return None;
    }
    let limit: u64 = if negative {
        MAGNITUDE_OF_MIN
    } else {
        MAGNITUDE_OF_MAX
    };
    assert(signed == is_signed(text@));
    assert(negative == (text@[0] == '-'));
    assert(text@.subrange(start as int, n as int) =~= unsigned_part(text@));
    assert(Seq::<char>::empty() + unsigned_part(text@) =~= unsigned_part(text@));
    match read_span(text, start, n, 0, limit, Ghost(Seq::empty())) {
        None => None,
        Some(magnitude) => {
            if negative {
                if magnitude == MAGNITUDE_OF_MIN {
                    Some(i64::MIN)
                } else {
                    Some(-(magnitude as i64))
                }
            } else {
                Some(magnitude as i64)
            }
        },
    }
}

/// A run of digits denotes a natural number.
pub proof fn lemma_digits_value_nonnegative(s: Seq<char>)
    requires
        all_digits(s),
    ensures
        digits_value(s) >= 0,
    decreases s.len(),
{
    if s.len() > 0 {
        assert(is_digit(s[s.len() - 1]));
        lemma_digits_value_nonnegative(s.drop_last());
    }
}

/// Appending digits to a run of digits never makes its value smaller.
pub proof fn lemma_digits_value_prefix(s: Seq<char>, i: int)
    requires
        all_digits(s),
        0 <= i <= s.len(),
    ensures
        0 <= digits_value(s.subrange(0, i)) <= digits_value(s),
    decreases s.len(),
{
    if i == s.len() {
        assert(s.subrange(0, i) =~= s);
        lemma_digits_value_nonnegative(s);
    } else {
        assert(is_digit(s[s.len() - 1]));
        assert(s.drop_last().subrange(0, i) =~= s.subrange(0, i));
        lemma_digits_value_prefix(s.drop_last(), i);
    }
}

/// The value of a run of digits, one digit at a time.
pub proof fn lemma_digits_value_step(s: Seq<char>, i: int)
    requires
        0 <= i < s.len(),
    ensures
        digits_value(s.subrange(0, i + 1)) == 10 * digits_value(s.subrange(0, i)) + digit_value(
            s[i],
        ),
{
    assert(s.subrange(0, i + 1).drop_last() =~= s.subrange(0, i));
}

/// Text that denotes an integer is ASCII.
proof fn lemma_integer_is_ascii(s: Seq<char>)
    requires
        integer_value(s) is Some,
    ensures
        vstd::utf8::is_ascii_chars(s),
{
    let digits = unsigned_part(s);
    assert forall|i: int| 0 <= i < s.len() implies '\0' <= #[trigger] s[i] <= '\u{7f}' by {
        if is_signed(s) {
            if i > 0 {
                assert(is_digit(digits[i - 1]));
            }
        } else {
            assert(is_digit(digits[i]));
        }
    }
}

} // verus!
