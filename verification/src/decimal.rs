//! The textual grammar of integers: an optional sign followed by ASCII
//! decimal digits, and nothing else.

use vstd::prelude::*;
use vstd::std_specs::iter::IteratorSpec;
use vstd::string::StrSliceExecFns;

verus! {

/// Whether `c` is one of the ASCII digits `0` to `9`.
pub open spec fn is_digit(c: char) -> bool {
    '0' <= c <= '9'
}

/// The value of an ASCII digit.
pub open spec fn digit_value(c: char) -> int {
    c as int - '0' as int
}

/// Whether `s` holds ASCII digits only.
pub open spec fn all_digits(s: Seq<char>) -> bool {
    forall|i: int| 0 <= i < s.len() ==> is_digit(#[trigger] s[i])
}

/// The number that a run of digits denotes, most significant digit first.
pub open spec fn digits_value(s: Seq<char>) -> int
    decreases s.len(),
{
    if s.len() == 0 {
        0
    } else {
        10 * digits_value(s.drop_last()) + digit_value(s.last())
    }
}

/// Whether `token` opens with a sign: `+` for any integer, `-` for a signed
/// one only.
pub open spec fn has_sign(token: Seq<char>, signed: bool) -> bool {
    token.len() > 0 && (token[0] == '+' || (signed && token[0] == '-'))
}

/// The digits of `token`: what follows its sign, or all of it.
pub open spec fn digits_of(token: Seq<char>, signed: bool) -> Seq<char> {
    if has_sign(token, signed) {
        token.skip(1)
    } else {
        token
    }
}

/// The integer that `token` denotes, if it is well formed: an optional sign
/// and at least one digit.
pub open spec fn decimal(token: Seq<char>, signed: bool) -> Option<int> {
    let digits = digits_of(token, signed);
    if digits.len() > 0 && all_digits(digits) {
        Some(
            if has_sign(token, signed) && token[0] == '-' {
                -digits_value(digits)
            } else {
                digits_value(digits)
            },
        )
    } else {
        None
    }
}

/// The integer that `token` denotes, if it is well formed and lies between
/// `min` and `max`.
pub open spec fn integer_within(token: Seq<char>, signed: bool, min: int, max: int) -> Option<
    int,
> {
    match decimal(token, signed) {
        Some(n) => if min <= n <= max {
            Some(n)
        } else {
            None
        },
        None => None,
    }
}

/// A run of digits never denotes a negative number, and a longer run never
/// denotes less than the run it extends.
pub proof fn lemma_digits_value_grows(s: Seq<char>, k: int)
    requires
        all_digits(s),
        0 <= k <= s.len(),
    ensures
        0 <= digits_value(s.take(k)) <= digits_value(s),
    decreases s.len() - k,
{
    lemma_digits_value_nonnegative(s.take(k));
    if k < s.len() {
        lemma_digits_value_grows(s, k + 1);
        let longer = s.take(k + 1);
        assert(longer.drop_last() =~= s.take(k));
        assert(is_digit(longer.last()));
    } else {
        assert(s.take(k) =~= s);
    }
}

/// A run of digits never denotes a negative number.
pub proof fn lemma_digits_value_nonnegative(s: Seq<char>)
    requires
        all_digits(s),
    ensures
        0 <= digits_value(s),
    decreases s.len(),
{
    if s.len() > 0 {
        assert(is_digit(s.last()));
        lemma_digits_value_nonnegative(s.drop_last());
    }
}

/// Reads the magnitude of a run of digits, as long as it does not exceed
/// `limit`.
pub fn parse_digits(digits: &str, limit: u128) -> (magnitude: Option<u128>)
    ensures
        match magnitude {
            Some(m) => digits@.len() > 0 && all_digits(digits@) && m == digits_value(digits@) && m
                <= limit,
            None => !(digits@.len() > 0 && all_digits(digits@) && digits_value(digits@) <= limit),
        },
{
    let n: usize = digits.unicode_len();
    if n == 0 {
        return None;
    }
    let mut rest = digits.chars();
    let mut seen: usize = 0;
    let mut total: u128 = 0;
    loop
        invariant
            n == digits@.len(),
            rest.obeys_prophetic_iter_laws(),
            rest.remaining() == digits@.skip(seen as int),
            seen <= n,
            n > 0,
            all_digits(digits@.take(seen as int)),
            total == digits_value(digits@.take(seen as int)),
            total <= limit,
        decreases n - seen,
    {
        match rest.next() {
            None => {
                proof {
                    assert(digits@.take(seen as int) =~= digits@);
                }
                return Some(total);
            },
            Some(c) => {
                let ghost longer = digits@.take(seen + 1);
                proof {
                    assert(longer.drop_last() =~= digits@.take(seen as int));
                    assert(longer.last() == c);
                }
                if !('0' <= c && c <= '9') {
                    proof {
                        assert(!is_digit(digits@[seen as int]));
                    }
                    return None;
                }
                let d: u128 = (c as u32 - '0' as u32) as u128;
                proof {
                    assert(all_digits(longer)) by {
                        assert forall|i: int| 0 <= i < longer.len() implies is_digit(
                            #[trigger] longer[i],
                        ) by {
                            if i < seen {
                                assert(longer[i] == digits@.take(seen as int)[i]);
                            }
                        }
                    }
                    assert(digits_value(longer) == 10 * total + d);
                }
                if d > limit || total > (limit - d) / 10 {
                    proof {
                        assert(10 * total + d > limit);
                        if all_digits(digits@) {
                            lemma_digits_value_grows(digits@, seen + 1);
                        }
                    }
                    return None;
                }
                total = total * 10 + d;
                seen = seen + 1;
            },
        }
    }
}

/// Reads an integer: the sign it opens with, if any, and its magnitude. The
/// magnitude may be at most `most` for a number that is not negative and at
/// most `least` for a negative one.
pub fn parse_integer(token: &str, signed: bool, most: u128, least: u128) -> (parsed: Option<
    (bool, u128),
>)
    ensures
        match parsed {
            Some((negative, magnitude)) => {
                &&& integer_within(token@, signed, -(least as int), most as int) == Some(
                    if negative {
                        -(magnitude as int)
                    } else {
                        magnitude as int
                    },
                )
                &&& negative ==> signed
                &&& negative ==> magnitude <= least
                &&& !negative ==> magnitude <= most
            },
            None => integer_within(token@, signed, -(least as int), most as int) is None,
        },
{
    let n: usize = token.unicode_len();
    if n == 0 {
        return None;
    }
    let first = token.get_char(0);
    let negative = signed && first == '-';
    let digits = if first == '+' || negative {
        token.substring_char(1, n)
    } else {
        token
    };
    proof {
        assert(token@.subrange(1, n as int) =~= token@.skip(1));
        assert(digits@ == digits_of(token@, signed));
    }
    let limit = if negative {
        least
    } else {
        most
    };
    match parse_digits(digits, limit) {
        Some(magnitude) => Some((negative, magnitude)),
        None => {
            proof {
                if digits@.len() > 0 && all_digits(digits@) {
                    lemma_digits_value_nonnegative(digits@);
                }
            }
            None
        },
    }
}

} // verus!
