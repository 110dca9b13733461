//! Resolution of the iteration-count argument: an optional non-negative
//! decimal integer, defaulting to 128 when absent. The accepted forms are
//! those of `usize` parsing: one or more decimal digits, with an optional
//! leading `+`, whose value fits in `usize`.

use vstd::prelude::*;

verus! {

/// The iteration count used when no argument is given.
pub const DEFAULT_ITERATIONS: usize = 128;

/// A decimal digit `0` through `9`.
pub open spec fn is_decimal_digit(c: char) -> bool {
    48 <= c as u32 <= 57
}

/// Numeric value of a decimal digit.
pub open spec fn digit_value(c: char) -> int {
    c as u32 - 48
}

/// Every character of `s` is a decimal digit.
pub open spec fn all_decimal_digits(s: Seq<char>) -> bool {
    forall|i: int| 0 <= i < s.len() ==> is_decimal_digit(#[trigger] s[i])
}

/// The number written by the digit string `s`, most significant first.
pub open spec fn decimal_value(s: Seq<char>) -> int
    decreases s.len(),
{
    if s.len() == 0 {
        0
    } else {
        decimal_value(s.drop_last()) * 10 + digit_value(s.last())
    }
}

/// The digit portion of `s`: everything after one optional leading `+`.
pub open spec fn digits_of(s: Seq<char>) -> Seq<char> {
    if s.len() > 0 && s[0] == '+' {
        s.subrange(1, s.len() as int)
    } else {
        s
    }
}

/// What parsing `s` as a `usize` yields: its decimal value, if `s` is one
/// or more digits after an optional `+` and the value fits.
pub open spec fn spec_parse_usize(s: Seq<char>) -> Option<int> {
    let body = digits_of(s);
    if body.len() > 0 && all_decimal_digits(body) && decimal_value(body) <= usize::MAX as int {
        Some(decimal_value(body))
    } else {
        None
    }
}

/// A digit string's value is never negative.
proof fn lemma_decimal_value_nonneg(s: Seq<char>)
    requires
        all_decimal_digits(s),
    ensures
        decimal_value(s) >= 0,
    decreases s.len(),
{
    if s.len() > 0 {
        assert(all_decimal_digits(s.drop_last()));
        lemma_decimal_value_nonneg(s.drop_last());
    }
}

/// Extending a digit string never lowers its value: a prefix's value is a
/// lower bound for the whole string's.
proof fn lemma_decimal_value_prefix(s: Seq<char>, k: int)
    requires
        all_decimal_digits(s),
        0 <= k <= s.len(),
    ensures
        decimal_value(s.take(k)) <= decimal_value(s),
    decreases s.len() - k,
{
    if k == s.len() {
        assert(s.take(k) =~= s);
    } else {
        assert(s.take(k + 1).drop_last() =~= s.take(k));
        assert(s.take(k + 1).last() == s[k]);
        assert(all_decimal_digits(s.take(k)));
        lemma_decimal_value_nonneg(s.take(k));
        lemma_decimal_value_prefix(s, k + 1);
    }
}

/// Parse `s` as a non-negative decimal integer, exactly as
/// `spec_parse_usize` describes: `None` on an empty digit portion, a
/// non-digit character, or a value that does not fit in `usize`.
#[verifier::loop_isolation(false)]
pub fn parse_usize(s: &str) -> (r: Option<usize>)
    ensures
        r matches Some(n) ==> spec_parse_usize(s@) == Some(n as int),
        r is None ==> spec_parse_usize(s@) is None,
{
    let len = s.unicode_len();
    let start: usize = if len > 0 && s.get_char(0) == '+' {
        1
    } else {
        0
    };
    let ghost body = digits_of(s@);
    proof {
        assert(body.len() == len - start);
        assert(forall|k: int| 0 <= k < body.len() ==> body[k] == s@[k + start]);
    }
    if start >= len {
        return None;
    }
    let mut acc: usize = 0;
    let mut i: usize = start;
    while i < len
        invariant
            start <= i <= len,
            all_decimal_digits(body.take(i - start)),
            acc == decimal_value(body.take(i - start)),
        decreases len - i,
    {
        let c = s.get_char(i);
        let u = c as u32;
        if u < 48 || u > 57 {
            proof {
                assert(body[i - start] == s@[i as int]);
                assert(!is_decimal_digit(body[i - start]));
            }
            return None;
        }
        let d = (u - 48) as usize;
        let ghost j = i - start;
        proof {
            assert(body.take(j + 1).drop_last() =~= body.take(j));
            assert(body.take(j + 1).last() == body[j]);
            assert(body[j] == s@[i as int]);
            assert(decimal_value(body.take(j + 1)) == acc * 10 + d);
        }
        let acc10 = match acc.checked_mul(10) {
            Some(v) => v,
            None => {
                proof {
                    if all_decimal_digits(body) {
                        lemma_decimal_value_prefix(body, j + 1);
                    }
                }
                return None;
            },
        };
        let next = match acc10.checked_add(d) {
            Some(v) => v,
            None => {
                proof {
                    if all_decimal_digits(body) {
                        lemma_decimal_value_prefix(body, j + 1);
                    }
                }
                return None;
            },
        };
        acc = next;
        i += 1;
    }
    proof {
        assert(body.take(i - start) =~= body);
    }
    Some(acc)
}

/// Resolve the iteration-count argument: the default when absent, its
/// parsed value when it parses, and `None`, meaning the usage message is
/// owed, when it does not.
pub fn parse_iterations_arg_or_default(arg: Option<&String>) -> (r: Option<usize>)
    ensures
        arg is None ==> r == Some(DEFAULT_ITERATIONS),
        arg matches Some(s) ==> ((r matches Some(n) ==> spec_parse_usize(s@) == Some(n as int)) && (
        r is None ==> spec_parse_usize(s@) is None)),
{
    match arg {
        None => Some(DEFAULT_ITERATIONS),
        Some(s) => parse_usize(s.as_str()),
    }
}

} // verus!
