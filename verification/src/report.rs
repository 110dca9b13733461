//! Rendering of the per-trial status line: the iteration index and either
//! the boolean verdict or the failure's description, exactly as the
//! characters are specified here.

use vstd::prelude::*;
use vstd::string::StrSliceExecFns;
use vstd::string::StringExecFns;

use crate::runner::IterationOutcome;

verus! {

/// Relies on `String::push`: its documentation says it appends the given
/// `char` to the end of the string.
pub assume_specification [ String::push ](s: &mut String, c: char)
    ensures
        final(s)@ == old(s)@.push(c),
;

/// The character for a digit value `0` through `9`.
pub open spec fn digit_char(d: int) -> char {
    ((d + 48) as u8) as char
}

/// The decimal digits of `n`, most significant first, no leading zeros
/// except for `n == 0` itself.
pub open spec fn decimal_digits(n: int) -> Seq<char>
    decreases n,
{
    if n < 10 {
        seq![digit_char(n)]
    } else {
        decimal_digits(n / 10).push(digit_char(n % 10))
    }
}

/// Render `n` in decimal.
#[verifier::loop_isolation(false)]
pub fn render_usize(n: usize) -> (r: String)
    ensures
        r@ == decimal_digits(n as int),
{
    let mut m: usize = n / 10;
    let mut rev: Vec<char> = Vec::new();
    rev.push((48 + (n % 10) as u8) as char);
    while m > 0
        invariant
            rev@.len() >= 1,
            decimal_digits(n as int) == (if m > 0 {
                decimal_digits(m as int)
            } else {
                Seq::<char>::empty()
            }) + rev@.reverse(),
        decreases m,
    {
        let ghost prev = rev@;
        rev.push((48 + (m % 10) as u8) as char);
        proof {
            assert(rev@.reverse() =~= seq![digit_char(m as int % 10)] + prev.reverse());
            if m >= 10 {
                assert(decimal_digits(m as int) == decimal_digits(m as int / 10).push(
                    digit_char(m as int % 10),
                ));
                assert(decimal_digits(m as int / 10) + rev@.reverse() =~= decimal_digits(
                    m as int,
                ) + prev.reverse());
            } else {
                assert(decimal_digits(m as int) =~= seq![digit_char(m as int)]);
                assert(rev@.reverse() =~= decimal_digits(m as int) + prev.reverse());
            }
        }
        m = m / 10;
    }
    let mut out = String::new();
    let mut i: usize = rev.len();
    while i > 0
        invariant
            i <= rev@.len(),
            out@ == rev@.reverse().subrange(0, rev@.len() - i),
        decreases i,
    {
        let ghost sofar = out@;
        out.push(rev[i - 1]);
        proof {
            assert(rev@.reverse()[rev@.len() - i] == rev@[i - 1]);
            assert(sofar.push(rev@[i - 1]) =~= rev@.reverse().subrange(0, rev@.len() - (i - 1)));
        }
        i = i - 1;
    }
    proof {
        assert(rev@.reverse().subrange(0, rev@.len() as int) =~= rev@.reverse());
    }
    out
}

/// The characters of a boolean verdict.
pub open spec fn bool_chars(b: bool) -> Seq<char> {
    if b {
        "true"@
    } else {
        "false"@
    }
}

/// The full status line owed for trial `index` with outcome `o`.
pub open spec fn report_line_chars(index: int, o: IterationOutcome) -> Seq<char> {
    match o {
        IterationOutcome::Verified(b) => "Iteration "@ + decimal_digits(index)
            + " validation result: "@ + bool_chars(b),
        IterationOutcome::Failed(d) => "Iteration "@ + decimal_digits(index) + " failed: "@ + d@,
    }
}

/// Render the status line for one trial, character for character as
/// `report_line_chars` states it.
pub fn report_line(index: usize, outcome: &IterationOutcome) -> (r: String)
    ensures
        r@ == report_line_chars(index as int, *outcome),
{
    let mut out = String::from_str("Iteration ");
    let digits = render_usize(index);
    out.append(digits.as_str());
    match outcome {
        IterationOutcome::Verified(b) => {
            out.append(" validation result: ");
            out.append(if *b {
                "true"
            } else {
                "false"
            });
        },
        IterationOutcome::Failed(d) => {
            out.append(" failed: ");
            out.append(d.as_str());
        },
    }
    out
}

} // verus!
