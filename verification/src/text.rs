//! Small trusted bridge to std's string formatting, used to assemble
//! diagnostic messages, plus the spec-level decimal rendering it is held to.
use vstd::prelude::*;

verus! {

/// The decimal digit character for `d`, which must lie in `0..10`.
pub open spec fn dec_digit(d: int) -> char
    recommends
        0 <= d < 10,
{
    seq!['0', '1', '2', '3', '4', '5', '6', '7', '8', '9'][d]
}

/// The decimal rendering of a non-negative integer: no sign, no leading
/// zeros (a single `'0'` for zero).
pub open spec fn dec_seq(n: int) -> Seq<char>
    recommends
        n >= 0,
    decreases n,
{
    if n < 10 {
        seq![dec_digit(n)]
    } else {
        dec_seq(n / 10).push(dec_digit(n % 10))
    }
}

/// Relies on std's string formatting: the concatenation of two strings.
#[verifier::external_body]
pub(crate) fn concat_str(a: &str, b: &str) -> (r: String)
    ensures
        r@ == a@ + b@,
{
    format!("{a}{b}")
}

/// Relies on std's `Display` for `u64`: decimal digits, no sign, no
/// leading zeros.
#[verifier::external_body]
pub(crate) fn u64_to_decimal(v: u64) -> (r: String)
    ensures
        r@ == dec_seq(v as int),
{
    format!("{v}")
}

} // verus!
