//! Descriptive failure messages for out-of-range field values.
//!
//! The accessors of the bitfield structures report a rejected value with a
//! short sentence that embeds the value in decimal. The rendering itself is
//! done by the standard formatter; its output is specified here as the
//! decimal digit sequence of the value between the two fixed phrases.

use vstd::prelude::*;

verus! {

/// The character for a single decimal digit.
pub open spec fn digit_char(d: u8) -> char {
    ((48 + d) as u8) as char
}

/// The decimal digit characters of `n`, most significant first.
pub open spec fn decimal_chars(n: u128) -> Seq<char>
    decreases n,
{
    if n < 10 {
        seq![digit_char(n as u8)]
    } else {
        decimal_chars(n / 10).push(digit_char((n % 10) as u8))
    }
}

/// Relies on `format!` with the decimal `Display` of `u128`: the result is
/// the first phrase, the decimal digits of `n`, then the second phrase.
#[verifier::external_body]
pub fn compose_message(before: &str, n: u128, after: &str) -> (r: String)
    ensures
        r@ == before@ + decimal_chars(n as u128) + after@,
{
    format!("{}{}{}", before, n, after)
}

} // verus!
