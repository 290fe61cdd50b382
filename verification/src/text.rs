//! Text helpers over std's formatting and replacing.
use vstd::prelude::*;

verus! {

/// The decimal digit for a number below 10.
pub open spec fn digit_char(d: nat) -> char {
    (48 + d) as char
}

/// The decimal text of a natural number, without sign or leading zeros.
pub open spec fn decimal_text(n: nat) -> Seq<char>
    decreases n,
{
    if n < 10 {
        seq![digit_char(n)]
    } else {
        decimal_text(n / 10).push(digit_char(n % 10))
    }
}

/// `text` with every occurrence of the character `from` replaced by `to`.
pub open spec fn replaced(text: Seq<char>, from: char, to: Seq<char>) -> Seq<char>
    decreases text.len(),
{
    if text.len() == 0 {
        Seq::empty()
    } else {
        (if text[0] == from {
            to
        } else {
            seq![text[0]]
        }) + replaced(text.drop_first(), from, to)
    }
}

/// The decimal text of `n`, by `ToString` (`Display`) for `usize`.
///
/// Trusted: std's `Display` for unsigned integers writes the decimal digits of
/// the number with no sign, padding or leading zeros, which is `decimal_text`.
#[verifier::external_body]
pub(crate) fn usize_text(n: usize) -> (text: String)
    ensures
        text@ == decimal_text(n as nat),
{
    n.to_string()
}

/// `text` with every `from` replaced by `to`, by std's `str::replace`.
///
/// Trusted: `str::replace` with a `char` pattern copies the text and puts `to`
/// in place of each occurrence of that character, which is `replaced`.
#[verifier::external_body]
pub(crate) fn replace_char(text: &str, from: char, to: &str) -> (r: String)
    ensures
        r@ == replaced(text@, from, to@),
{
    text.replace(from, to)
}

} // verus!
