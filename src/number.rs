//! Unsigned integers written as decimal text.
//!
//! The provider sends several numeric fields as quoted strings; the same text
//! form is how `Json` keeps a number. A field is read by the deserializer that
//! accepts a number or a numeric string.

use vstd::prelude::*;

verus! {

pub open spec fn is_decimal_digit(c: char) -> bool {
    '0' <= c && c <= '9'
}

/// The value of a run of decimal digits.
pub open spec fn digits_value(s: Seq<char>) -> nat
    decreases s.len(),
{
    if s.len() == 0 {
        0
    } else {
        digits_value(s.drop_last()) * 10 + (s.last() as nat - '0' as nat) as nat
    }
}

/// The text after an optional leading `+`.
pub open spec fn unsigned_part(s: Seq<char>) -> Seq<char> {
    if s.len() > 0 && s[0] == '+' {
        s.drop_first()
    } else {
        s
    }
}

/// What `u32`'s `FromStr` accepts: an optional `+` followed by one or more
/// decimal digits whose value fits in 32 bits.
pub open spec fn decimal_u32(s: Seq<char>) -> Option<u32> {
    let d = unsigned_part(s);
    if d.len() > 0 && (forall|i: int| 0 <= i < d.len() ==> is_decimal_digit(#[trigger] d[i]))
        && digits_value(d) <= u32::MAX {
        Some(digits_value(d) as u32)
    } else {
        None
    }
}

/// Relies on serde_aux's `deserialize_number_from_string`, which reads a
/// string through `u32`'s `FromStr` (an optional `+`, then decimal digits, in
/// range).
#[verifier::external_body]
pub(crate) fn number_from_string(s: &String) -> (r: Option<u32>)
    ensures
        r == decimal_u32(s@),
{
    serde_aux::prelude::deserialize_number_from_string::<u32, serde_json::Value>(
        serde_json::Value::String(s.clone()),
    ).ok()
}

pub open spec fn digit_char(d: nat) -> char {
    if d == 0 {
        '0'
    } else if d == 1 {
        '1'
    } else if d == 2 {
        '2'
    } else if d == 3 {
        '3'
    } else if d == 4 {
        '4'
    } else if d == 5 {
        '5'
    } else if d == 6 {
        '6'
    } else if d == 7 {
        '7'
    } else if d == 8 {
        '8'
    } else {
        '9'
    }
}

/// The decimal form of `n`, without leading zeros.
pub open spec fn decimal_of(n: nat) -> Seq<char>
    decreases n,
{
    if n < 10 {
        seq![digit_char(n)]
    } else {
        decimal_of(n / 10).push(digit_char(n % 10))
    }
}

/// Relies on `u32`'s `Display` (through `ToString`): the decimal digits of the
/// value, without sign or leading zeros.
#[verifier::external_body]
pub(crate) fn decimal_text(n: u32) -> (r: String)
    ensures
        r@ == decimal_of(n as nat),
{
    n.to_string()
}

} // verus!
