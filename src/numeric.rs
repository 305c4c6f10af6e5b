//! Decimal integer text, as `str::parse` reads it for the integer types.
use vstd::prelude::*;

verus! {

pub open spec fn is_digit(c: char) -> bool {
    '0' <= c && c <= '9'
}

pub open spec fn all_digits(s: Seq<char>) -> bool {
    forall|i: int| 0 <= i < s.len() ==> is_digit(#[trigger] s[i])
}

/// The value of a run of decimal digits, most significant first.
pub open spec fn digits_value(s: Seq<char>) -> nat
    decreases s.len(),
{
    if s.len() == 0 {
        0
    } else {
        digits_value(s.drop_last()) * 10 + ((s.last() as u32 - '0' as u32) as nat)
    }
}

/// The value of an unsigned decimal text: an optional `+` then one or more
/// digits, nothing else.
pub open spec fn unsigned_text(s: Seq<char>) -> Option<nat> {
    let body = if s.len() > 0 && s[0] == '+' { s.drop_first() } else { s };
    if body.len() > 0 && all_digits(body) {
        Some(digits_value(body))
    } else {
        None
    }
}

/// The value of a signed decimal text: an optional `+` or `-` then one or
/// more digits, nothing else.
pub open spec fn signed_text(s: Seq<char>) -> Option<int> {
    if s.len() > 0 && s[0] == '-' {
        let body = s.drop_first();
        if body.len() > 0 && all_digits(body) {
            Some(-(digits_value(body) as int))
        } else {
            None
        }
    } else {
        match unsigned_text(s) {
            Some(n) => Some(n as int),
            None => None,
        }
    }
}

/// Relies on `str::parse::<u64>`: optional `+`, then decimal digits whose
/// value fits; any other text is an error, kept as its message.
#[verifier::external_body]
pub(crate) fn parse_u64(s: &str) -> (r: Result<u64, String>)
    ensures
        r is Ok <==> (unsigned_text(s@) matches Some(n) && n <= u64::MAX),
        r matches Ok(v) ==> unsigned_text(s@) == Some(v as nat),
{
    s.parse::<u64>().map_err(|e| e.to_string())
}

/// Relies on `str::parse::<u32>`: optional `+`, then decimal digits whose
/// value fits; any other text is an error, kept as its message.
#[verifier::external_body]
pub(crate) fn parse_u32(s: &str) -> (r: Result<u32, String>)
    ensures
        r is Ok <==> (unsigned_text(s@) matches Some(n) && n <= u32::MAX),
        r matches Ok(v) ==> unsigned_text(s@) == Some(v as nat),
{
    s.parse::<u32>().map_err(|e| e.to_string())
}

/// Relies on `str::parse::<i64>`: optional sign, then decimal digits whose
/// value fits; any other text is an error, kept as its message.
#[verifier::external_body]
pub(crate) fn parse_i64(s: &str) -> (r: Result<i64, String>)
    ensures
        r is Ok <==> (signed_text(s@) matches Some(n) && i64::MIN <= n <= i64::MAX),
        r matches Ok(v) ==> signed_text(s@) == Some(v as int),
{
    s.parse::<i64>().map_err(|e| e.to_string())
}

} // verus!
