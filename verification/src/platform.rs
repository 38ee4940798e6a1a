//! What the library takes from its surroundings: the clock, fresh
//! identifiers, and two text transformations of outside crates.
use vstd::prelude::*;
use vstd::string::StringSliceAdditionalSpecFns;

verus! {

/// `chrono::Utc::now().timestamp()`: seconds since the epoch. Nothing is
/// promised of the value.
#[verifier::external_body]
pub(crate) fn unix_now() -> i64 {
    chrono::Utc::now().timestamp()
}

/// `uuid::Uuid::new_v4().to_string()`: a random identifier. Nothing is
/// promised of the value, not even that it differs from an earlier one.
#[verifier::external_body]
pub(crate) fn fresh_id() -> String {
    uuid::Uuid::new_v4().to_string()
}

/// The seconds since the epoch of the instant that an RFC 3339 text names,
/// as `chrono` reads it; `None` where it reads none.
pub uninterp spec fn spec_rfc3339_timestamp(text: Seq<char>) -> Option<i64>;

/// `chrono::DateTime::parse_from_rfc3339`, then `timestamp`: the result is the
/// text's `spec_rfc3339_timestamp`.
#[verifier::external_body]
pub(crate) fn rfc3339_timestamp(text: &str) -> (r: Option<i64>)
    ensures
        r == spec_rfc3339_timestamp(text@),
{
    match chrono::DateTime::parse_from_rfc3339(text) {
        Ok(t) => Some(t.timestamp()),
        Err(_) => None,
    }
}

/// A byte that percent-encoding leaves as it is: an ASCII letter or digit,
/// `-`, `.`, `_` or `~`.
pub open spec fn is_unreserved(b: u8) -> bool {
    (0x30 <= b <= 0x39) || (0x41 <= b <= 0x5a) || (0x61 <= b <= 0x7a) || b == 0x2d || b == 0x2e
        || b == 0x5f || b == 0x7e
}

/// The upper-case hexadecimal digit of a value below 16.
pub open spec fn hex_digit(d: int) -> char {
    if d < 10 {
        (0x30 + d) as char
    } else {
        (0x41 + d - 10) as char
    }
}

/// One byte, percent-encoded.
pub open spec fn spec_encode_byte(b: u8) -> Seq<char> {
    if is_unreserved(b) {
        seq![b as char]
    } else {
        seq!['%', hex_digit(b as int / 16), hex_digit(b as int % 16)]
    }
}

/// A run of bytes, percent-encoded byte by byte.
pub open spec fn spec_percent_encode(bytes: Seq<u8>) -> Seq<char>
    decreases bytes.len(),
{
    if bytes.len() == 0 {
        Seq::empty()
    } else {
        spec_percent_encode(bytes.drop_last()) + spec_encode_byte(bytes.last())
    }
}

/// `urlencoding::encode`: the UTF-8 bytes of the text, each percent-encoded
/// unless it is unreserved.
#[verifier::external_body]
pub(crate) fn url_encode(text: &str) -> (r: String)
    ensures
        r@ == spec_percent_encode(text.spec_bytes()),
{
    urlencoding::encode(text).into_owned()
}

} // verus!
