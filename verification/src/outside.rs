//! What the library asks of the clock, of chance, and of the standard library's text functions.

use vstd::prelude::*;

verus! {

/// The text that `str::to_lowercase` makes of a text.
pub uninterp spec fn lowercased(s: Seq<char>) -> Seq<char>;

/// The text that `String::from_utf8_lossy` makes of some bytes.
pub uninterp spec fn lossy_text(bytes: Seq<u8>) -> Seq<char>;

/// Calls `str::to_lowercase`, whose result depends on the text alone.
#[verifier::external_body]
pub(crate) fn to_lowercase(s: &str) -> (r: String)
    ensures
        r@ == lowercased(s@),
{
    s.to_lowercase()
}

/// Calls `String::from_utf8_lossy`, whose result depends on the bytes alone.
#[verifier::external_body]
pub(crate) fn from_utf8_lossy(bytes: &Vec<u8>) -> (r: String)
    ensures
        r@ == lossy_text(bytes@),
{
    String::from_utf8_lossy(bytes).into_owned()
}

/// Calls `chrono::Utc::now` and `timestamp_millis`: the milliseconds since the start of 1970.
/// Nothing is claimed of the reading.
#[verifier::external_body]
pub(crate) fn timestamp_millis() -> (r: i64) {
    chrono::Utc::now().timestamp_millis()
}

/// Calls `chrono::Utc::now` and `timestamp`: the seconds since the start of 1970. Nothing is
/// claimed of the reading.
#[verifier::external_body]
pub(crate) fn timestamp() -> (r: i64) {
    chrono::Utc::now().timestamp()
}

/// Calls `rand::random` for a 64-bit word. Nothing is claimed of the word.
#[verifier::external_body]
pub(crate) fn random_word() -> (r: u64) {
    rand::random::<u64>()
}

} // verus!
