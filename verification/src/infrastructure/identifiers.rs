//! Fresh identifiers and the current time, which only the platform can give.
use vstd::prelude::*;

verus! {

/// A lowercase hexadecimal digit or a hyphen: the characters of a UUID's
/// hyphenated text.
pub open spec fn uuid_char(c: char) -> bool {
    ('0' <= c && c <= '9') || ('a' <= c && c <= 'f') || c == '-'
}

/// `uuid::Uuid::new_v4().to_string()`: the hyphenated lowercase text of a
/// new random UUID, 36 characters of hexadecimal digits and hyphens. Which
/// UUID comes out is chance and is not stated.
#[verifier::external_body]
pub(crate) fn new_uuid_text() -> (r: String)
    ensures
        r@.len() == 36,
        forall|i: int| 0 <= i < r@.len() ==> uuid_char(#[trigger] r@[i]),
{
    uuid::Uuid::new_v4().to_string()
}

/// `chrono::Utc::now().timestamp_micros()`: the current time, in
/// microseconds since the Unix epoch. What it reads is the clock's business
/// and is not stated.
#[verifier::external_body]
pub(crate) fn current_time_micros() -> (r: i64) {
    chrono::Utc::now().timestamp_micros()
}

} // verus!
