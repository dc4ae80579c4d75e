//! Contracts assumed about outside code: the random number generator, the
//! wall clock, session-id generation, and one `String` method that vstd does
//! not cover. Everything else in the crate is verified against these.

use vstd::prelude::*;

verus! {

/// Relies on String::push: appends the given char to the end of the string.
pub assume_specification[ String::push ](s: &mut String, ch: char)
    ensures
        final(s)@ == old(s)@.push(ch),
;

/// Relies on rand::random_range over `lo..hi`: a draw from the thread-local
/// generator, uniform within the given half-open range; panics only on an
/// empty range, which the precondition rules out.
#[verifier::external_body]
pub fn random_in_range(lo: i64, hi: i64) -> (r: i64)
    requires
        lo < hi,
    ensures
        lo <= r < hi,
{
    rand::random_range(lo..hi)
}

/// Relies on chrono's Utc::now and DateTime::timestamp: the wall clock as
/// whole seconds since the Unix epoch. Nothing can be promised of a clock
/// reading; callers bound the value themselves.
#[verifier::external_body]
pub fn now_epoch_seconds() -> i64 {
    chrono::Utc::now().timestamp()
}

/// Relies on uuid's Uuid::new_v4 and Uuid::as_u128: a freshly drawn random
/// version-4 identifier, carried as its 128-bit value. Nothing can be
/// promised of a random draw.
#[verifier::external_body]
pub fn fresh_session_id() -> u128 {
    uuid::Uuid::new_v4().as_u128()
}

} // verus!
