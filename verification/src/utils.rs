//! Trusted wrappers over the random, UUID and clock crates.  These are the
//! only places where the library calls code whose behaviour Verus takes on
//! the word of this crate's contracts.

use rand::distr::SampleString;
use vstd::prelude::*;

verus! {

/// A character that may appear in a generated stream token.
pub open spec fn is_token_char(c: char) -> bool {
    ('a' <= c && c <= 'z') || ('A' <= c && c <= 'Z') || ('0' <= c && c <= '9')
}

/// Relies on rand's `Alphanumeric` distribution: `sample_string` appends
/// exactly `len` characters, each drawn from `[A-Za-z0-9]`.
#[verifier::external_body]
pub fn generate_token(len: usize) -> (r: String)
    ensures
        r@.len() == len,
        forall|i: int| 0 <= i < r@.len() ==> is_token_char(#[trigger] r@[i]),
{
    rand::distr::Alphanumeric.sample_string(&mut rand::rng(), len)
}

/// Relies on uuid's `new_v4` and its hyphenated lower-hex `Display`:
/// the textual form is always 36 characters.
#[verifier::external_body]
pub fn new_build_id() -> (r: String)
    ensures
        r@.len() == 36,
{
    uuid::Uuid::new_v4().to_string()
}

/// Relies on chrono's `Utc::now`: milliseconds since the Unix epoch.
/// Nothing is promised of the value; callers treat it as opaque.
#[verifier::external_body]
pub fn now_millis() -> (r: i64) {
    chrono::Utc::now().timestamp_millis()
}

} // verus!
