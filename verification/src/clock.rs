use vstd::prelude::*;

verus! {

/// The current time in UTC as an RFC 3339 timestamp.
///
/// Calls `Utc::now` and writes the result out with `DateTime::to_rfc3339`. What comes back
/// depends on when the call is made, so the contract promises nothing of it.
#[verifier::external_body]
pub(crate) fn timestamp_now() -> (now: String) {
    chrono::Utc::now().to_rfc3339()
}

} // verus!
