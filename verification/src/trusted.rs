//! Contracts assumed of outside code: the JSON payload type carried through
//! the scheduler, the system clock, and string equality.

use vstd::prelude::*;

verus! {

/// `serde_json::Value` is the payload format of task inputs and results.
/// The scheduler stores and hands these values through without reading them,
/// so the type is declared opaque.
#[verifier::external_type_specification]
#[verifier::external_body]
pub struct ExValue(serde_json::Value);

/// Relies on `<str as PartialEq>::eq`: two string slices compare equal
/// exactly when their character sequences are equal.
pub assume_specification[ <str as PartialEq>::eq ](a: &str, b: &str) -> (r: bool)
    ensures
        r == (a@ == b@),
;

/// Relies on `std::time::SystemTime::now`: the wall clock, read as whole
/// seconds since the Unix epoch. Nothing is promised of the value; callers
/// only record it.
#[verifier::external_body]
pub(crate) fn now_unix_seconds() -> u64 {
    match std::time::SystemTime::now().duration_since(std::time::UNIX_EPOCH) {
        Ok(d) => d.as_secs(),
        Err(_) => 0,
    }
}

} // verus!
