use vstd::prelude::*;
use crate::wire::{be_bytes, encode_u64_be};

verus! {

#[verifier::external_type_specification]
#[verifier::external_body]
pub struct ExSystemTime(std::time::SystemTime);

#[verifier::external_type_specification]
#[verifier::external_body]
pub struct ExSystemTimeError(std::time::SystemTimeError);

/// Relies on `SystemTime::now`: the current reading of the system clock.
#[verifier::external_body]
fn system_now() -> (r: std::time::SystemTime) {
    std::time::SystemTime::now()
}

/// Relies on `SystemTime::duration_since`: the time elapsed since the Unix
/// epoch, or an error when `t` is earlier.
#[verifier::external_body]
fn since_epoch(t: &std::time::SystemTime) -> (r: Result<std::time::Duration, std::time::SystemTimeError>) {
    t.duration_since(std::time::UNIX_EPOCH)
}

/// Relies on `Duration::as_secs`: the whole seconds of a duration.
#[verifier::external_body]
fn whole_seconds(d: &std::time::Duration) -> (r: u64) {
    d.as_secs()
}

/// Whole seconds since the Unix epoch, or `None` when the system clock
/// reads earlier.
pub(crate) fn seconds_since_epoch() -> (r: Option<u64>) {
    match since_epoch(&system_now()) {
        Ok(d) => Some(whole_seconds(&d)),
        Err(_) => None,
    }
}

/// The current time as the eight-byte replay token of a signed block:
/// seconds since the Unix epoch, most significant byte first. `None` when the
/// system clock is set before the epoch.
pub fn timestamp() -> (r: Option<Vec<u8>>)
    ensures
        r matches Some(b) ==> exists|s: u64| b@ == #[trigger] be_bytes(s as nat, 8),
{
    match seconds_since_epoch() {
        Some(s) => Some(encode_u64_be(s)),
        None => None,
    }
}

} // verus!
