//! The wall clock.
use vstd::prelude::*;

verus! {

/// Whole seconds elapsed since the Unix epoch, read through
/// `std::time::SystemTime::now` and `SystemTime::duration_since`, which std
/// documents to fail when the clock reads a time before the epoch: that
/// failure gives `None`. The reading depends on the moment of the call, so
/// nothing is claimed of its value.
#[verifier::external_body]
fn seconds_since_epoch() -> Option<u64> {
    match std::time::SystemTime::now().duration_since(std::time::UNIX_EPOCH) {
        Ok(elapsed) => Some(elapsed.as_secs()),
        Err(_) => None,
    }
}

/// The current time in whole seconds since the Unix epoch, or `None` when
/// the system clock cannot give it as an `i64` (it reads a time before the
/// epoch, or one too far after it).
pub(crate) fn now_timestamp() -> (t: Option<i64>)
    ensures
        t matches Some(s) ==> s >= 0,
{
    match seconds_since_epoch() {
        Some(s) => {
            if s <= 0x7fff_ffff_ffff_ffffu64 {
                Some(s as i64)
            } else {
                None
            }
        },
        None => None,
    }
}

} // verus!
