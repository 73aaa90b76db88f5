//! The time of day.

use vstd::prelude::*;

use crate::foreign::since_epoch;

verus! {

/// The seconds of a reading since the epoch; zero where the clock stands
/// before it.
pub fn seconds(reading: Option<u64>) -> (secs: u64)
    ensures
        secs == (match reading {
            Some(s) => s,
            None => 0,
        }),
{
    match reading {
        Some(s) => s,
        None => 0,
    }
}

/// Seconds since the Unix epoch, by this machine's clock.
pub fn now() -> u64 {
    match since_epoch(&std::time::SystemTime::now()) {
        Ok(elapsed) => seconds(Some(elapsed.as_secs())),
        Err(_) => seconds(None),
    }
}

}
