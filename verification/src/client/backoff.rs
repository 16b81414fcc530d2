//! How long a client waits before it tries to connect again.
use std::time::Duration;
use vstd::arithmetic::power2::{lemma2_to64, lemma_pow2_strictly_increases, pow2};
use vstd::prelude::*;

verus! {

/// The longest wait, in seconds.
pub const MAX_RECONNECT_BACKOFF_SECS: u64 = 300;

/// The duration of a whole number of seconds.
pub uninterp spec fn duration_of_secs(secs: u64) -> Duration;

/// `std::time::Duration::from_secs` gives the duration of the number of seconds.
pub assume_specification[ std::time::Duration::from_secs ](secs: u64) -> (d: Duration)
    ensures
        d == duration_of_secs(secs),
;

/// The wait after `attempts` failures, in seconds: none at first, then one second, doubled with
/// each failure up to the longest wait.
pub open spec fn backoff_secs(attempts: u32) -> int {
    if attempts == 0 {
        0
    } else if attempts < 10 && pow2((attempts - 1) as nat) < MAX_RECONNECT_BACKOFF_SECS {
        pow2((attempts - 1) as nat) as int
    } else {
        MAX_RECONNECT_BACKOFF_SECS as int
    }
}

/// The wait after `attempts` failures, in seconds.
pub fn reconnect_backoff_secs(attempts: u32) -> (secs: u64)
    ensures
        secs == backoff_secs(attempts),
{
    proof {
        lemma2_to64();
    }
    match attempts {
        0 => 0,
        1 => 1,
        2 => 2,
        3 => 4,
        4 => 8,
        5 => 16,
        6 => 32,
        7 => 64,
        8 => 128,
        9 => 256,
        _ => MAX_RECONNECT_BACKOFF_SECS,
    }
}

/// The wait after `attempts` failures.
pub fn calculate_reconnect_backoff(attempts: u32) -> (d: Duration)
    ensures
        d == duration_of_secs(backoff_secs(attempts) as u64),
{
    Duration::from_secs(reconnect_backoff_secs(attempts))
}

/// The wait never shrinks with the number of failures, and never exceeds the longest wait.
pub proof fn law_backoff_grows(fewer: u32, more: u32)
    requires
        fewer <= more,
    ensures
        0 <= backoff_secs(fewer) <= backoff_secs(more) <= MAX_RECONNECT_BACKOFF_SECS,
{
    lemma2_to64();
    if 0 < fewer < more < 10 {
        lemma_pow2_strictly_increases((fewer - 1) as nat, (more - 1) as nat);
    }
}

} // verus!
