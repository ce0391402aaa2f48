//! The wall clock, read to seed the shuffle.

use vstd::prelude::*;

verus! {

#[verifier::external_type_specification]
#[verifier::external_body]
pub struct ExSystemTime(std::time::SystemTime);

/// The current wall-clock time (std's `SystemTime::now`). Nothing is promised
/// of the value: it depends on the machine's clock.
#[verifier::external_body]
fn system_now() -> std::time::SystemTime {
    std::time::SystemTime::now()
}

/// The time elapsed between the Unix epoch and `t`, as whole seconds and the
/// nanoseconds below one second (std's `SystemTime::duration_since`), or
/// `None` where `t` lies before the epoch. The nanosecond part is below one
/// second.
#[verifier::external_body]
fn since_unix_epoch(t: &std::time::SystemTime) -> (r: Option<(u64, u32)>)
    ensures
        r matches Some((_, n)) ==> n < 1_000_000_000,
{
    match t.duration_since(std::time::UNIX_EPOCH) {
        Ok(d) => Some((d.as_secs(), d.subsec_nanos())),
        Err(_) => None,
    }
}

/// The seed for a clock reading: the sub-second nanoseconds mixed with the
/// seconds shifted into the upper half, or a fixed constant where the clock
/// read before the epoch.
pub open spec fn seed_of(since_epoch: Option<(u64, u32)>) -> u64 {
    match since_epoch {
        Some((secs, nanos)) => (nanos as u64) ^ (secs << 32u64),
        None => 0xdeadbeef_cafebabe,
    }
}

/// A reading of the clock as `SystemTime::duration_since` can give it: the
/// nanoseconds stay below one second.
pub open spec fn is_clock_reading(since_epoch: Option<(u64, u32)>) -> bool {
    since_epoch matches Some((_, n)) ==> n < 1_000_000_000
}

/// The seed for a reading of the time since the Unix epoch (see `seed_of`).
pub fn seed_from_epoch(since_epoch: Option<(u64, u32)>) -> (r: u64)
    ensures
        r == seed_of(since_epoch),
{
    match since_epoch {
        Some((secs, nanos)) => (nanos as u64) ^ (secs << 32u64),
        None => 0xdeadbeef_cafebabe,
    }
}

/// A seed taken from the clock: the seed (see `seed_of`) of the current
/// time since the Unix epoch. Which reading that is depends on the clock.
pub fn clock_seed() -> (r: u64)
    ensures
        exists|since_epoch: Option<(u64, u32)>|
            is_clock_reading(since_epoch) && r == #[trigger] seed_of(since_epoch),
{
    let reading = since_unix_epoch(&system_now());
    let r = seed_from_epoch(reading);
    proof {
        assert(is_clock_reading(reading) && r == seed_of(reading));
    }
    r
}

} // verus!
