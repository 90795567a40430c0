//! The clock of the Linux (Raspberry Pi) setup: milliseconds since the timer
//! was made. The serial port and the waiting, which need the operating
//! system, stand with the driver outside this library.

use vstd::prelude::*;

verus! {

#[verifier::external_type_specification]
#[verifier::external_body]
pub struct ExInstant(std::time::Instant);

/// `std::time::Instant::now`: the current instant (nothing is stated of it).
#[verifier::external_body]
fn instant_now() -> std::time::Instant {
    std::time::Instant::now()
}

/// `std::time::Instant::elapsed`: the time since `start` (nothing is stated
/// of it).
#[verifier::external_body]
fn instant_elapsed(start: &std::time::Instant) -> core::time::Duration {
    start.elapsed()
}

/// `core::time::Duration::as_millis`: the whole milliseconds of `d`
/// (nothing is stated of them).
#[verifier::external_body]
fn duration_as_millis(d: &core::time::Duration) -> u128 {
    d.as_millis()
}

/// Elapsed milliseconds as the clock shows them: modulo 2^32, so that the
/// clock wraps after about 49.7 days.
pub fn wrap_millis(ms: u128) -> (r: u32)
    ensures
        r as int == ms % 0x1_0000_0000,
{
    (ms % 0x1_0000_0000) as u32
}

/// A clock that counts milliseconds from the moment it was made.
pub struct LinuxTimer {
    start_time: std::time::Instant,
}

impl LinuxTimer {
    /// A clock that starts now.
    pub fn new() -> Self {
        LinuxTimer { start_time: instant_now() }
    }

    /// Milliseconds since the clock was made, modulo 2^32.
    pub fn now_ms(&self) -> (ms: u32) {
        let elapsed = instant_elapsed(&self.start_time);
        wrap_millis(duration_as_millis(&elapsed))
    }
}

} // verus!
