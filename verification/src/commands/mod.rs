//! AT command strings of the SIM800L, grouped by subject, and the timeouts that go with them.

use vstd::prelude::*;

pub mod basic;
pub mod sms;
pub mod network;
pub mod call;
pub mod audio;
pub mod sim;

verus! {

/// Timeout of an ordinary AT command, in milliseconds (5 s).
pub const AT_TIMEOUT: u32 = 5000;
/// Timeout of SMS operations, in milliseconds (30 s).
pub const SMS_TIMEOUT: u32 = 30000;
/// Timeout of network operations, in milliseconds (15 s).
pub const NETWORK_TIMEOUT: u32 = 15000;
/// Timeout of voice call operations, in milliseconds (60 s).
pub const CALL_TIMEOUT: u32 = 60000;
/// Timeout of SIM card operations, in milliseconds (10 s).
pub const SIM_TIMEOUT: u32 = 10000;

} // verus!
