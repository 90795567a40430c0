//! Recommended UART settings for the SIM800L: 115200 baud, 8N1, no flow control.

use vstd::prelude::*;

verus! {

/// Recommended baud rate.
pub const BAUD_RATE: u32 = 115200;

/// Data bits.
pub const DATA_BITS: u8 = 8;

/// Parity (none).
pub const PARITY: &'static str = "None";

/// Stop bits.
pub const STOP_BITS: u8 = 1;

/// Whether flow control is on (it is off).
pub const FLOW_CONTROL: bool = false;

} // verus!
