//! Driver logic for the SIM800L GSM/GPRS modem: AT command framing, response
//! recognition and parsing, and the decisions of the synchronous and
//! asynchronous drivers, with their contracts.

use vstd::prelude::*;

pub mod async_modem;
pub mod buffers;
pub mod commands;
pub mod error;
pub mod laws;
pub mod linux_adapter;
pub mod modem;
pub mod response;
pub mod sms;
pub mod text;
pub mod timer;
pub mod uart_config;

pub use error::{
    CallInfo, CallStatus, DtmfTone, Error, IncomingSms, NetworkInfo, NetworkStatus, ResponseStatus,
    Result, SimInfo, SmsResponse, VolumeLevel,
};
pub use timer::{MockTimer, Timer};

verus! {

/// Version of this library.
pub const VERSION: &'static str = "0.1.0";

} // verus!
