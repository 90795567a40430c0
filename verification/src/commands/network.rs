//! Network commands.

use vstd::prelude::*;

verus! {

/// Reads the network registration status.
pub const AT_NETWORK_REGISTRATION: &'static str = "AT+CREG?";
/// Automatic operator selection.
pub const AT_NETWORK_SELECTION_AUTO: &'static str = "AT+COPS=0";
/// Manual operator selection.
pub const AT_NETWORK_SELECTION_MANUAL: &'static str = "AT+COPS=1";
/// Lists available operators.
pub const AT_NETWORK_OPERATORS: &'static str = "AT+COPS=?";
/// Reads the current operator.
pub const AT_NETWORK_CURRENT: &'static str = "AT+COPS?";
/// Reads the signal quality.
pub const AT_SIGNAL_QUALITY: &'static str = "AT+CSQ";
/// Reads extended signal information.
pub const AT_SIGNAL_EXTENDED: &'static str = "AT+CESQ";
/// Reads the clock.
pub const AT_CLOCK_GET: &'static str = "AT+CCLK?";
/// Sets the clock.
pub const AT_CLOCK_SET: &'static str = "AT+CCLK=";
/// Attaches to GPRS.
pub const AT_GPRS_ATTACH: &'static str = "AT+CGATT=1";
/// Detaches from GPRS.
pub const AT_GPRS_DETACH: &'static str = "AT+CGATT=0";
/// Reads the GPRS status.
pub const AT_GPRS_STATUS: &'static str = "AT+CGATT?";
/// Sets the APN.
pub const AT_APN_SET: &'static str = "AT+CSTT=";

} // verus!
