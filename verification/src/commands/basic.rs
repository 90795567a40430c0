//! Basic, power and information commands.

use vstd::prelude::*;

verus! {

/// Attention: checks that the modem answers.
pub const AT: &'static str = "AT";
/// Product identification (firmware version).
pub const AT_INFO: &'static str = "ATI";
/// Turns command echo off.
pub const AT_ECHO_OFF: &'static str = "ATE0";
/// Turns command echo on.
pub const AT_ECHO_ON: &'static str = "ATE1";
/// Restores factory settings.
pub const AT_FACTORY_RESET: &'static str = "AT&F";
/// Saves the current configuration.
pub const AT_SAVE_CONFIG: &'static str = "AT&W";
/// Turns flow control off.
pub const AT_FLOW_CONTROL_OFF: &'static str = "AT+IFC=0,0";
/// Powers the modem down.
pub const AT_POWER_DOWN: &'static str = "AT+CPOWD=1";
/// Enters sleep mode.
pub const AT_SLEEP_MODE: &'static str = "AT+CSCLK=1";
/// Leaves sleep mode.
pub const AT_WAKE_UP: &'static str = "AT+CSCLK=0";
/// Reads the IMEI.
pub const AT_IMEI: &'static str = "AT+GSN";
/// Reads the manufacturer.
pub const AT_MANUFACTURER: &'static str = "AT+CGMI";
/// Reads the model.
pub const AT_MODEL: &'static str = "AT+CGMM";
/// Reads the firmware revision.
pub const AT_REVISION: &'static str = "AT+CGMR";
/// Reads the battery status.
pub const AT_BATTERY_STATUS: &'static str = "AT+CBC";

} // verus!
