//! SIM card commands.

use vstd::prelude::*;

verus! {

/// Reads the PIN status.
pub const AT_SIM_STATUS: &'static str = "AT+CPIN?";
/// Enters the PIN.
pub const AT_SIM_ENTER_PIN: &'static str = "AT+CPIN=";
/// Changes the PIN.
pub const AT_SIM_CHANGE_PIN: &'static str = "AT+CPWD=";
/// Reads the IMSI.
pub const AT_SIM_IMSI: &'static str = "AT+CIMI";
/// Reads the subscriber number.
pub const AT_SIM_PHONE_NUMBER: &'static str = "AT+CNUM";
/// Reads the service provider name.
pub const AT_SIM_PROVIDER: &'static str = "AT+CSPN?";
/// Selects a phonebook.
pub const AT_PHONEBOOK_SELECT: &'static str = "AT+CPBS=";
/// Reads a phonebook entry.
pub const AT_PHONEBOOK_READ: &'static str = "AT+CPBR=";
/// Writes a phonebook entry.
pub const AT_PHONEBOOK_WRITE: &'static str = "AT+CPBW=";
/// Finds a phonebook entry.
pub const AT_PHONEBOOK_FIND: &'static str = "AT+CPBF=";
/// Sends a USSD request.
pub const AT_USSD_SEND: &'static str = "AT+CUSD=";
/// Call barring.
pub const AT_CALL_BARRING: &'static str = "AT+CLCK=";

} // verus!
