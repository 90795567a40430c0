//! SMS commands.

use vstd::prelude::*;

verus! {

/// Selects SMS text mode.
pub const AT_SMS_TEXT_MODE: &'static str = "AT+CMGF=1";
/// Selects SMS PDU mode.
pub const AT_SMS_PDU_MODE: &'static str = "AT+CMGF=0";
/// Sends an SMS (followed by the quoted number).
pub const AT_SMS_SEND: &'static str = "AT+CMGS=";
/// Reads an SMS.
pub const AT_SMS_READ: &'static str = "AT+CMGR=";
/// Lists all stored SMS.
pub const AT_SMS_LIST_ALL: &'static str = "AT+CMGL=\"ALL\"";
/// Lists unread SMS.
pub const AT_SMS_LIST_UNREAD: &'static str = "AT+CMGL=\"REC UNREAD\"";
/// Deletes an SMS.
pub const AT_SMS_DELETE: &'static str = "AT+CMGD=";
/// Selects SMS storage.
pub const AT_SMS_STORAGE_SELECT: &'static str = "AT+CPMS=";
/// Configures new-message indications.
pub const AT_SMS_NEW_MESSAGE_IND: &'static str = "AT+CNMI=";
/// Selects the character set.
pub const AT_SMS_CHARACTER_SET: &'static str = "AT+CSCS=";
/// Reads or sets the SMS centre address.
pub const AT_SMS_CENTER_ADDRESS: &'static str = "AT+CSCA";

} // verus!
