//! Voice call commands.

use vstd::prelude::*;

verus! {

/// Dials a number (used as `ATD+1234567890;`).
pub const AT_DIAL: &'static str = "ATD";
/// Answers an incoming call.
pub const AT_ANSWER: &'static str = "ATA";
/// Hangs up.
pub const AT_HANGUP: &'static str = "ATH";
/// Lists current calls.
pub const AT_CALL_STATUS: &'static str = "AT+CLCC";
/// Turns caller identification on.
pub const AT_CALLER_ID_ENABLE: &'static str = "AT+CLIP=1";
/// Turns caller identification off.
pub const AT_CALLER_ID_DISABLE: &'static str = "AT+CLIP=0";
/// Turns call waiting on.
pub const AT_CALL_WAITING_ENABLE: &'static str = "AT+CCWA=1";
/// Turns call waiting off.
pub const AT_CALL_WAITING_DISABLE: &'static str = "AT+CCWA=0";
/// Sends a DTMF tone (e.g. `AT+VTS=1`).
pub const AT_DTMF_SEND: &'static str = "AT+VTS=";
/// Sets the DTMF tone duration.
pub const AT_DTMF_DURATION: &'static str = "AT+VTD=";
/// Unconditional call forwarding.
pub const AT_CALL_FORWARD_UNCONDITIONAL: &'static str = "AT+CCFC=0";
/// Call forwarding when busy.
pub const AT_CALL_FORWARD_BUSY: &'static str = "AT+CCFC=1";
/// Call forwarding on no reply.
pub const AT_CALL_FORWARD_NO_REPLY: &'static str = "AT+CCFC=2";
/// Call forwarding when unreachable.
pub const AT_CALL_FORWARD_UNREACHABLE: &'static str = "AT+CCFC=3";

} // verus!
