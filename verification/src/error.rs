//! Error, status and record types of the SIM800L driver.

use vstd::prelude::*;

verus! {

/// Result of a SIM800L operation.
pub type Result<T, E = Error> = core::result::Result<T, E>;

/// Errors of the SIM800L driver.
#[derive(Debug, Clone, Copy, PartialEq, Eq, Structural)]
pub enum Error {
    /// UART failure.
    Uart,
    /// A buffer is full.
    BufferOverflow,
    /// The modem is not ready.
    ModemNotReady,
    /// The modem answered something that could not be read.
    InvalidResponse,
    /// The AT command failed.
    AtError,
    /// The operation timed out.
    Timeout,
    /// No network.
    NetworkNotAvailable,
    /// The SMS was not sent.
    SmsNotSent,
    /// Unsupported operation.
    NotSupported,
    /// A call failed.
    CallError,
    /// The number is busy.
    Busy,
    /// No answer.
    NoAnswer,
    /// No SIM card.
    SimNotFound,
    /// Wrong PIN.
    InvalidPin,
    /// PIN blocked.
    PinBlocked,
    /// Audio failure.
    AudioError,
    /// DTMF failure.
    DtmfError,
    /// Battery low.
    LowBattery,
}

/// How the modem answered a command.
#[derive(Debug, Clone, Copy, PartialEq, Eq, Structural)]
pub enum ResponseStatus {
    /// The command succeeded (`OK`). (Named `Okay`: `Ok` is taken by `Result`.)
    Okay,
    /// The command failed (`ERROR`).
    Error,
    /// The command is still running.
    Pending,
    /// The modem waits for input (`> `, as before an SMS text).
    Prompt,
    /// Incoming call (`RING`).
    Ring,
    /// Connection established (`CONNECT`).
    Connect,
    /// Carrier lost (`NO CARRIER`).
    NoCarrier,
}

/// What came back from sending an SMS.
#[derive(Debug, Clone, PartialEq, Eq, Structural)]
pub struct SmsResponse {
    /// Index of the message in the modem's memory.
    pub message_id: Option<u16>,
    /// Whether the message was sent.
    pub sent: bool,
}

/// An incoming SMS.
#[derive(Debug, Clone, PartialEq)]
pub struct IncomingSms {
    /// Index in memory.
    pub index: u16,
    /// Sender's number.
    pub sender: heapless::String<20>,
    /// Time of reception.
    pub timestamp: heapless::String<20>,
    /// Message text.
    pub text: heapless::String<160>,
}

/// Network registration status.
#[derive(Debug, Clone, Copy, PartialEq, Eq, Structural)]
pub enum NetworkStatus {
    /// Not registered, not searching.
    NotRegistered,
    /// Registered in the home network.
    RegisteredHome,
    /// Not registered, searching.
    Searching,
    /// Registration denied.
    Denied,
    /// Unknown status.
    Unknown,
    /// Registered, roaming.
    RegisteredRoaming,
}

/// Network information.
#[derive(Debug, Clone, PartialEq)]
pub struct NetworkInfo {
    /// Network operator.
    pub operator: heapless::String<32>,
    /// Signal level (0-31, 99 = unknown).
    pub signal_strength: u8,
    /// Registration status.
    pub status: NetworkStatus,
}

/// Call status.
#[derive(Debug, Clone, Copy, PartialEq, Eq, Structural)]
pub enum CallStatus {
    /// No call.
    Idle,
    /// Outgoing call being dialled.
    Dialing,
    /// Incoming call.
    Ringing,
    /// Call connected.
    Active,
    /// Call ended.
    Disconnected,
    /// Call failed.
    Error,
}

/// Information on a call.
#[derive(Debug, Clone, PartialEq)]
pub struct CallInfo {
    /// Phone number.
    pub number: heapless::String<20>,
    /// Call status.
    pub status: CallStatus,
    /// Duration in seconds (for active calls).
    pub duration: Option<u32>,
}

/// Information on the SIM card.
#[derive(Debug, Clone, PartialEq)]
pub struct SimInfo {
    /// IMSI.
    pub imsi: heapless::String<20>,
    /// SIM number.
    pub sim_number: heapless::String<20>,
    /// Whether a PIN is required.
    pub pin_required: bool,
}

/// Volume levels (0-9).
pub type VolumeLevel = u8;

/// DTMF tones.
#[derive(Debug, Clone, Copy, PartialEq, Eq, Structural)]
pub enum DtmfTone {
    /// Digit 0.
    Digit0,
    /// Digit 1.
    Digit1,
    /// Digit 2.
    Digit2,
    /// Digit 3.
    Digit3,
    /// Digit 4.
    Digit4,
    /// Digit 5.
    Digit5,
    /// Digit 6.
    Digit6,
    /// Digit 7.
    Digit7,
    /// Digit 8.
    Digit8,
    /// Digit 9.
    Digit9,
    /// Star (*).
    Star,
    /// Hash (#).
    Hash,
    /// Tone A.
    A,
    /// Tone B.
    B,
    /// Tone C.
    C,
    /// Tone D.
    D,
}

} // verus!
