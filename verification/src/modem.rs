//! The decisions of the synchronous driver: the receive buffer and its
//! timeout, how a command is framed, how the modem's answer is waited for,
//! the commands with arguments, and what each answer means for the operation
//! that sent it. The driver that owns the UART performs the I/O and hands
//! each event to these functions.

use vstd::prelude::*;
use vstd::string::StringSliceAdditionalSpecFns;

use crate::buffers::{
    rx_as_slice, rx_bytes, rx_clear, rx_new, rx_push, str16_bytes, str16_new, str16_push,
    str16_push_str, str32_bytes, str32_new, str32_push_str, str64_bytes, str64_new,
    str64_push_str, RX_CAPACITY,
};
use crate::commands;
use crate::error::{Error, ResponseStatus};
use crate::response::{
    check_response_complete, check_response_complete_async, response_status, response_status_async,
};
use crate::text::{CR, LF};

verus! {

/// Timeout of a freshly made driver, in milliseconds.
pub const DEFAULT_TIMEOUT_MS: u32 = 10000;

/// How long `init` lets the modem start up before the first command, in
/// milliseconds.
pub const INIT_DELAY_MS: u32 = 3000;

/// Ctrl+Z, which ends the text of an SMS.
pub const CTRL_Z: u8 = 0x1A;

/// What one attempt to read a byte from the UART gave.
#[derive(Debug, Clone, Copy, PartialEq, Eq, Structural)]
pub enum ReadEvent {
    /// A byte arrived.
    Byte(u8),
    /// No byte is there yet.
    WouldBlock,
    /// The UART failed.
    Failed,
}

/// What the wait for an answer does next.
#[derive(Debug, Clone, Copy, PartialEq)]
pub enum WaitStep {
    /// Keep reading.
    Continue,
    /// The wait is over, with this outcome.
    Done(Result<ResponseStatus, Error>),
}

/// The step that follows a completion check: done with the recognised
/// status, or keep reading.
pub open spec fn completion_step(status: Option<ResponseStatus>) -> WaitStep {
    match status {
        Some(s) => WaitStep::Done(Ok(s)),
        None => WaitStep::Continue,
    }
}

/// The receive buffer and the timeout of a SIM800L driver.
pub struct ModemCore {
    rx_buffer: heapless::Vec<u8, 256>,
    timeout_ms: u32,
}

impl ModemCore {
    #[verifier::type_invariant]
    spec fn within_capacity(self) -> bool {
        rx_bytes(self.rx_buffer).len() <= RX_CAPACITY
    }

    /// The bytes received since the last command was sent.
    pub closed spec fn buffer(&self) -> Seq<u8> {
        rx_bytes(self.rx_buffer)
    }

    /// The timeout of ordinary commands, in milliseconds.
    pub closed spec fn timeout(&self) -> u32 {
        self.timeout_ms
    }

    /// A core with an empty buffer and the default timeout.
    pub fn new() -> (c: Self)
        ensures
            c.buffer() == Seq::<u8>::empty(),
            c.timeout() == DEFAULT_TIMEOUT_MS,
    {
        ModemCore { rx_buffer: rx_new(), timeout_ms: DEFAULT_TIMEOUT_MS }
    }

    /// Sets the timeout of ordinary commands.
    pub fn set_timeout(&mut self, timeout_ms: u32)
        ensures
            final(self).timeout() == timeout_ms,
            final(self).buffer() == old(self).buffer(),
    {
        proof {
            use_type_invariant(&*self);
        }
        self.timeout_ms = timeout_ms;
    }

    /// The timeout of ordinary commands.
    pub fn timeout_ms(&self) -> (t: u32)
        ensures
            t == self.timeout(),
    {
        self.timeout_ms
    }

    /// The bytes received since the last command was sent; never more than
    /// the buffer's capacity of 256.
    pub fn response_buffer(&self) -> (r: &[u8])
        ensures
            r@ == self.buffer(),
            r@.len() <= RX_CAPACITY,
    {
        proof {
            use_type_invariant(self);
        }
        rx_as_slice(&self.rx_buffer)
    }

    /// Empties the receive buffer.
    pub fn clear_buffer(&mut self)
        ensures
            final(self).buffer() == Seq::<u8>::empty(),
            final(self).timeout() == old(self).timeout(),
    {
        let mut buf = rx_new();
        core::mem::swap(&mut buf, &mut self.rx_buffer);
        rx_clear(&mut buf);
        self.rx_buffer = buf;
    }

    /// Starts sending `command`: empties the receive buffer and gives the
    /// bytes to write, the command followed by `\r\n`.
    pub fn begin_command(&mut self, command: &str) -> (frame: Vec<u8>)
        ensures
            frame@ == command_frame(command.spec_bytes()),
            final(self).buffer() == Seq::<u8>::empty(),
            final(self).timeout() == old(self).timeout(),
    {
        self.clear_buffer();
        frame_command(command)
    }

    /// Appends a received byte when there is room; tells whether it did.
    fn store_byte(&mut self, b: u8) -> (stored: bool)
        ensures
            stored <==> old(self).buffer().len() < RX_CAPACITY,
            stored ==> final(self).buffer() == old(self).buffer().push(b),
            !stored ==> final(self).buffer() == old(self).buffer(),
            final(self).timeout() == old(self).timeout(),
    {
        proof {
            use_type_invariant(&*self);
        }
        let mut buf = rx_new();
        core::mem::swap(&mut buf, &mut self.rx_buffer);
        let stored = rx_push(&mut buf, b).is_ok();
        self.rx_buffer = buf;
        stored
    }

    /// Handles one read while waiting for an answer: a byte is stored and the
    /// buffer checked for a complete answer; a full buffer ends the wait with
    /// `BufferOverflow`, a UART failure with `Uart`; no byte means keep
    /// reading.
    pub fn receive(&mut self, event: ReadEvent) -> (step: WaitStep)
        ensures
            final(self).timeout() == old(self).timeout(),
            receipt(old(self).buffer(), event, final(self).buffer(), step, true),
    {
        self.receive_by(event, true)
    }

    /// `receive` for the asynchronous driver, which recognises only `OK`,
    /// `ERROR` and the prompt.
    pub fn receive_async(&mut self, event: ReadEvent) -> (step: WaitStep)
        ensures
            final(self).timeout() == old(self).timeout(),
            receipt(old(self).buffer(), event, final(self).buffer(), step, false),
    {
        self.receive_by(event, false)
    }

    fn receive_by(&mut self, event: ReadEvent, full: bool) -> (step: WaitStep)
        ensures
            final(self).timeout() == old(self).timeout(),
            receipt(old(self).buffer(), event, final(self).buffer(), step, full),
    {
        match event {
            ReadEvent::Byte(b) => {
                if !self.store_byte(b) {
                    return WaitStep::Done(Err(Error::BufferOverflow));
                }
                let status = if full {
                    check_response_complete(self.response_buffer())
                } else {
                    check_response_complete_async(self.response_buffer())
                };
                match status {
                    Some(s) => WaitStep::Done(Ok(s)),
                    None => WaitStep::Continue,
                }
            },
            ReadEvent::WouldBlock => WaitStep::Continue,
            ReadEvent::Failed => WaitStep::Done(Err(Error::Uart)),
        }
    }
}

/// The status that `buf` completes, among all answers (`full`) or among those
/// the asynchronous driver knows.
pub open spec fn recognized(buf: Seq<u8>, full: bool) -> Option<ResponseStatus> {
    if full {
        response_status(buf)
    } else {
        response_status_async(buf)
    }
}

/// One read while waiting, from buffer `before` to buffer `after`, giving
/// `step`: a byte is stored when there is room, and the wait ends when the
/// buffer completes an answer; a full buffer ends it with `BufferOverflow`,
/// a UART failure with `Uart`; no byte changes nothing.
pub open spec fn receipt(
    before: Seq<u8>,
    event: ReadEvent,
    after: Seq<u8>,
    step: WaitStep,
    full: bool,
) -> bool {
    match event {
        ReadEvent::Byte(b) => if before.len() < RX_CAPACITY {
            &&& after == before.push(b)
            &&& step == completion_step(recognized(after, full))
        } else {
            &&& after == before
            &&& step == WaitStep::Done(Err(Error::BufferOverflow))
        },
        ReadEvent::WouldBlock => after == before && step == WaitStep::Continue,
        ReadEvent::Failed => after == before && step == WaitStep::Done(Err(Error::Uart)),
    }
}

/// The bytes that carry `command` to the modem: the command, then `\r\n`.
pub open spec fn command_frame(command: Seq<u8>) -> Seq<u8> {
    command + seq![CR, LF]
}

/// Appends the bytes of `s` to `out`.
fn push_bytes(out: &mut Vec<u8>, s: &[u8])
    ensures
        final(out)@ == old(out)@ + s@,
{
    let n = s.len();
    let mut i: usize = 0;
    while i < n
        invariant
            n == s@.len(),
            i <= n,
            out@ == old(out)@ + s@.subrange(0, i as int),
        decreases n - i,
    {
        out.push(s[i]);
        i = i + 1;
        assert(out@ =~= old(out)@ + s@.subrange(0, i as int));
    }
    assert(s@.subrange(0, n as int) =~= s@);
}

/// The bytes that carry `command` to the modem.
pub fn frame_command(command: &str) -> (frame: Vec<u8>)
    ensures
        frame@ == command_frame(command.spec_bytes()),
{
    let mut frame: Vec<u8> = Vec::new();
    push_bytes(&mut frame, command.as_bytes());
    frame.push(CR);
    frame.push(LF);
    assert(frame@ =~= command_frame(command.spec_bytes()));
    frame
}

/// The bytes written after the SMS prompt: the text, then Ctrl+Z.
pub fn sms_body(message: &str) -> (body: Vec<u8>)
    ensures
        body@ == message.spec_bytes().push(CTRL_Z),
{
    let mut body: Vec<u8> = Vec::new();
    push_bytes(&mut body, message.as_bytes());
    body.push(CTRL_Z);
    assert(body@ =~= message.spec_bytes().push(CTRL_Z));
    body
}

/// Whether `timeout_ms` has run out between `start` and `now`.
pub fn deadline_passed(start: u32, now: u32, timeout_ms: u32) -> (r: bool)
    requires
        start <= now,
    ensures
        r == (now - start > timeout_ms),
{
    now - start > timeout_ms
}

/// The commands that `init` sends, in order, after the start-up delay: echo
/// off, flow control off, `AT`, caller identification on, SMS text mode.
pub fn init_commands() -> (cmds: Vec<&'static str>)
    ensures
        cmds@ == seq![
            commands::basic::AT_ECHO_OFF,
            commands::basic::AT_FLOW_CONTROL_OFF,
            commands::basic::AT,
            commands::call::AT_CALLER_ID_ENABLE,
            commands::sms::AT_SMS_TEXT_MODE,
        ],
{
    let mut cmds: Vec<&'static str> = Vec::new();
    cmds.push(commands::basic::AT_ECHO_OFF);
    cmds.push(commands::basic::AT_FLOW_CONTROL_OFF);
    cmds.push(commands::basic::AT);
    cmds.push(commands::call::AT_CALLER_ID_ENABLE);
    cmds.push(commands::sms::AT_SMS_TEXT_MODE);
    cmds
}

/// The steps of bringing the modem up: the commands are sent one after the
/// other, whatever their answers, and the first failure (of a write or a
/// wait) ends it.
pub struct InitSequence {
    commands: Vec<&'static str>,
    next: usize,
    failed: bool,
}

impl InitSequence {
    /// The commands to send.
    pub closed spec fn commands(&self) -> Seq<&'static str> {
        self.commands@
    }

    /// How many commands have been sent successfully.
    pub closed spec fn sent(&self) -> nat {
        self.next as nat
    }

    /// Whether a command failed.
    pub closed spec fn failed(&self) -> bool {
        self.failed
    }

    /// A sequence that sends `commands`.
    pub fn new(commands: Vec<&'static str>) -> (s: Self)
        ensures
            s.commands() == commands@,
            s.sent() == 0,
            !s.failed(),
    {
        InitSequence { commands, next: 0, failed: false }
    }

    /// The command to send next, or nothing when all are sent or one failed.
    pub fn next_command(&self) -> (r: Option<&'static str>)
        requires
            self.sent() <= self.commands().len(),
        ensures
            r == (if !self.failed() && self.sent() < self.commands().len() {
                Some(self.commands()[self.sent() as int])
            } else {
                None::<&'static str>
            }),
    {
        if !self.failed && self.next < self.commands.len() {
            Some(self.commands[self.next])
        } else {
            None
        }
    }

    /// Takes note of how sending the next command went: any answer moves on
    /// to the next command; a failure ends the sequence with that error.
    pub fn on_result(&mut self, result: Result<ResponseStatus, Error>) -> (r: Result<(), Error>)
        requires
            !old(self).failed(),
            old(self).sent() < old(self).commands().len(),
        ensures
            final(self).commands() == old(self).commands(),
            final(self).sent() <= final(self).commands().len(),
            match result {
                Err(e) => r == Err::<(), Error>(e) && final(self).failed() && final(self).sent()
                    == old(self).sent(),
                Ok(_) => r is Ok && !final(self).failed() && final(self).sent() == old(self).sent()
                    + 1,
            },
    {
        match result {
            Err(e) => {
                self.failed = true;
                Err(e)
            },
            Ok(_) => {
                let count = self.commands.len();
                assert(self.next < count);
                self.next = self.next + 1;
                Ok(())
            },
        }
    }
}

/// The operations of the synchronous driver, as to the timeout of their waits.
#[derive(Debug, Clone, Copy, PartialEq, Eq, Structural)]
pub enum Operation {
    /// The commands of `init`.
    Init,
    /// `get_firmware_version`.
    FirmwareVersion,
    /// `check_network_status`.
    NetworkStatus,
    /// `send_sms`, both of its waits.
    Sms,
    /// `make_call`, `answer_call`, `hangup_call`.
    Call,
    /// The audio settings: volume, gain, audio path.
    Audio,
}

/// The timeout of the waits of `op`, given the configured timeout: SMS and
/// calls have their own, the others use the configured one.
pub open spec fn operation_timeout(op: Operation, configured: u32) -> u32 {
    match op {
        Operation::Sms => commands::SMS_TIMEOUT,
        Operation::Call => commands::CALL_TIMEOUT,
        _ => configured,
    }
}

impl ModemCore {
    /// The timeout of the waits of `op`.
    pub fn timeout_for(&self, op: Operation) -> (t: u32)
        ensures
            t == operation_timeout(op, self.timeout()),
    {
        match op {
            Operation::Sms => commands::SMS_TIMEOUT,
            Operation::Call => commands::CALL_TIMEOUT,
            _ => self.timeout_ms(),
        }
    }
}

/// The bytes of the command that starts an SMS to `phone`:
/// `AT+CMGS="<phone>"`.
pub open spec fn sms_command_bytes(phone: Seq<u8>) -> Seq<u8> {
    commands::sms::AT_SMS_SEND.spec_bytes() + "\"".spec_bytes() + phone + "\"".spec_bytes()
}

/// The command that starts an SMS to `phone`, when it fits in 64 bytes.
pub fn sms_send_command(phone: &str) -> (r: Result<heapless::String<64>, Error>)
    ensures
        r is Ok <==> sms_command_bytes(phone.spec_bytes()).len() <= 64,
        r matches Ok(cmd) ==> str64_bytes(cmd) == sms_command_bytes(phone.spec_bytes()),
        r matches Err(e) ==> e == Error::BufferOverflow,
{
    let mut cmd = str64_new();
    if str64_push_str(&mut cmd, commands::sms::AT_SMS_SEND).is_err() {
        return Err(Error::BufferOverflow);
    }
    if str64_push_str(&mut cmd, "\"").is_err() {
        return Err(Error::BufferOverflow);
    }
    if str64_push_str(&mut cmd, phone).is_err() {
        return Err(Error::BufferOverflow);
    }
    if str64_push_str(&mut cmd, "\"").is_err() {
        return Err(Error::BufferOverflow);
    }
    Ok(cmd)
}

/// The bytes of the command that dials `number` for a voice call:
/// `ATD<number>;`.
pub open spec fn dial_command_bytes(number: Seq<u8>) -> Seq<u8> {
    commands::call::AT_DIAL.spec_bytes() + number + ";".spec_bytes()
}

/// The command that dials `number`, when it fits in 32 bytes.
pub fn dial_command(number: &str) -> (r: Result<heapless::String<32>, Error>)
    ensures
        r is Ok <==> dial_command_bytes(number.spec_bytes()).len() <= 32,
        r matches Ok(cmd) ==> str32_bytes(cmd) == dial_command_bytes(number.spec_bytes()),
        r matches Err(e) ==> e == Error::BufferOverflow,
{
    let mut cmd = str32_new();
    if str32_push_str(&mut cmd, commands::call::AT_DIAL).is_err() {
        return Err(Error::BufferOverflow);
    }
    if str32_push_str(&mut cmd, number).is_err() {
        return Err(Error::BufferOverflow);
    }
    if str32_push_str(&mut cmd, ";").is_err() {
        return Err(Error::BufferOverflow);
    }
    Ok(cmd)
}

/// The decimal digits of `v`, for `v` below 100.
pub open spec fn decimal(v: int) -> Seq<u8> {
    if v < 10 {
        seq![(48 + v) as u8]
    } else {
        seq![(48 + v / 10) as u8, (48 + v % 10) as u8]
    }
}

/// The speaker volume that `set_speaker_volume(level)` asks for: at most 9.
pub open spec fn clamped_volume(level: u8) -> int {
    if level < 9 {
        level as int
    } else {
        9
    }
}

/// The microphone gain that `set_microphone_gain(level)` asks for: at most 15.
pub open spec fn clamped_gain(level: u8) -> int {
    if level < 15 {
        level as int
    } else {
        15
    }
}

/// The command that sets the speaker volume to `level`, clamped to 9:
/// `AT+CLVL=<digit>`.
pub fn speaker_volume_command(level: u8) -> (cmd: heapless::String<16>)
    ensures
        str16_bytes(cmd) == commands::audio::AT_SPEAKER_VOLUME.spec_bytes() + decimal(
            clamped_volume(level),
        ),
{
    let level = if level < 9 {
        level
    } else {
        9
    };
    proof {
        reveal_strlit("AT+CLVL=");
        vstd::string::is_ascii_spec_bytes(commands::audio::AT_SPEAKER_VOLUME);
    }
    let mut cmd = str16_new();
    let pushed = str16_push_str(&mut cmd, commands::audio::AT_SPEAKER_VOLUME);
    assert(pushed is Ok);
    let pushed = str16_push(&mut cmd, (48u8 + level) as char);
    assert(pushed is Ok);
    assert(str16_bytes(cmd) =~= commands::audio::AT_SPEAKER_VOLUME.spec_bytes() + decimal(
        clamped_volume(level),
    ));
    cmd
}

/// The command that sets the microphone gain to `level`, clamped to 15:
/// `AT+CMIC=<decimal>`.
pub fn microphone_gain_command(level: u8) -> (cmd: heapless::String<16>)
    ensures
        str16_bytes(cmd) == commands::audio::AT_MICROPHONE_GAIN.spec_bytes() + decimal(
            clamped_gain(level),
        ),
{
    let level = if level < 15 {
        level
    } else {
        15
    };
    proof {
        reveal_strlit("AT+CMIC=");
        vstd::string::is_ascii_spec_bytes(commands::audio::AT_MICROPHONE_GAIN);
    }
    let mut cmd = str16_new();
    let pushed = str16_push_str(&mut cmd, commands::audio::AT_MICROPHONE_GAIN);
    assert(pushed is Ok);
    if level < 10 {
        let pushed = str16_push(&mut cmd, (48u8 + level) as char);
        assert(pushed is Ok);
    } else {
        let pushed = str16_push(&mut cmd, '1');
        assert(pushed is Ok);
        let pushed = str16_push(&mut cmd, (48u8 + (level - 10)) as char);
        assert(pushed is Ok);
    }
    assert(str16_bytes(cmd) =~= commands::audio::AT_MICROPHONE_GAIN.spec_bytes() + decimal(
        clamped_gain(level),
    ));
    cmd
}

/// The single-command operations whose outcome the answer decides.
#[derive(Debug, Clone, Copy, PartialEq, Eq, Structural)]
pub enum Exchange {
    /// `ATD...;` of `make_call`.
    Dial,
    /// `ATA` of `answer_call`.
    Answer,
    /// `ATH` of `hangup_call`.
    HangUp,
    /// The audio commands: volume, gain, audio path.
    Audio,
}

/// Whether `status` is a good answer in exchange `ex`.
pub open spec fn accepts(ex: Exchange, status: ResponseStatus) -> bool {
    match ex {
        Exchange::Dial => status == ResponseStatus::Okay,
        Exchange::Answer => status == ResponseStatus::Okay || status == ResponseStatus::Connect,
        Exchange::HangUp => status == ResponseStatus::Okay || status == ResponseStatus::NoCarrier,
        Exchange::Audio => status == ResponseStatus::Okay,
    }
}

/// The error that a bad answer in exchange `ex` gives.
pub open spec fn rejection(ex: Exchange) -> Error {
    match ex {
        Exchange::Dial | Exchange::Answer | Exchange::HangUp => Error::CallError,
        Exchange::Audio => Error::AudioError,
    }
}

/// The outcome of an exchange given the modem's answer.
pub fn exchange_outcome(ex: Exchange, status: ResponseStatus) -> (r: Result<(), Error>)
    ensures
        r == (if accepts(ex, status) {
            Ok::<(), Error>(())
        } else {
            Err::<(), Error>(rejection(ex))
        }),
{
    match ex {
        Exchange::Dial => match status {
            ResponseStatus::Okay => Ok(()),
            _ => Err(Error::CallError),
        },
        Exchange::Answer => match status {
            ResponseStatus::Okay | ResponseStatus::Connect => Ok(()),
            _ => Err(Error::CallError),
        },
        Exchange::HangUp => match status {
            ResponseStatus::Okay | ResponseStatus::NoCarrier => Ok(()),
            _ => Err(Error::CallError),
        },
        Exchange::Audio => match status {
            ResponseStatus::Okay => Ok(()),
            _ => Err(Error::AudioError),
        },
    }
}

} // verus!
