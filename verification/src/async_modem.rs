//! The decisions of the asynchronous driver: its state, the byte-by-byte
//! writer of a command (which may have to wait between bytes), the timeout
//! check and the reading of the answer. The futures that poll the UART
//! perform the I/O and hand each event to these functions.

use vstd::prelude::*;

use crate::commands;
use crate::error::{Error, ResponseStatus};
use crate::sms::{sms_step, SmsAction, SmsSession, SmsStage};
use crate::modem::{command_frame, receipt, ModemCore, ReadEvent, WaitStep, DEFAULT_TIMEOUT_MS};
use crate::text::{CR, LF};

verus! {

/// State of the asynchronous driver.
#[derive(Debug, Clone, Copy, PartialEq, Eq, Structural)]
pub enum AsyncState {
    /// Nothing in progress.
    Idle,
    /// A command is being written.
    SendingCommand,
    /// Waiting for the answer since `start_time` (ms).
    WaitingResponse { start_time: u32 },
    /// The answer is being read.
    ProcessingResponse,
}

/// Where the writing of a command stands.
#[derive(Debug, Clone, Copy, PartialEq, Eq, Structural)]
pub enum CommandStage {
    /// Writing the command's bytes.
    SendingCommand,
    /// Writing the carriage return.
    SendingCR,
    /// Writing the line feed.
    SendingLF,
    /// Everything is written; the answer is awaited.
    WaitingResponse,
}

/// What one attempt to write a byte to the UART gave.
#[derive(Debug, Clone, Copy, PartialEq, Eq, Structural)]
pub enum WriteEvent {
    /// The byte was written.
    Written,
    /// The UART cannot take it yet.
    WouldBlock,
    /// The UART failed.
    Failed,
}

/// Writes a command, then `\r\n`, one byte at a time.
pub struct CommandWriter {
    stage: CommandStage,
    byte_index: usize,
}

impl CommandWriter {
    /// How many bytes of the frame of a command of `len` bytes have been
    /// written.
    pub closed spec fn position(&self, len: nat) -> nat {
        match self.stage {
            CommandStage::SendingCommand => self.byte_index as nat,
            CommandStage::SendingCR => len,
            CommandStage::SendingLF => len + 1,
            CommandStage::WaitingResponse => len + 2,
        }
    }

    /// The writer is writing a command of `len` bytes.
    pub closed spec fn writes(&self, len: nat) -> bool {
        self.stage == CommandStage::SendingCommand ==> self.byte_index <= len
    }

    /// A writer at the start of its command.
    pub fn new() -> (w: Self)
        ensures
            forall|len: nat| #[trigger] w.writes(len),
            forall|len: nat| #[trigger] w.position(len) == 0,
    {
        CommandWriter { stage: CommandStage::SendingCommand, byte_index: 0 }
    }

    /// The byte to write next, or nothing when the whole frame is written.
    pub fn next_byte(&mut self, command: &[u8]) -> (r: Option<u8>)
        requires
            old(self).writes(command@.len()),
        ensures
            final(self).writes(command@.len()),
            final(self).position(command@.len()) == old(self).position(command@.len()),
            r == (if old(self).position(command@.len()) < command@.len() + 2 {
                Some(command_frame(command@)[old(self).position(command@.len()) as int])
            } else {
                None::<u8>
            }),
    {
        let ghost frame = command_frame(command@);
        match self.stage {
            CommandStage::SendingCommand => {
                if self.byte_index < command.len() {
                    assert(frame[self.byte_index as int] == command@[self.byte_index as int]);
                    Some(command[self.byte_index])
                } else {
                    self.stage = CommandStage::SendingCR;
                    assert(frame[command@.len() as int] == CR);
                    Some(CR)
                }
            },
            CommandStage::SendingCR => {
                assert(frame[command@.len() as int] == CR);
                Some(CR)
            },
            CommandStage::SendingLF => {
                assert(frame[command@.len() + 1int] == LF);
                Some(LF)
            },
            CommandStage::WaitingResponse => None,
        }
    }

    /// Takes note of the attempt to write the pending byte: a written byte
    /// moves the writer on, a busy UART leaves it where it is, a failed UART
    /// gives `Uart`. The result tells whether this write completed the frame,
    /// which is when the wait for the answer begins.
    pub fn on_write(&mut self, command: &[u8], event: WriteEvent) -> (r: Result<bool, Error>)
        requires
            old(self).writes(command@.len()),
        ensures
            final(self).writes(command@.len()),
            match event {
                WriteEvent::Written => if old(self).position(command@.len()) < command@.len() + 2 {
                    &&& final(self).position(command@.len()) == old(self).position(command@.len()) + 1
                    &&& r == Ok::<bool, Error>(final(self).position(command@.len()) == command@.len() + 2)
                } else {
                    &&& final(self).position(command@.len()) == old(self).position(command@.len())
                    &&& r == Ok::<bool, Error>(false)
                },
                WriteEvent::WouldBlock => r == Ok::<bool, Error>(false) && final(self).position(
                    command@.len(),
                ) == old(self).position(command@.len()),
                WriteEvent::Failed => r == Err::<bool, Error>(Error::Uart) && final(self).position(
                    command@.len(),
                ) == old(self).position(command@.len()),
            },
    {
        match event {
            WriteEvent::Written => match self.stage {
                CommandStage::SendingCommand => {
                    if self.byte_index < command.len() {
                        self.byte_index = self.byte_index + 1;
                    } else {
                        self.stage = CommandStage::SendingLF;
                    }
                    Ok(false)
                },
                CommandStage::SendingCR => {
                    self.stage = CommandStage::SendingLF;
                    Ok(false)
                },
                CommandStage::SendingLF => {
                    self.stage = CommandStage::WaitingResponse;
                    Ok(true)
                },
                CommandStage::WaitingResponse => Ok(false),
            },
            WriteEvent::WouldBlock => Ok(false),
            WriteEvent::Failed => Err(Error::Uart),
        }
    }
}

/// The receive buffer, timeout and state of the asynchronous driver.
pub struct AsyncCore {
    core: ModemCore,
    state: AsyncState,
}

impl AsyncCore {
    /// The receive buffer and timeout.
    pub closed spec fn modem(&self) -> ModemCore {
        self.core
    }

    /// The driver's state.
    pub closed spec fn state(&self) -> AsyncState {
        self.state
    }

    /// An idle core with an empty buffer and a timeout of 10 s.
    pub fn new() -> (c: Self)
        ensures
            c.modem().buffer() == Seq::<u8>::empty(),
            c.modem().timeout() == DEFAULT_TIMEOUT_MS,
            c.state() == AsyncState::Idle,
    {
        AsyncCore { core: ModemCore::new(), state: AsyncState::Idle }
    }

    /// The receive buffer and timeout.
    pub fn modem_core(&self) -> (c: &ModemCore)
        ensures
            *c == self.modem(),
    {
        &self.core
    }

    /// The driver's state.
    pub fn current_state(&self) -> (s: AsyncState)
        ensures
            s == self.state(),
    {
        self.state
    }

    /// Starts sending a command: empties the receive buffer and gives a
    /// writer at the start of the command.
    pub fn begin_command(&mut self) -> (w: CommandWriter)
        ensures
            final(self).modem().buffer() == Seq::<u8>::empty(),
            final(self).modem().timeout() == old(self).modem().timeout(),
            final(self).state() == old(self).state(),
            forall|len: nat| #[trigger] w.writes(len),
            forall|len: nat| #[trigger] w.position(len) == 0,
    {
        self.core.clear_buffer();
        CommandWriter::new()
    }

    /// The whole command is written at `now`: the wait for the answer starts.
    pub fn start_waiting(&mut self, now: u32)
        ensures
            final(self).modem() == old(self).modem(),
            final(self).state() == (AsyncState::WaitingResponse { start_time: now }),
    {
        self.state = AsyncState::WaitingResponse { start_time: now };
    }

    /// Whether the wait for the answer has run out of time at `now`; when it
    /// has, the driver goes idle. Only a wait started by `start_waiting` can
    /// run out.
    pub fn check_timeout(&mut self, now: u32) -> (expired: bool)
        requires
            old(self).state() matches AsyncState::WaitingResponse { start_time } ==> start_time
                <= now,
        ensures
            final(self).modem() == old(self).modem(),
            expired == (old(self).state() matches AsyncState::WaitingResponse { start_time } && now
                - start_time > old(self).modem().timeout()),
            expired ==> final(self).state() == AsyncState::Idle,
            !expired ==> final(self).state() == old(self).state(),
    {
        if let AsyncState::WaitingResponse { start_time } = self.state {
            if now - start_time > self.core.timeout_ms() {
                self.state = AsyncState::Idle;
                return true;
            }
        }
        false
    }

    /// Handles one read while waiting for the answer, as
    /// `ModemCore::receive_async` does; when the wait ends, the driver goes
    /// idle.
    pub fn receive(&mut self, event: ReadEvent) -> (step: WaitStep)
        ensures
            final(self).modem().timeout() == old(self).modem().timeout(),
            receipt(old(self).modem().buffer(), event, final(self).modem().buffer(), step, false),
            step is Done ==> final(self).state() == AsyncState::Idle,
            step is Continue ==> final(self).state() == old(self).state(),
    {
        let step = self.core.receive_async(event);
        if let WaitStep::Done(_) = step {
            self.state = AsyncState::Idle;
        }
        step
    }
}

impl AsyncCore {
    /// Decides on the outcome of a wait while sending an SMS, as
    /// `SmsSession::on_answer` does, on this driver's receive buffer. After
    /// writing the text, the driver starts a timed wait with `start_waiting`.
    pub fn sms_answer(&mut self, session: &mut SmsSession, answer: Result<ResponseStatus, Error>) -> (action: SmsAction)
        requires
            old(session).stage() != SmsStage::Finished,
        ensures
            final(session).body() == old(session).body(),
            final(self).modem().timeout() == old(self).modem().timeout(),
            final(self).state() == old(self).state(),
            action is WriteBody ==> final(self).modem().buffer() == Seq::<u8>::empty(),
            action is Finish ==> final(self).modem().buffer() == old(self).modem().buffer(),
            sms_step(
                old(session).stage(),
                old(session).body(),
                answer,
                old(self).modem().buffer(),
                final(session).stage(),
                action,
            ),
    {
        session.on_answer(answer, &mut self.core)
    }
}

/// What one attempt to write a single byte means for the future that writes
/// it: done, still pending, or failed with `Uart`.
pub fn byte_write_outcome(event: WriteEvent) -> (r: Option<Result<(), Error>>)
    ensures
        r == match event {
            WriteEvent::Written => Some(Ok::<(), Error>(())),
            WriteEvent::WouldBlock => None::<Result<(), Error>>,
            WriteEvent::Failed => Some(Err::<(), Error>(Error::Uart)),
        },
{
    match event {
        WriteEvent::Written => Some(Ok(())),
        WriteEvent::WouldBlock => None,
        WriteEvent::Failed => Some(Err(Error::Uart)),
    }
}

/// The commands that the asynchronous `init` sends, in order, after the
/// start-up delay: echo off, flow control off, `AT`.
pub fn async_init_commands() -> (cmds: Vec<&'static str>)
    ensures
        cmds@ == seq![
            commands::basic::AT_ECHO_OFF,
            commands::basic::AT_FLOW_CONTROL_OFF,
            commands::basic::AT,
        ],
{
    let mut cmds: Vec<&'static str> = Vec::new();
    cmds.push(commands::basic::AT_ECHO_OFF);
    cmds.push(commands::basic::AT_FLOW_CONTROL_OFF);
    cmds.push(commands::basic::AT);
    cmds
}

} // verus!
