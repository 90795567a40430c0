//! Sending an SMS: the command with the number, the prompt, the text ended by
//! Ctrl+Z, and the confirmation. The driver sends and waits; a session
//! decides, from each answer, what to write next or how the sending ended.

use vstd::prelude::*;
use vstd::string::StringSliceAdditionalSpecFns;

use crate::buffers::str64_bytes;
use crate::error::{Error, ResponseStatus, SmsResponse};
use crate::modem::{sms_body, sms_command_bytes, sms_send_command, ModemCore, CTRL_Z};
use crate::response::{parse_sms_response, sms_response};

verus! {

/// Where the sending of an SMS stands.
#[derive(Debug, Clone, Copy, PartialEq, Eq, Structural)]
pub enum SmsStage {
    /// The command with the number is sent; the prompt is awaited.
    AwaitingPrompt,
    /// The text is written; the confirmation is awaited.
    AwaitingConfirmation,
    /// The sending has ended.
    Finished,
}

/// What the driver does next for an SMS.
#[derive(Debug, PartialEq)]
pub enum SmsAction {
    /// Write these bytes (the text and Ctrl+Z), then wait for the answer;
    /// the receive buffer has been emptied of the prompt.
    WriteBody(Vec<u8>),
    /// The sending has ended with this outcome.
    Finish(Result<SmsResponse, Error>),
}

/// One SMS being sent.
pub struct SmsSession {
    stage: SmsStage,
    body: Vec<u8>,
}

impl SmsSession {
    /// Where the sending stands.
    pub closed spec fn stage(&self) -> SmsStage {
        self.stage
    }

    /// The bytes written after the prompt.
    pub closed spec fn body(&self) -> Seq<u8> {
        self.body@
    }

    /// Starts an SMS of `message` to `phone`: gives the session and the
    /// command to send (as a command, after emptying the receive buffer), or
    /// `BufferOverflow` when the command does not fit in 64 bytes.
    pub fn start(phone: &str, message: &str) -> (r: Result<(SmsSession, heapless::String<64>), Error>)
        ensures
            r is Ok <==> sms_command_bytes(phone.spec_bytes()).len() <= 64,
            r matches Ok((session, command)) ==> {
                &&& str64_bytes(command) == sms_command_bytes(phone.spec_bytes())
                &&& session.stage() == SmsStage::AwaitingPrompt
                &&& session.body() == message.spec_bytes().push(CTRL_Z)
            },
            r matches Err(e) ==> e == Error::BufferOverflow,
    {
        let command = match sms_send_command(phone) {
            Ok(c) => c,
            Err(e) => return Err(e),
        };
        Ok((SmsSession { stage: SmsStage::AwaitingPrompt, body: sms_body(message) }, command))
    }

    /// Decides on the outcome of a wait, given the receive buffer: a failed
    /// wait ends the sending with its error; the prompt lets the text be
    /// written, and the buffer is emptied so that the confirmation is read
    /// alone; the confirmation `OK` ends the sending with what the buffer
    /// says; any other answer ends it with `SmsNotSent`.
    pub fn on_answer(&mut self, answer: Result<ResponseStatus, Error>, core: &mut ModemCore) -> (action:
        SmsAction)
        requires
            old(self).stage() != SmsStage::Finished,
        ensures
            final(self).body() == old(self).body(),
            final(core).timeout() == old(core).timeout(),
            action is WriteBody ==> final(core).buffer() == Seq::<u8>::empty(),
            action is Finish ==> final(core).buffer() == old(core).buffer(),
            sms_step(old(self).stage(), old(self).body(), answer, old(core).buffer(), final(self).stage(), action),
    {
        let status = match answer {
            Ok(s) => s,
            Err(e) => {
                self.stage = SmsStage::Finished;
                return SmsAction::Finish(Err(e));
            },
        };
        match self.stage {
            SmsStage::AwaitingPrompt => {
                if let ResponseStatus::Prompt = status {
                    self.stage = SmsStage::AwaitingConfirmation;
                    core.clear_buffer();
                    SmsAction::WriteBody(self.body.clone())
                } else {
                    self.stage = SmsStage::Finished;
                    SmsAction::Finish(Err(Error::SmsNotSent))
                }
            },
            _ => {
                self.stage = SmsStage::Finished;
                if let ResponseStatus::Okay = status {
                    SmsAction::Finish(parse_sms_response(core.response_buffer()))
                } else {
                    SmsAction::Finish(Err(Error::SmsNotSent))
                }
            },
        }
    }
}

/// One decision of an SMS session at `stage`, with text `body`, on `answer`
/// and the received bytes `received`, leading to `next` and `action`.
pub open spec fn sms_step(
    stage: SmsStage,
    body: Seq<u8>,
    answer: Result<ResponseStatus, Error>,
    received: Seq<u8>,
    next: SmsStage,
    action: SmsAction,
) -> bool {
    match answer {
        Err(e) => action == SmsAction::Finish(Err(e)) && next == SmsStage::Finished,
        Ok(status) => if stage == SmsStage::AwaitingPrompt {
            if status == ResponseStatus::Prompt {
                &&& action matches SmsAction::WriteBody(b) && b@ == body
                &&& next == SmsStage::AwaitingConfirmation
            } else {
                &&& action == SmsAction::Finish(Err(Error::SmsNotSent))
                &&& next == SmsStage::Finished
            }
        } else {
            &&& next == SmsStage::Finished
            &&& action == SmsAction::Finish(
                if status == ResponseStatus::Okay {
                    sms_response(received)
                } else {
                    Err(Error::SmsNotSent)
                },
            )
        },
    }
}

} // verus!
