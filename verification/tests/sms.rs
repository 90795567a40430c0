use sim800l::async_modem::{AsyncCore, AsyncState};
use sim800l::error::{Error, ResponseStatus, SmsResponse};
use sim800l::modem::{ModemCore, ReadEvent, WaitStep};
use sim800l::sms::{SmsAction, SmsSession};

fn wait_for(core: &mut ModemCore, bytes: &[u8]) -> Result<ResponseStatus, Error> {
    for b in bytes {
        if let WaitStep::Done(r) = core.receive(ReadEvent::Byte(*b)) {
            return r;
        }
    }
    Err(Error::Timeout)
}

#[test]
fn sms_session_writes_text_after_prompt() {
    let mut core = ModemCore::new();
    let (mut session, command) = SmsSession::start("+1234567890", "Hi").unwrap();
    assert_eq!(command.as_str(), "AT+CMGS=\"+1234567890\"");
    core.begin_command(command.as_str());
    let answer = wait_for(&mut core, b"\r\n> ");
    assert_eq!(answer, Ok(ResponseStatus::Prompt));
    let action = session.on_answer(answer, &mut core);
    assert_eq!(action, SmsAction::WriteBody(b"Hi\x1a".to_vec()));
    assert!(core.response_buffer().is_empty());
    let answer = wait_for(&mut core, b"\r\n+CMGS: 7\r\n\r\nOK\r\n");
    assert_eq!(answer, Ok(ResponseStatus::Okay));
    let action = session.on_answer(answer, &mut core);
    assert_eq!(action, SmsAction::Finish(Ok(SmsResponse { message_id: Some(7), sent: true })));
}

#[test]
fn sms_confirmation_is_not_cut_short_by_the_prompt() {
    let mut core = ModemCore::new();
    let (mut session, _) = SmsSession::start("+1234567890", "Hello!").unwrap();
    let answer = wait_for(&mut core, b"\r\n> ");
    session.on_answer(answer, &mut core);
    // The echo of the text and the confirmation arrive after the prompt was
    // taken out of the buffer: the wait ends only at the final OK.
    let answer = wait_for(&mut core, b"Hello!\x1a\r\n+CMGS: 12\r\n\r\nOK\r\n");
    assert_eq!(answer, Ok(ResponseStatus::Okay));
    assert_eq!(
        session.on_answer(answer, &mut core),
        SmsAction::Finish(Ok(SmsResponse { message_id: Some(12), sent: true }))
    );
}

#[test]
fn sms_session_without_prompt_is_not_sent() {
    let mut core = ModemCore::new();
    let (mut session, _) = SmsSession::start("+1", "x").unwrap();
    let answer = wait_for(&mut core, b"ERROR\r\n");
    assert_eq!(session.on_answer(answer, &mut core), SmsAction::Finish(Err(Error::SmsNotSent)));
    assert_eq!(core.response_buffer(), b"ERROR\r\n");
}

#[test]
fn sms_session_without_confirmation_is_not_sent() {
    let mut core = ModemCore::new();
    let (mut session, _) = SmsSession::start("+1", "x").unwrap();
    let answer = wait_for(&mut core, b"> ");
    session.on_answer(answer, &mut core);
    let answer = wait_for(&mut core, b"\r\nERROR\r\n");
    assert_eq!(answer, Ok(ResponseStatus::Error));
    assert_eq!(session.on_answer(answer, &mut core), SmsAction::Finish(Err(Error::SmsNotSent)));
}

#[test]
fn sms_session_passes_on_wait_errors() {
    let mut core = ModemCore::new();
    let (mut session, _) = SmsSession::start("+1", "x").unwrap();
    assert_eq!(session.on_answer(Err(Error::Timeout), &mut core), SmsAction::Finish(Err(Error::Timeout)));
    let (mut session, _) = SmsSession::start("+1", "x").unwrap();
    let answer = wait_for(&mut core, b"> ");
    session.on_answer(answer, &mut core);
    assert_eq!(
        session.on_answer(Err(Error::BufferOverflow), &mut core),
        SmsAction::Finish(Err(Error::BufferOverflow))
    );
}

#[test]
fn sms_session_rejects_long_number() {
    assert!(matches!(SmsSession::start(&"5".repeat(55), "x"), Err(Error::BufferOverflow)));
    assert!(SmsSession::start(&"5".repeat(54), "x").is_ok());
}

#[test]
fn async_sms_confirmation_wait_is_timed() {
    let mut core = AsyncCore::new();
    let (mut session, _) = SmsSession::start("+1234567890", "Hello!").unwrap();
    let _writer = core.begin_command();
    core.start_waiting(0);
    let mut answer = Err(Error::Timeout);
    for b in b"\r\n> " {
        if let WaitStep::Done(r) = core.receive(ReadEvent::Byte(*b)) {
            answer = r;
        }
    }
    assert_eq!(answer, Ok(ResponseStatus::Prompt));
    assert_eq!(core.current_state(), AsyncState::Idle);
    let action = core.sms_answer(&mut session, answer);
    assert_eq!(action, SmsAction::WriteBody(b"Hello!\x1a".to_vec()));
    assert!(core.modem_core().response_buffer().is_empty());
    // The text is written at 500 ms; the confirmation never comes.
    core.start_waiting(500);
    assert_eq!(core.receive(ReadEvent::WouldBlock), WaitStep::Continue);
    assert!(!core.check_timeout(10_500));
    assert!(core.check_timeout(10_501));
    assert_eq!(core.current_state(), AsyncState::Idle);
    assert_eq!(
        core.sms_answer(&mut session, Err(Error::Timeout)),
        SmsAction::Finish(Err(Error::Timeout))
    );
}

#[test]
fn async_sms_is_sent_on_confirmation() {
    let mut core = AsyncCore::new();
    let (mut session, _) = SmsSession::start("+1234567890", "Hello!").unwrap();
    let _writer = core.begin_command();
    core.start_waiting(0);
    let mut answer = Err(Error::Timeout);
    for b in b"\r\n> " {
        if let WaitStep::Done(r) = core.receive(ReadEvent::Byte(*b)) {
            answer = r;
        }
    }
    core.sms_answer(&mut session, answer);
    core.start_waiting(10);
    let mut answer = Err(Error::Timeout);
    for b in b"\r\n+CMGS: 12\r\n\r\nOK\r\n" {
        if let WaitStep::Done(r) = core.receive(ReadEvent::Byte(*b)) {
            answer = r;
        }
    }
    assert_eq!(answer, Ok(ResponseStatus::Okay));
    assert_eq!(
        core.sms_answer(&mut session, answer),
        SmsAction::Finish(Ok(SmsResponse { message_id: Some(12), sent: true }))
    );
}
