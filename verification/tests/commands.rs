use sim800l::error::{Error, ResponseStatus};
use sim800l::modem::{
    dial_command, exchange_outcome, frame_command, init_commands, microphone_gain_command,
    sms_body, sms_send_command, speaker_volume_command, Exchange,
};
use sim800l::async_modem::async_init_commands;

#[test]
fn command_frame_ends_with_crlf() {
    assert_eq!(frame_command("AT"), b"AT\r\n".to_vec());
    assert_eq!(frame_command(""), b"\r\n".to_vec());
}

#[test]
fn sms_body_ends_with_ctrl_z() {
    assert_eq!(sms_body("Hello!"), b"Hello!\x1a".to_vec());
}

#[test]
fn sms_command_quotes_the_number() {
    let cmd = sms_send_command("+1234567890").unwrap();
    assert_eq!(cmd.as_str(), "AT+CMGS=\"+1234567890\"");
}

#[test]
fn sms_command_capacity_is_64_bytes() {
    let fits = "1".repeat(54);
    assert_eq!(sms_send_command(&fits).unwrap().len(), 64);
    let long = "1".repeat(55);
    assert_eq!(sms_send_command(&long), Err(Error::BufferOverflow));
}

#[test]
fn dial_command_ends_with_semicolon() {
    let cmd = dial_command("+1234567890").unwrap();
    assert_eq!(cmd.as_str(), "ATD+1234567890;");
}

#[test]
fn dial_command_capacity_is_32_bytes() {
    let fits = "9".repeat(28);
    assert_eq!(dial_command(&fits).unwrap().len(), 32);
    let long = "9".repeat(29);
    assert_eq!(dial_command(&long), Err(Error::BufferOverflow));
}

#[test]
fn speaker_volume_is_clamped_to_nine() {
    assert_eq!(speaker_volume_command(0).as_str(), "AT+CLVL=0");
    assert_eq!(speaker_volume_command(5).as_str(), "AT+CLVL=5");
    assert_eq!(speaker_volume_command(9).as_str(), "AT+CLVL=9");
    assert_eq!(speaker_volume_command(200).as_str(), "AT+CLVL=9");
}

#[test]
fn microphone_gain_is_clamped_to_fifteen() {
    assert_eq!(microphone_gain_command(7).as_str(), "AT+CMIC=7");
    assert_eq!(microphone_gain_command(10).as_str(), "AT+CMIC=10");
    assert_eq!(microphone_gain_command(12).as_str(), "AT+CMIC=12");
    assert_eq!(microphone_gain_command(15).as_str(), "AT+CMIC=15");
    assert_eq!(microphone_gain_command(99).as_str(), "AT+CMIC=15");
}

#[test]
fn exchange_outcomes() {
    assert_eq!(exchange_outcome(Exchange::Dial, ResponseStatus::Okay), Ok(()));
    assert_eq!(exchange_outcome(Exchange::Dial, ResponseStatus::Connect), Err(Error::CallError));
    assert_eq!(exchange_outcome(Exchange::Answer, ResponseStatus::Connect), Ok(()));
    assert_eq!(exchange_outcome(Exchange::Answer, ResponseStatus::Okay), Ok(()));
    assert_eq!(exchange_outcome(Exchange::Answer, ResponseStatus::Ring), Err(Error::CallError));
    assert_eq!(exchange_outcome(Exchange::HangUp, ResponseStatus::NoCarrier), Ok(()));
    assert_eq!(exchange_outcome(Exchange::HangUp, ResponseStatus::Error), Err(Error::CallError));
    assert_eq!(exchange_outcome(Exchange::Audio, ResponseStatus::Okay), Ok(()));
    assert_eq!(exchange_outcome(Exchange::Audio, ResponseStatus::Error), Err(Error::AudioError));
}

#[test]
fn init_sequences() {
    assert_eq!(init_commands(), vec!["ATE0", "AT+IFC=0,0", "AT", "AT+CLIP=1", "AT+CMGF=1"]);
    assert_eq!(async_init_commands(), vec!["ATE0", "AT+IFC=0,0", "AT"]);
}
