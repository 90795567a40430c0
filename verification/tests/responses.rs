use sim800l::error::{Error, NetworkStatus, ResponseStatus, SmsResponse};
use sim800l::response::{
    check_response_complete, check_response_complete_async, parse_firmware_version,
    parse_network_status, parse_sms_response,
};

#[test]
fn ok_completes_a_response() {
    assert_eq!(check_response_complete(b"AT\r\r\nOK\r\n"), Some(ResponseStatus::Okay));
}

#[test]
fn each_final_answer_is_recognised() {
    assert_eq!(check_response_complete(b"\r\nERROR\r\n"), Some(ResponseStatus::Error));
    assert_eq!(check_response_complete(b"\r\n> "), Some(ResponseStatus::Prompt));
    assert_eq!(check_response_complete(b"\r\nRING\r\n"), Some(ResponseStatus::Ring));
    assert_eq!(check_response_complete(b"CONNECT"), Some(ResponseStatus::Connect));
    assert_eq!(check_response_complete(b"NO CARRIER"), Some(ResponseStatus::NoCarrier));
}

#[test]
fn incomplete_answers_are_not_recognised() {
    assert_eq!(check_response_complete(b""), None);
    assert_eq!(check_response_complete(b"\r\nOK"), None);
    assert_eq!(check_response_complete(b"ERROR\r"), None);
    assert_eq!(check_response_complete(b">"), None);
}

#[test]
fn ok_takes_precedence_over_other_answers() {
    assert_eq!(check_response_complete(b"RING\r\nERROR\r\nOK\r\n"), Some(ResponseStatus::Okay));
    assert_eq!(check_response_complete(b"> RING"), Some(ResponseStatus::Prompt));
}

#[test]
fn invalid_utf8_is_never_complete() {
    assert_eq!(check_response_complete(&[0xff, b'O', b'K', b'\r', b'\n']), None);
    assert_eq!(check_response_complete(&[b'O', b'K', b'\r', b'\n', 0xc3]), None);
}

#[test]
fn async_recognition_knows_only_ok_error_and_prompt() {
    assert_eq!(check_response_complete_async(b"OK\r\n"), Some(ResponseStatus::Okay));
    assert_eq!(check_response_complete_async(b"ERROR\r\n"), Some(ResponseStatus::Error));
    assert_eq!(check_response_complete_async(b"> "), Some(ResponseStatus::Prompt));
    assert_eq!(check_response_complete_async(b"RING"), None);
    assert_eq!(check_response_complete_async(b"NO CARRIER"), None);
    assert_eq!(check_response_complete_async(b"CONNECT"), None);
}

#[test]
fn registration_status_is_read_from_creg_line() {
    assert_eq!(parse_network_status(b"AT+CREG?\r\r\n+CREG: 0,1\r\n\r\nOK\r\n"), Ok(NetworkStatus::RegisteredHome));
    assert_eq!(parse_network_status(b"+CREG: 0,5\r\nOK\r\n"), Ok(NetworkStatus::RegisteredRoaming));
    assert_eq!(parse_network_status(b"+CREG: 0,2\r\nOK\r\n"), Ok(NetworkStatus::Searching));
    assert_eq!(parse_network_status(b"+CREG: 0,3\r\nOK\r\n"), Ok(NetworkStatus::Denied));
    assert_eq!(parse_network_status(b"+CREG: 0,0\r\nOK\r\n"), Ok(NetworkStatus::NotRegistered));
}

#[test]
fn home_registration_wins_within_a_line() {
    assert_eq!(parse_network_status(b"+CREG: 2,5,\"1A2B\",1\r\n"), Ok(NetworkStatus::RegisteredHome));
}

#[test]
fn registration_without_status_is_unknown() {
    assert_eq!(parse_network_status(b"+CREG: 4\r\nOK\r\n"), Ok(NetworkStatus::Unknown));
    assert_eq!(parse_network_status(b"OK\r\n"), Ok(NetworkStatus::Unknown));
    assert_eq!(parse_network_status(b""), Ok(NetworkStatus::Unknown));
    assert_eq!(parse_network_status(b" +CREG: 0,1\r\n"), Ok(NetworkStatus::Unknown));
}

#[test]
fn first_reporting_line_decides() {
    assert_eq!(parse_network_status(b"+CREG: 9\r\n+CREG: 0,3\r\n+CREG: 0,1\r\n"), Ok(NetworkStatus::Denied));
}

#[test]
fn registration_answer_must_be_utf8() {
    assert_eq!(parse_network_status(&[b'+', 0xff, b'\n']), Err(Error::InvalidResponse));
}

#[test]
fn firmware_version_is_first_meaningful_line() {
    let v = parse_firmware_version(b"ATI\r\r\nSIM800 R14.18\r\n\r\nOK\r\n").unwrap();
    assert_eq!(v.as_str(), "SIM800 R14.18");
}

#[test]
fn firmware_version_is_trimmed() {
    let v = parse_firmware_version(b"\r\n \t SIM800 R14.18 \r\nOK\r\n").unwrap();
    assert_eq!(v.as_str(), "SIM800 R14.18");
    let v = parse_firmware_version("\u{00a0}SIM800\u{3000}\u{2028}\r\nOK\r\n".as_bytes()).unwrap();
    assert_eq!(v.as_str(), "SIM800");
}

#[test]
fn firmware_version_skips_lines_with_ok_or_echo() {
    let v = parse_firmware_version(b"BOOKING\r\nATI echo\r\nRev 2\r\nOK\r\n").unwrap();
    assert_eq!(v.as_str(), "Rev 2");
}

#[test]
fn firmware_version_missing_is_invalid() {
    assert_eq!(parse_firmware_version(b"ATI\r\n\r\nOK\r\n"), Err(Error::InvalidResponse));
    assert_eq!(parse_firmware_version(&[0xc3, 0x28]), Err(Error::InvalidResponse));
}

#[test]
fn firmware_version_longer_than_64_bytes_overflows() {
    let long = "V".repeat(65);
    let answer = format!("{}\r\nOK\r\n", long);
    assert_eq!(parse_firmware_version(answer.as_bytes()), Err(Error::BufferOverflow));
    let fits = "V".repeat(64);
    let answer = format!("{}\r\nOK\r\n", fits);
    assert_eq!(parse_firmware_version(answer.as_bytes()).unwrap().as_str(), fits.as_str());
}

#[test]
fn firmware_version_needs_ok_answer() {
    assert_eq!(parse_firmware_version(b"\r\nERROR\r\n"), Err(Error::AtError));
    assert_eq!(parse_firmware_version(b"SIM800 R14.18\r\n"), Err(Error::AtError));
    assert_eq!(parse_firmware_version(b""), Err(Error::AtError));
    assert_eq!(parse_firmware_version(b"SIM800 R14.18\r\nOK"), Err(Error::AtError));
}

#[test]
fn sms_index_line_gives_message_id() {
    assert_eq!(
        parse_sms_response(b"\r\n+CMGS: 12\r\n\r\nOK\r\n"),
        Ok(SmsResponse { message_id: Some(12), sent: true })
    );
    assert_eq!(
        parse_sms_response(b"\r\n+CMGS: 123\r\n\r\nOK\r\n"),
        Ok(SmsResponse { message_id: Some(123), sent: true })
    );
    assert_eq!(
        parse_sms_response(b"+CMGS: 0\r\nOK\r\n"),
        Ok(SmsResponse { message_id: Some(0), sent: true })
    );
    assert_eq!(
        parse_sms_response(b"+CMGS:   65535,x\r\n"),
        Ok(SmsResponse { message_id: Some(65535), sent: true })
    );
}

#[test]
fn sms_index_that_is_no_number_is_left_out() {
    assert_eq!(
        parse_sms_response(b"+CMGS: 70000\r\nOK\r\n"),
        Ok(SmsResponse { message_id: None, sent: true })
    );
    assert_eq!(
        parse_sms_response(b"+CMGS: x1\r\nOK\r\n"),
        Ok(SmsResponse { message_id: None, sent: true })
    );
    assert_eq!(
        parse_sms_response(b"+CMGS: 99999999999999999999999\r\n"),
        Ok(SmsResponse { message_id: None, sent: true })
    );
}

#[test]
fn sms_ok_without_index() {
    assert_eq!(
        parse_sms_response(b"+CMGS: \r\nOK\r\n"),
        Ok(SmsResponse { message_id: None, sent: true })
    );
    assert_eq!(parse_sms_response(b"OK"), Ok(SmsResponse { message_id: None, sent: true }));
}

#[test]
fn sms_without_ok_is_not_sent() {
    assert_eq!(parse_sms_response(b"\r\nERROR\r\n"), Err(Error::SmsNotSent));
    assert_eq!(parse_sms_response(&[0xfe]), Err(Error::InvalidResponse));
}
