use sim800l::async_modem::{byte_write_outcome, AsyncCore, AsyncState, CommandWriter, WriteEvent};
use sim800l::error::{Error, ResponseStatus};
use sim800l::linux_adapter::{wrap_millis, LinuxTimer};
use sim800l::modem::{
    deadline_passed, init_commands, InitSequence, ModemCore, Operation, ReadEvent, WaitStep,
    DEFAULT_TIMEOUT_MS,
};
use sim800l::timer::{MockTimer, Timer};

fn feed(core: &mut ModemCore, bytes: &[u8]) -> Vec<WaitStep> {
    bytes.iter().map(|b| core.receive(ReadEvent::Byte(*b))).collect()
}

#[test]
fn new_core_is_empty_with_default_timeout() {
    let core = ModemCore::new();
    assert_eq!(core.timeout_ms(), DEFAULT_TIMEOUT_MS);
    assert_eq!(core.timeout_ms(), 10000);
    assert!(core.response_buffer().is_empty());
}

#[test]
fn set_timeout_changes_timeout() {
    let mut core = ModemCore::new();
    core.set_timeout(250);
    assert_eq!(core.timeout_ms(), 250);
}

#[test]
fn wait_ends_at_first_complete_answer() {
    let mut core = ModemCore::new();
    let steps = feed(&mut core, b"\r\nOK\r\n");
    assert_eq!(&steps[..5], &[WaitStep::Continue; 5]);
    assert_eq!(steps[5], WaitStep::Done(Ok(ResponseStatus::Okay)));
    assert_eq!(core.response_buffer(), b"\r\nOK\r\n");
}

#[test]
fn wait_keeps_reading_when_nothing_arrives() {
    let mut core = ModemCore::new();
    assert_eq!(core.receive(ReadEvent::WouldBlock), WaitStep::Continue);
    assert_eq!(core.receive(ReadEvent::Failed), WaitStep::Done(Err(Error::Uart)));
    assert!(core.response_buffer().is_empty());
}

#[test]
fn full_buffer_overflows() {
    let mut core = ModemCore::new();
    for _ in 0..256 {
        assert_eq!(core.receive(ReadEvent::Byte(b'x')), WaitStep::Continue);
    }
    assert_eq!(core.response_buffer().len(), 256);
    assert_eq!(core.receive(ReadEvent::Byte(b'x')), WaitStep::Done(Err(Error::BufferOverflow)));
    assert_eq!(core.response_buffer().len(), 256);
}

#[test]
fn begin_command_clears_buffer_and_frames() {
    let mut core = ModemCore::new();
    feed(&mut core, b"junk");
    assert_eq!(core.begin_command("AT+CSQ"), b"AT+CSQ\r\n".to_vec());
    assert!(core.response_buffer().is_empty());
    feed(&mut core, b"x");
    core.clear_buffer();
    assert!(core.response_buffer().is_empty());
}

#[test]
fn stale_prompt_completes_the_next_wait() {
    let mut core = ModemCore::new();
    let steps = feed(&mut core, b"\r\n> ");
    assert_eq!(steps[3], WaitStep::Done(Ok(ResponseStatus::Prompt)));
    assert_eq!(core.receive(ReadEvent::Byte(b'\r')), WaitStep::Done(Ok(ResponseStatus::Prompt)));
}

#[test]
fn deadline() {
    assert!(!deadline_passed(100, 10100, 10000));
    assert!(deadline_passed(100, 10101, 10000));
    assert!(!deadline_passed(5, 5, 0));
}

fn write_all(writer: &mut CommandWriter, cmd: &[u8]) -> Vec<u8> {
    let mut out = Vec::new();
    let mut completions = 0;
    while let Some(b) = writer.next_byte(cmd) {
        out.push(b);
        if writer.on_write(cmd, WriteEvent::Written).unwrap() {
            completions += 1;
        }
    }
    assert_eq!(completions, 1);
    out
}

#[test]
fn writer_emits_command_then_crlf() {
    let mut w = CommandWriter::new();
    assert_eq!(write_all(&mut w, b"ATE0"), b"ATE0\r\n".to_vec());
    assert_eq!(w.next_byte(b"ATE0"), None);
    let mut w = CommandWriter::new();
    assert_eq!(write_all(&mut w, b""), b"\r\n".to_vec());
}

#[test]
fn writer_waits_and_fails() {
    let mut w = CommandWriter::new();
    assert_eq!(w.next_byte(b"AT"), Some(b'A'));
    assert_eq!(w.on_write(b"AT", WriteEvent::WouldBlock), Ok(false));
    assert_eq!(w.next_byte(b"AT"), Some(b'A'));
    assert_eq!(w.on_write(b"AT", WriteEvent::Failed), Err(Error::Uart));
    assert_eq!(w.next_byte(b"AT"), Some(b'A'));
}

#[test]
fn async_timeout_only_while_waiting() {
    let mut core = AsyncCore::new();
    assert_eq!(core.current_state(), AsyncState::Idle);
    assert!(!core.check_timeout(1_000_000));
    core.start_waiting(100);
    assert_eq!(core.current_state(), AsyncState::WaitingResponse { start_time: 100 });
    assert!(!core.check_timeout(10100));
    assert!(core.check_timeout(10101));
    assert_eq!(core.current_state(), AsyncState::Idle);
}

#[test]
fn async_receive_goes_idle_when_done() {
    let mut core = AsyncCore::new();
    let _w = core.begin_command();
    core.start_waiting(0);
    assert_eq!(core.receive(ReadEvent::Byte(b'R')), WaitStep::Continue);
    for b in b"ING\r\n" {
        assert_eq!(core.receive(ReadEvent::Byte(*b)), WaitStep::Continue);
    }
    for b in b"OK\r" {
        core.receive(ReadEvent::Byte(*b));
    }
    assert_eq!(core.receive(ReadEvent::Byte(b'\n')), WaitStep::Done(Ok(ResponseStatus::Okay)));
    assert_eq!(core.current_state(), AsyncState::Idle);
    assert_eq!(core.modem_core().response_buffer(), b"RING\r\nOK\r\n");
}

#[test]
fn mock_timer_advances() {
    let mut t = MockTimer::new();
    assert_eq!(t.now_ms(), 0);
    t.advance(5);
    assert_eq!(t.now_ms(), 5);
    t.delay_ms(7);
    assert_eq!(t.now_ms(), 12);
}

#[test]
fn linux_timer_starts_near_zero() {
    let t = LinuxTimer::new();
    assert!(t.now_ms() < 60_000);
}

#[test]
fn init_sends_every_command_whatever_the_answer() {
    let mut seq = InitSequence::new(init_commands());
    let mut sent = Vec::new();
    while let Some(cmd) = seq.next_command() {
        sent.push(cmd);
        let answer = if cmd == "AT" { ResponseStatus::Error } else { ResponseStatus::Okay };
        assert_eq!(seq.on_result(Ok(answer)), Ok(()));
    }
    assert_eq!(sent, vec!["ATE0", "AT+IFC=0,0", "AT", "AT+CLIP=1", "AT+CMGF=1"]);
}

#[test]
fn init_stops_at_first_failure() {
    let mut seq = InitSequence::new(init_commands());
    assert_eq!(seq.next_command(), Some("ATE0"));
    assert_eq!(seq.on_result(Ok(ResponseStatus::Okay)), Ok(()));
    assert_eq!(seq.next_command(), Some("AT+IFC=0,0"));
    assert_eq!(seq.on_result(Err(Error::Timeout)), Err(Error::Timeout));
    assert_eq!(seq.next_command(), None);
}

#[test]
fn each_operation_waits_for_its_timeout() {
    let mut core = ModemCore::new();
    core.set_timeout(1234);
    assert_eq!(core.timeout_for(Operation::Init), 1234);
    assert_eq!(core.timeout_for(Operation::FirmwareVersion), 1234);
    assert_eq!(core.timeout_for(Operation::NetworkStatus), 1234);
    assert_eq!(core.timeout_for(Operation::Audio), 1234);
    assert_eq!(core.timeout_for(Operation::Sms), 30000);
    assert_eq!(core.timeout_for(Operation::Call), 60000);
}

#[test]
fn byte_write_outcomes() {
    assert_eq!(byte_write_outcome(WriteEvent::Written), Some(Ok(())));
    assert_eq!(byte_write_outcome(WriteEvent::WouldBlock), None);
    assert_eq!(byte_write_outcome(WriteEvent::Failed), Some(Err(Error::Uart)));
}

#[test]
fn clock_wraps_after_u32_milliseconds() {
    assert_eq!(wrap_millis(0), 0);
    assert_eq!(wrap_millis(4_294_967_295), u32::MAX);
    assert_eq!(wrap_millis(4_294_967_296), 0);
    assert_eq!(wrap_millis(4_294_967_296 + 17), 17);
}

#[test]
fn writer_run_over_busy_uart_emits_each_byte_once() {
    let mut w = CommandWriter::new();
    let cmd = b"AT+CSQ";
    let mut out = Vec::new();
    let mut busy = true;
    while let Some(b) = w.next_byte(cmd) {
        if busy {
            assert_eq!(w.on_write(cmd, WriteEvent::WouldBlock), Ok(false));
        } else {
            out.push(b);
            w.on_write(cmd, WriteEvent::Written).unwrap();
        }
        busy = !busy;
    }
    assert_eq!(out, b"AT+CSQ\r\n".to_vec());
}
