//! Properties of the driver that span its functions.

use vstd::prelude::*;
use vstd::string::StringSliceAdditionalSpecFns;
use vstd::utf8::valid_utf8;

use crate::async_modem::CommandWriter;
use crate::commands;
use crate::error::{NetworkStatus, ResponseStatus};
use crate::buffers::RX_CAPACITY;
use crate::error::Error;
use crate::modem::{
    accepts, clamped_gain, clamped_volume, command_frame, decimal, dial_command_bytes, rejection, Exchange,
    operation_timeout, receipt, recognized, sms_command_bytes, ModemCore,
    Operation, ReadEvent, WaitStep,
};
use crate::response::{
    cmgs_in_lines, cmgs_index, creg_status, firmware_version, network_status, is_version_line, response_status, response_status_async, sms_response,
    version_in_lines,
};
use crate::sms::{sms_step, SmsAction, SmsStage};
use crate::text::{contains, lines, occurs_at, starts_with, trim, trim_end, trim_start, ws_prefix_len, ws_suffix_len};

verus! {

/// The asynchronous driver recognises an answer only where the synchronous
/// one recognises the same; and on `OK`, `ERROR` and the prompt, the two
/// agree.
pub proof fn law_async_recognition_agrees(buf: Seq<u8>)
    ensures
        response_status_async(buf) is Some ==> response_status(buf) == response_status_async(buf),
        (response_status(buf) == Some(ResponseStatus::Okay) || response_status(buf) == Some(
            ResponseStatus::Error,
        ) || response_status(buf) == Some(ResponseStatus::Prompt)) ==> response_status_async(buf)
            == response_status(buf),
{
}

/// A number of up to 28 bytes can be dialled: the dial command `ATD<number>;`
/// takes 4 bytes more than the number, and the command buffer holds 32.
pub proof fn law_dial_command_length(number: Seq<u8>)
    ensures
        dial_command_bytes(number).len() == number.len() + 4,
{
    reveal_strlit("ATD");
    reveal_strlit(";");
    vstd::string::is_ascii_spec_bytes(commands::call::AT_DIAL);
    vstd::string::is_ascii_spec_bytes(";");
}

/// An SMS can be sent to a number of up to 54 bytes: the command
/// `AT+CMGS="<phone>"` takes 10 bytes more than the number, and the command
/// buffer holds 64.
pub proof fn law_sms_command_length(phone: Seq<u8>)
    ensures
        sms_command_bytes(phone).len() == phone.len() + 10,
{
    reveal_strlit("AT+CMGS=");
    reveal_strlit("\"");
    vstd::string::is_ascii_spec_bytes(commands::sms::AT_SMS_SEND);
    vstd::string::is_ascii_spec_bytes("\"");
}

/// Whenever reading the answer to an SMS succeeds, the SMS counts as sent.
pub proof fn law_sms_success_is_sent(buf: Seq<u8>)
    ensures
        sms_response(buf) matches Ok(r) ==> r.sent,
{
}

proof fn lemma_trim_end_prefix(s: Seq<u8>)
    ensures
        trim_end(s).len() <= s.len(),
        trim_end(s) == s.subrange(0, trim_end(s).len() as int),
        ws_suffix_len(trim_end(s)) == 0,
    decreases s.len(),
{
    let k = ws_suffix_len(s);
    if k > 0 {
        let t = s.subrange(0, s.len() - k);
        lemma_trim_end_prefix(t);
        assert(t.subrange(0, trim_end(t).len() as int) =~= s.subrange(0, trim_end(t).len() as int));
    } else {
        assert(s.subrange(0, s.len() as int) =~= s);
    }
}

proof fn lemma_trim_start_clean(s: Seq<u8>)
    ensures
        ws_prefix_len(trim_start(s)) == 0,
    decreases s.len(),
{
    let k = ws_prefix_len(s);
    if k > 0 {
        lemma_trim_start_clean(s.subrange(k as int, s.len() as int));
    }
}

/// A trimmed text neither begins nor ends with whitespace.
pub proof fn law_trim_clean(s: Seq<u8>)
    ensures
        ws_prefix_len(trim(s)) == 0,
        ws_suffix_len(trim(s)) == 0,
{
    let y = trim_start(s);
    lemma_trim_start_clean(s);
    lemma_trim_end_prefix(y);
    let p = trim_end(y);
    if p.len() >= 1 {
        assert(p[0] == y[0]);
    }
    if p.len() >= 2 {
        assert(p[1] == y[1]);
    }
    if p.len() >= 3 {
        assert(p[2] == y[2]);
    }
}

proof fn lemma_version_in_lines(ls: Seq<Seq<u8>>)
    ensures
        version_in_lines(ls) matches Some(t) ==> is_version_line(t) && exists|i: int|
            0 <= i < ls.len() && t == trim(#[trigger] ls[i]),
    decreases ls.len(),
{
    if ls.len() > 0 && !is_version_line(trim(ls[0])) {
        lemma_version_in_lines(ls.drop_first());
        if let Some(t) = version_in_lines(ls.drop_first()) {
            let i = choose|i: int| 0 <= i < ls.drop_first().len() && t == trim(ls.drop_first()[i]);
            assert(ls[i + 1] == ls.drop_first()[i]);
        }
    }
}

/// The firmware version read from an answer is one of its lines, trimmed: it
/// is not empty, neither begins nor ends with whitespace, holds neither `OK`
/// nor `ATI`, and fits in 64 bytes.
pub proof fn law_firmware_version_clean(buf: Seq<u8>)
    ensures
        firmware_version(buf) matches Ok(t) ==> {
            &&& t.len() > 0
            &&& t.len() <= 64
            &&& ws_prefix_len(t) == 0
            &&& ws_suffix_len(t) == 0
            &&& !contains(t, "OK".spec_bytes())
            &&& !contains(t, "ATI".spec_bytes())
        },
{
    if let Ok(t) = firmware_version(buf) {
        lemma_version_in_lines(crate::text::lines(buf));
        let i = choose|i: int|
            0 <= i < crate::text::lines(buf).len() && t == trim(#[trigger] crate::text::lines(buf)[i]);
        law_trim_clean(crate::text::lines(buf)[i]);
    }
}

/// The wait for an answer when the bytes `s` arrive one after another into
/// buffer `b`: each byte is stored and the buffer checked, until an answer
/// is complete or the buffer is full.
pub open spec fn wait_run(b: Seq<u8>, s: Seq<u8>, full: bool) -> (Seq<u8>, WaitStep)
    decreases s.len(),
{
    if s.len() == 0 {
        (b, WaitStep::Continue)
    } else if b.len() >= RX_CAPACITY {
        (b, WaitStep::Done(Err(Error::BufferOverflow)))
    } else {
        match recognized(b.push(s[0]), full) {
            Some(st) => (b.push(s[0]), WaitStep::Done(Ok(st))),
            None => wait_run(b.push(s[0]), s.drop_first(), full),
        }
    }
}

/// `wait_run` is what successive calls of `receive` do: a step that keeps
/// reading leaves the rest of the stream to the next steps, and a step that
/// ends the wait ends the run.
pub proof fn law_receive_steps_compose(
    before: Seq<u8>,
    x: u8,
    rest: Seq<u8>,
    after: Seq<u8>,
    step: WaitStep,
    full: bool,
)
    requires
        receipt(before, ReadEvent::Byte(x), after, step, full),
    ensures
        step is Continue ==> wait_run(before, seq![x] + rest, full) == wait_run(after, rest, full),
        step is Done ==> wait_run(before, seq![x] + rest, full) == (after, step),
{
    let s = seq![x] + rest;
    assert(s[0] == x);
    assert(s.drop_first() =~= rest);
}

/// Waiting on an answer whose bytes `s` arrive one by one into buffer `b`
/// (which a command leaves empty) ends with the first prefix of the stream
/// that completes an answer, with that answer's status, and the buffer then
/// holds `b` and exactly that prefix; while no prefix completes one, the wait
/// goes on with everything stored.
pub proof fn law_wait_ends_at_first_answer(b: Seq<u8>, s: Seq<u8>, full: bool)
    requires
        b.len() + s.len() <= RX_CAPACITY,
    ensures
        forall|i: int|
            #![trigger recognized((b + s).take(b.len() + i), full)]
            1 <= i <= s.len() && recognized((b + s).take(b.len() + i), full) is Some && (forall|
                j: int,
            |
                1 <= j < i ==> #[trigger] recognized((b + s).take(b.len() + j), full) is None)
                ==> wait_run(b, s, full) == ((b + s).take(b.len() + i), WaitStep::Done(
                Ok(recognized((b + s).take(b.len() + i), full).unwrap()),
            )),
        (forall|j: int|
            1 <= j <= s.len() ==> #[trigger] recognized((b + s).take(b.len() + j), full) is None)
            ==> wait_run(b, s, full) == (b + s, WaitStep::Continue),
    decreases s.len(),
{
    if s.len() == 0 {
        assert(b + s =~= b);
    } else {
        let b2 = b.push(s[0]);
        let s2 = s.drop_first();
        assert(b2 + s2 =~= b + s);
        assert((b + s).take(b.len() + 1int) =~= b2);
        law_wait_ends_at_first_answer(b2, s2, full);
        assert forall|i: int|
            #![trigger recognized((b + s).take(b.len() + i), full)]
            1 <= i <= s.len() && recognized((b + s).take(b.len() + i), full) is Some && (forall|
                j: int,
            |
                1 <= j < i ==> #[trigger] recognized((b + s).take(b.len() + j), full) is None)
                implies wait_run(b, s, full) == ((b + s).take(b.len() + i),
            WaitStep::Done(Ok(recognized((b + s).take(b.len() + i), full).unwrap()))) by {
            if i > 1 {
                assert(recognized((b + s).take(b.len() + 1int), full) is None);
                assert(b2.len() + (i - 1) == b.len() + i);
                assert forall|j: int| 1 <= j < i - 1 implies #[trigger] recognized(
                    (b2 + s2).take(b2.len() + j),
                    full,
                ) is None by {
                    assert(b2.len() + j == b.len() + (j + 1));
                    assert(recognized((b + s).take(b.len() + (j + 1)), full) is None);
                }
            }
        }
        if forall|j: int|
            1 <= j <= s.len() ==> #[trigger] recognized((b + s).take(b.len() + j), full) is None {
            assert(recognized((b + s).take(b.len() + 1int), full) is None);
            assert forall|j: int| 1 <= j <= s2.len() implies #[trigger] recognized(
                (b2 + s2).take(b2.len() + j),
                full,
            ) is None by {
                assert(b2.len() + j == b.len() + (j + 1));
                assert(recognized((b + s).take(b.len() + (j + 1)), full) is None);
            }
        }
    }
}

/// An answer that does not complete before the buffer is full ends the wait
/// with `BufferOverflow` at the first byte that finds no room; the buffer then
/// holds as much of the stream as fits.
pub proof fn law_wait_overflows(b: Seq<u8>, s: Seq<u8>, full: bool)
    requires
        b.len() <= RX_CAPACITY < b.len() + s.len(),
        forall|j: int|
            1 <= j <= RX_CAPACITY - b.len() ==> #[trigger] recognized(
                (b + s).take(b.len() + j),
                full,
            ) is None,
    ensures
        wait_run(b, s, full) == ((b + s).take(RX_CAPACITY as int), WaitStep::Done(
            Err(Error::BufferOverflow),
        )),
    decreases s.len(),
{
    if b.len() == RX_CAPACITY {
        assert((b + s).take(RX_CAPACITY as int) =~= b);
    } else {
        let b2 = b.push(s[0]);
        let s2 = s.drop_first();
        assert(b2 + s2 =~= b + s);
        assert((b + s).take(b.len() + 1int) =~= b2);
        assert(recognized((b + s).take(b.len() + 1int), full) is None);
        assert forall|j: int| 1 <= j <= RX_CAPACITY - b2.len() implies #[trigger] recognized(
            (b2 + s2).take(b2.len() + j),
            full,
        ) is None by {
            assert(b2.len() + j == b.len() + (j + 1));
            assert(recognized((b + s).take(b.len() + (j + 1)), full) is None);
        }
        law_wait_overflows(b2, s2, full);
    }
}

/// Once a wait has ended within the bytes `s`, the bytes that arrive after
/// them are never read.
proof fn lemma_wait_run_stops(b: Seq<u8>, s: Seq<u8>, t: Seq<u8>, full: bool)
    requires
        wait_run(b, s, full).1 is Done,
    ensures
        wait_run(b, s + t, full) == wait_run(b, s, full),
    decreases s.len(),
{
    assert(s.len() > 0);
    assert((s + t)[0] == s[0]);
    if b.len() < RX_CAPACITY && recognized(b.push(s[0]), full) is None {
        assert((s + t).drop_first() =~= s.drop_first() + t);
        lemma_wait_run_stops(b.push(s[0]), s.drop_first(), t, full);
    }
}

/// Sending an SMS succeeds when the modem confirms it. Once the prompt has
/// been answered with the text, which empties the receive buffer, the wait
/// reads the confirmation `c` on its own: when the first `k` bytes of `c` are
/// the first to complete an answer, that answer is `OK` and they fit in the
/// buffer, the wait ends there with `OK`, and the session ends with the SMS
/// sent and the index that its `+CMGS:` line reports.
pub proof fn law_sms_confirmed_is_sent(
    body: Seq<u8>,
    c: Seq<u8>,
    k: int,
    full: bool,
    next: SmsStage,
    action: SmsAction,
)
    requires
        1 <= k <= c.len(),
        k <= RX_CAPACITY,
        recognized(c.take(k), full) == Some(ResponseStatus::Okay),
        forall|j: int| 1 <= j < k ==> #[trigger] recognized(c.take(j), full) is None,
        sms_step(
            SmsStage::AwaitingConfirmation,
            body,
            Ok(ResponseStatus::Okay),
            c.take(k),
            next,
            action,
        ),
    ensures
        wait_run(Seq::empty(), c, full) == (c.take(k), WaitStep::Done(
            Ok(ResponseStatus::Okay),
        )),
        next == SmsStage::Finished,
        action == SmsAction::Finish(sms_response(c.take(k))),
        sms_response(c.take(k)) matches Ok(r) && r.sent && r.message_id == match cmgs_in_lines(
            lines(c.take(k)),
        ) {
            Some(index) => index,
            None => None,
        },
{
    let e = Seq::<u8>::empty();
    let p = c.take(k);
    assert(e + p =~= p);
    assert forall|j: int| 1 <= j <= k implies (e + p).take(e.len() + j) == c.take(j) by {
        assert((e + p).take(e.len() + j) =~= c.take(j));
    }
    assert forall|j: int| 1 <= j < k implies #[trigger] recognized((e + p).take(e.len() + j), full)
        is None by {
        assert((e + p).take(e.len() + j) == c.take(j));
    }
    assert((e + p).take(e.len() + k) == c.take(k));
    law_wait_ends_at_first_answer(e, p, full);
    assert(wait_run(e, p, full) == (p, WaitStep::Done(Ok(ResponseStatus::Okay))));
    assert(p + c.skip(k) =~= c);
    lemma_wait_run_stops(e, p, c.skip(k), full);
    // `OK\r\n` completes the answer, so the buffer is UTF-8 and holds `OK`.
    let ok_crlf = "OK\r\n".spec_bytes();
    let ok = "OK".spec_bytes();
    reveal_strlit("OK\r\n");
    reveal_strlit("OK");
    vstd::string::is_ascii_spec_bytes("OK\r\n");
    vstd::string::is_ascii_spec_bytes("OK");
    assert(valid_utf8(p));
    assert(contains(p, ok_crlf));
    let at = choose|at: int| occurs_at(p, ok_crlf, at);
    assert(p.subrange(at, at + 2) =~= ok_crlf.subrange(0, 2));
    assert(ok_crlf.subrange(0, 2) =~= ok);
    assert(occurs_at(p, ok, at));
}

/// One step of a command writer `w` of `command` whose every write succeeds:
/// it hands out `b`, the frame's byte at its position (as
/// `CommandWriter::next_byte` does), and the byte written leaves it as `next`,
/// one position on (as `CommandWriter::on_write` does).
pub open spec fn writer_step(command: Seq<u8>, w: CommandWriter, b: u8, next: CommandWriter) -> bool {
    let pos = w.position(command.len());
    &&& pos < command.len() + 2
    &&& b == command_frame(command)[pos as int]
    &&& next.position(command.len()) == pos + 1
}

/// A run of a command writer, the writers `ws` one after another from a
/// fresh one, handing out the bytes `out`: whatever the length of the run,
/// the bytes handed out are the start of the frame, each once and in order;
/// the run cannot go past the frame, and once it has handed out as many bytes
/// as the frame holds, they are the command followed by `\r\n`.
pub proof fn law_writer_run_emits_frame(command: Seq<u8>, ws: Seq<CommandWriter>, out: Seq<u8>)
    requires
        ws.len() == out.len() + 1,
        ws[0].position(command.len()) == 0,
        forall|i: int| 0 <= i < out.len() ==> #[trigger] writer_step(command, ws[i], out[i], ws[i + 1]),
    ensures
        forall|i: int| 0 <= i < ws.len() ==> #[trigger] ws[i].position(command.len()) == i,
        out.len() <= command.len() + 2,
        out == command_frame(command).take(out.len() as int),
        out.len() == command.len() + 2 ==> out == command_frame(command),
    decreases out.len(),
{
    let len = command.len();
    if out.len() > 0 {
        let n = out.len() - 1;
        let ws2 = ws.take(n + 1);
        let out2 = out.take(n);
        assert forall|i: int| 0 <= i < out2.len() implies #[trigger] writer_step(
            command,
            ws2[i],
            out2[i],
            ws2[i + 1],
        ) by {
            assert(out2[i] == out[i]);
            assert(ws2[i] == ws[i]);
            assert(ws2[i + 1] == ws[i + 1]);
            assert(writer_step(command, ws[i], out[i], ws[i + 1]));
        }
        assert(ws2[0] == ws[0]);
        law_writer_run_emits_frame(command, ws2, out2);
        assert(writer_step(command, ws[n], out[n], ws[n + 1]));
        assert forall|i: int| 0 <= i < ws.len() implies #[trigger] ws[i].position(len) == i by {
            if i <= n {
                assert(ws2[i] == ws[i]);
                assert(ws2[i].position(len) == i);
            } else {
                assert(ws2[n] == ws[n]);
                assert(ws2[n].position(len) == n);
            }
        }
        assert(out == out2.push(out[n]));
        assert(out =~= command_frame(command).take(out.len() as int));
    } else {
        assert(out =~= command_frame(command).take(0));
        assert forall|i: int| 0 <= i < ws.len() implies #[trigger] ws[i].position(len) == i by {}
    }
    if out.len() == len + 2 {
        assert(command_frame(command).take(out.len() as int) =~= command_frame(command));
    }
}

/// Every operation but sending an SMS and the calls waits for the timeout
/// that `ModemCore::set_timeout` set last; sending an SMS waits 30 s and the
/// calls 60 s, whatever that timeout is.
pub proof fn law_operation_timeouts(core: ModemCore, op: Operation)
    ensures
        operation_timeout(op, core.timeout()) == match op {
            Operation::Sms => 30000u32,
            Operation::Call => 60000u32,
            _ => core.timeout(),
        },
{
}

/// A complete answer is recognised by what the received bytes contain,
/// anywhere in them: bytes that are not UTF-8 complete nothing; otherwise
/// `OK\r\n` completes the answer as `OK`, else `ERROR\r\n` as an error, else
/// `> ` as the prompt, else `RING`, else `CONNECT`, else `NO CARRIER` (so a
/// framed `\r\nNO CARRIER\r\n` ends the wait for `ATH`); bytes that hold none
/// of these complete nothing yet.
pub proof fn law_answer_recognised_by_containment(buf: Seq<u8>)
    ensures
        !valid_utf8(buf) ==> response_status(buf) is None,
        valid_utf8(buf) && contains(buf, "OK\r\n".spec_bytes()) ==> response_status(buf) == Some(
            ResponseStatus::Okay,
        ),
        valid_utf8(buf) && !contains(buf, "OK\r\n".spec_bytes()) && contains(
            buf,
            "ERROR\r\n".spec_bytes(),
        ) ==> response_status(buf) == Some(ResponseStatus::Error),
        valid_utf8(buf) && !contains(buf, "OK\r\n".spec_bytes()) && !contains(
            buf,
            "ERROR\r\n".spec_bytes(),
        ) && contains(buf, "> ".spec_bytes()) ==> response_status(buf) == Some(ResponseStatus::Prompt),
        valid_utf8(buf) && !contains(buf, "OK\r\n".spec_bytes()) && !contains(
            buf,
            "ERROR\r\n".spec_bytes(),
        ) && !contains(buf, "> ".spec_bytes()) && contains(buf, "RING".spec_bytes())
            ==> response_status(buf) == Some(ResponseStatus::Ring),
        valid_utf8(buf) && !contains(buf, "OK\r\n".spec_bytes()) && !contains(
            buf,
            "ERROR\r\n".spec_bytes(),
        ) && !contains(buf, "> ".spec_bytes()) && !contains(buf, "RING".spec_bytes()) && contains(
            buf,
            "CONNECT".spec_bytes(),
        ) ==> response_status(buf) == Some(ResponseStatus::Connect),
        valid_utf8(buf) && !contains(buf, "OK\r\n".spec_bytes()) && !contains(
            buf,
            "ERROR\r\n".spec_bytes(),
        ) && !contains(buf, "> ".spec_bytes()) && !contains(buf, "RING".spec_bytes()) && !contains(
            buf,
            "CONNECT".spec_bytes(),
        ) && contains(buf, "NO CARRIER".spec_bytes()) ==> response_status(buf) == Some(
            ResponseStatus::NoCarrier,
        ),
        !contains(buf, "OK\r\n".spec_bytes()) && !contains(buf, "ERROR\r\n".spec_bytes()) && !contains(
            buf,
            "> ".spec_bytes(),
        ) && !contains(buf, "RING".spec_bytes()) && !contains(buf, "CONNECT".spec_bytes()) && !contains(
            buf,
            "NO CARRIER".spec_bytes(),
        ) ==> response_status(buf) is None,
{
}

/// The asynchronous driver recognises an answer by containment too, among
/// `OK\r\n`, `ERROR\r\n` and `> ` in that order, and only in UTF-8 bytes.
pub proof fn law_async_answer_recognised_by_containment(buf: Seq<u8>)
    ensures
        !valid_utf8(buf) ==> response_status_async(buf) is None,
        valid_utf8(buf) && contains(buf, "OK\r\n".spec_bytes()) ==> response_status_async(buf) == Some(
            ResponseStatus::Okay,
        ),
        valid_utf8(buf) && !contains(buf, "OK\r\n".spec_bytes()) && contains(
            buf,
            "ERROR\r\n".spec_bytes(),
        ) ==> response_status_async(buf) == Some(ResponseStatus::Error),
        valid_utf8(buf) && !contains(buf, "OK\r\n".spec_bytes()) && !contains(
            buf,
            "ERROR\r\n".spec_bytes(),
        ) && contains(buf, "> ".spec_bytes()) ==> response_status_async(buf) == Some(
            ResponseStatus::Prompt,
        ),
        !contains(buf, "OK\r\n".spec_bytes()) && !contains(buf, "ERROR\r\n".spec_bytes()) && !contains(
            buf,
            "> ".spec_bytes(),
        ) ==> response_status_async(buf) is None,
{
}

/// A line reports a registration status only when it starts with `+CREG:`;
/// such a line that holds `,1` anywhere reports the home network, else `,5`
/// roaming, else `,2` searching, else `,3` denied, else `,0` not registered,
/// and a line with none of these reports nothing. So
/// `+CREG: 2,1,"1A2B","3C4D"` reports the home network.
pub proof fn law_creg_line_by_containment(line: Seq<u8>)
    ensures
        !starts_with(line, "+CREG:".spec_bytes()) ==> creg_status(line) is None,
        starts_with(line, "+CREG:".spec_bytes()) && contains(line, ",1".spec_bytes()) ==> creg_status(
            line,
        ) == Some(NetworkStatus::RegisteredHome),
        starts_with(line, "+CREG:".spec_bytes()) && !contains(line, ",1".spec_bytes()) && contains(
            line,
            ",5".spec_bytes(),
        ) ==> creg_status(line) == Some(NetworkStatus::RegisteredRoaming),
        starts_with(line, "+CREG:".spec_bytes()) && !contains(line, ",1".spec_bytes()) && !contains(
            line,
            ",5".spec_bytes(),
        ) && contains(line, ",2".spec_bytes()) ==> creg_status(line) == Some(NetworkStatus::Searching),
        starts_with(line, "+CREG:".spec_bytes()) && !contains(line, ",1".spec_bytes()) && !contains(
            line,
            ",5".spec_bytes(),
        ) && !contains(line, ",2".spec_bytes()) && contains(line, ",3".spec_bytes()) ==> creg_status(
            line,
        ) == Some(NetworkStatus::Denied),
        starts_with(line, "+CREG:".spec_bytes()) && !contains(line, ",1".spec_bytes()) && !contains(
            line,
            ",5".spec_bytes(),
        ) && !contains(line, ",2".spec_bytes()) && !contains(line, ",3".spec_bytes()) && contains(
            line,
            ",0".spec_bytes(),
        ) ==> creg_status(line) == Some(NetworkStatus::NotRegistered),
        !contains(line, ",1".spec_bytes()) && !contains(line, ",5".spec_bytes()) && !contains(
            line,
            ",2".spec_bytes(),
        ) && !contains(line, ",3".spec_bytes()) && !contains(line, ",0".spec_bytes()) ==> creg_status(
            line,
        ) is None,
{
}

/// An answer to `AT+CREG?` whose first line starts with `+CREG:` and holds
/// `,1` reports the home network, whatever follows.
pub proof fn law_network_home_from_first_line(buf: Seq<u8>)
    requires
        valid_utf8(buf),
        lines(buf).len() > 0,
        starts_with(lines(buf)[0], "+CREG:".spec_bytes()),
        contains(lines(buf)[0], ",1".spec_bytes()),
    ensures
        network_status(buf) == Ok::<NetworkStatus, Error>(NetworkStatus::RegisteredHome),
{
}

/// Every exchange accepts `OK` and none accepts `ERROR`, the prompt or
/// `RING`; only answering a call also accepts `CONNECT`, and only hanging up
/// also accepts `NO CARRIER`. A refused answer is a call error, or an audio
/// error for the audio commands.
pub proof fn law_exchange_answers(ex: Exchange)
    ensures
        accepts(ex, ResponseStatus::Okay),
        !accepts(ex, ResponseStatus::Error),
        !accepts(ex, ResponseStatus::Prompt),
        !accepts(ex, ResponseStatus::Ring),
        accepts(ex, ResponseStatus::Connect) <==> ex == Exchange::Answer,
        accepts(ex, ResponseStatus::NoCarrier) <==> ex == Exchange::HangUp,
        rejection(ex) == (if ex == Exchange::Audio {
            Error::AudioError
        } else {
            Error::CallError
        }),
{
}

/// The speaker volume command carries the level itself as one digit when it
/// is at most 9, and 9 for any higher level: `AT+CLVL=7` for 7.
pub proof fn law_speaker_volume_digit(level: u8)
    ensures
        commands::audio::AT_SPEAKER_VOLUME.spec_bytes() + decimal(clamped_volume(level))
            == "AT+CLVL=".spec_bytes() + (if level <= 9 {
            seq![(48 + level) as u8]
        } else {
            seq![57u8]
        }),
{
}

/// The microphone gain command carries the level itself in decimal when it
/// is at most 15 (one digit up to 9, `1` and a digit from 10), and 15 for any
/// higher level.
pub proof fn law_microphone_gain_digits(level: u8)
    ensures
        commands::audio::AT_MICROPHONE_GAIN.spec_bytes() + decimal(clamped_gain(level))
            == "AT+CMIC=".spec_bytes() + (if level <= 9 {
            seq![(48 + level) as u8]
        } else if level <= 15 {
            seq![49u8, (38 + level) as u8]
        } else {
            seq![49u8, 53u8]
        }),
{
}

/// The bytes that go to the modem, byte for byte: a command is followed by
/// CR LF; dialling writes `ATD`, the number and `;`; an SMS is started by
/// `AT+CMGS=`, the number in double quotes.
pub proof fn law_command_bytes(command: Seq<u8>, number: Seq<u8>)
    ensures
        command_frame(command) == command + seq![13u8, 10u8],
        dial_command_bytes(number) == seq![65u8, 84u8, 68u8] + number + seq![59u8],
        sms_command_bytes(number) == seq![65u8, 84u8, 43u8, 67u8, 77u8, 71u8, 83u8, 61u8, 34u8] + number
            + seq![34u8],
{
    reveal_strlit("ATD");
    reveal_strlit(";");
    reveal_strlit("AT+CMGS=");
    reveal_strlit("\"");
    vstd::string::is_ascii_spec_bytes(commands::call::AT_DIAL);
    vstd::string::is_ascii_spec_bytes(";");
    vstd::string::is_ascii_spec_bytes(commands::sms::AT_SMS_SEND);
    vstd::string::is_ascii_spec_bytes("\"");
    assert(dial_command_bytes(number) =~= seq![65u8, 84u8, 68u8] + number + seq![59u8]);
    assert(sms_command_bytes(number) =~= seq![65u8, 84u8, 43u8, 67u8, 77u8, 71u8, 83u8, 61u8, 34u8]
        + number + seq![34u8]);
}

/// The message index of a `+CMGS: ` line is its number read in base ten:
/// one digit gives its value, two digits `a b` give `10 a + b`, three digits
/// `a b c` give `100 a + 10 b + c`.
pub proof fn law_cmgs_index_decimal(a: u8, b: u8, c: u8)
    requires
        48 <= a <= 57,
        48 <= b <= 57,
        48 <= c <= 57,
    ensures
        cmgs_index(seq![43u8, 67u8, 77u8, 71u8, 83u8, 58u8, 32u8, a]) == Some((a - 48) as u16),
        cmgs_index(seq![43u8, 67u8, 77u8, 71u8, 83u8, 58u8, 32u8, a, b]) == Some(
            ((a - 48) * 10 + (b - 48)) as u16,
        ),
        cmgs_index(seq![43u8, 67u8, 77u8, 71u8, 83u8, 58u8, 32u8, a, b, c]) == Some(
            ((a - 48) * 100 + (b - 48) * 10 + (c - 48)) as u16,
        ),
{
    let p = seq![43u8, 67u8, 77u8, 71u8, 83u8, 58u8, 32u8];
    let d1 = seq![a];
    let d2 = seq![a, b];
    let d3 = seq![a, b, c];
    reveal_with_fuel(crate::response::leading_spaces, 3);
    reveal_with_fuel(crate::response::leading_digits, 5);
    reveal_with_fuel(crate::response::decimal_value, 5);
    assert((p + d1).skip(6) =~= seq![32u8] + d1);
    assert((p + d2).skip(6) =~= seq![32u8] + d2);
    assert((p + d3).skip(6) =~= seq![32u8] + d3);
    assert((seq![32u8] + d1).drop_first() =~= d1);
    assert((seq![32u8] + d2).drop_first() =~= d2);
    assert((seq![32u8] + d3).drop_first() =~= d3);
    assert(d1.drop_first() =~= Seq::<u8>::empty());
    assert(d2.drop_first() =~= seq![b]);
    assert(seq![b].drop_first() =~= Seq::<u8>::empty());
    assert(d3.drop_first() =~= seq![b, c]);
    assert(seq![b, c].drop_first() =~= seq![c]);
    assert(seq![c].drop_first() =~= Seq::<u8>::empty());
    assert(crate::response::leading_spaces(d1) == 0);
    assert(crate::response::leading_spaces(seq![32u8] + d1) == 1);
    assert(crate::response::leading_spaces(seq![32u8] + d2) == 1);
    assert(crate::response::leading_spaces(seq![32u8] + d3) == 1);
    assert((seq![32u8] + d1).skip(1) =~= d1);
    assert((seq![32u8] + d2).skip(1) =~= d2);
    assert((seq![32u8] + d3).skip(1) =~= d3);
    assert(crate::response::leading_digits(d1) == 1);
    assert(crate::response::leading_digits(d2) == 2);
    assert(crate::response::leading_digits(d3) == 3);
    assert(d1.take(1) =~= d1);
    assert(d2.take(2) =~= d2);
    assert(d3.take(3) =~= d3);
    assert(d1.drop_last() =~= Seq::<u8>::empty());
    assert(d2.drop_last() =~= d1);
    assert(d3.drop_last() =~= d2);
    assert(crate::response::decimal_value(d1) == a - 48);
    assert(crate::response::decimal_value(d2) == (a - 48) * 10 + (b - 48));
    assert(crate::response::decimal_value(d3) == (a - 48) * 100 + (b - 48) * 10 + (c - 48));
}

} // verus!
