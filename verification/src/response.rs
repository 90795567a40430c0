//! Recognising and reading the modem's answers, held as raw bytes in the
//! receive buffer.

use vstd::prelude::*;
use vstd::slice::slice_subrange;
use vstd::string::StringSliceAdditionalSpecFns;
use vstd::utf8::*;

use crate::buffers::{str64_bytes, str64_try_from};
use crate::error::{Error, NetworkStatus, ResponseStatus, SmsResponse};
use crate::text::{
    bytes_contain, bytes_start_with, char_start, contains, lemma_valid_utf8_first,
    lemma_valid_utf8_next, lemma_valid_utf8_split, lines, next_line, starts_with, trim, trim_bounds,
    utf8_str,
};

verus! {

/// The status that a buffer's contents complete, if any: the buffer must be
/// valid UTF-8, and the first of `OK\r\n`, `ERROR\r\n`, `> `, `RING`,
/// `CONNECT`, `NO CARRIER` that it contains decides.
pub open spec fn response_status(buf: Seq<u8>) -> Option<ResponseStatus> {
    if !valid_utf8(buf) {
        None
    } else if contains(buf, "OK\r\n".spec_bytes()) {
        Some(ResponseStatus::Okay)
    } else if contains(buf, "ERROR\r\n".spec_bytes()) {
        Some(ResponseStatus::Error)
    } else if contains(buf, "> ".spec_bytes()) {
        Some(ResponseStatus::Prompt)
    } else if contains(buf, "RING".spec_bytes()) {
        Some(ResponseStatus::Ring)
    } else if contains(buf, "CONNECT".spec_bytes()) {
        Some(ResponseStatus::Connect)
    } else if contains(buf, "NO CARRIER".spec_bytes()) {
        Some(ResponseStatus::NoCarrier)
    } else {
        None
    }
}

/// The status that a buffer's contents complete for the asynchronous driver,
/// which knows only `OK\r\n`, `ERROR\r\n` and `> `.
pub open spec fn response_status_async(buf: Seq<u8>) -> Option<ResponseStatus> {
    if !valid_utf8(buf) {
        None
    } else if contains(buf, "OK\r\n".spec_bytes()) {
        Some(ResponseStatus::Okay)
    } else if contains(buf, "ERROR\r\n".spec_bytes()) {
        Some(ResponseStatus::Error)
    } else if contains(buf, "> ".spec_bytes()) {
        Some(ResponseStatus::Prompt)
    } else {
        None
    }
}

/// Whether the received bytes complete a response, and with which status.
pub fn check_response_complete(buf: &[u8]) -> (r: Option<ResponseStatus>)
    ensures
        r == response_status(buf@),
{
    if utf8_str(buf).is_none() {
        None
    } else if bytes_contain(buf, "OK\r\n".as_bytes()) {
        Some(ResponseStatus::Okay)
    } else if bytes_contain(buf, "ERROR\r\n".as_bytes()) {
        Some(ResponseStatus::Error)
    } else if bytes_contain(buf, "> ".as_bytes()) {
        Some(ResponseStatus::Prompt)
    } else if bytes_contain(buf, "RING".as_bytes()) {
        Some(ResponseStatus::Ring)
    } else if bytes_contain(buf, "CONNECT".as_bytes()) {
        Some(ResponseStatus::Connect)
    } else if bytes_contain(buf, "NO CARRIER".as_bytes()) {
        Some(ResponseStatus::NoCarrier)
    } else {
        None
    }
}

/// Whether the received bytes complete a response for the asynchronous
/// driver, and with which status.
pub fn check_response_complete_async(buf: &[u8]) -> (r: Option<ResponseStatus>)
    ensures
        r == response_status_async(buf@),
{
    if utf8_str(buf).is_none() {
        None
    } else if bytes_contain(buf, "OK\r\n".as_bytes()) {
        Some(ResponseStatus::Okay)
    } else if bytes_contain(buf, "ERROR\r\n".as_bytes()) {
        Some(ResponseStatus::Error)
    } else if bytes_contain(buf, "> ".as_bytes()) {
        Some(ResponseStatus::Prompt)
    } else {
        None
    }
}

/// The registration status that a `+CREG:` line reports: the first of `,1`,
/// `,5`, `,2`, `,3`, `,0` that it contains decides; other lines report none.
pub open spec fn creg_status(line: Seq<u8>) -> Option<NetworkStatus> {
    if !starts_with(line, "+CREG:".spec_bytes()) {
        None
    } else if contains(line, ",1".spec_bytes()) {
        Some(NetworkStatus::RegisteredHome)
    } else if contains(line, ",5".spec_bytes()) {
        Some(NetworkStatus::RegisteredRoaming)
    } else if contains(line, ",2".spec_bytes()) {
        Some(NetworkStatus::Searching)
    } else if contains(line, ",3".spec_bytes()) {
        Some(NetworkStatus::Denied)
    } else if contains(line, ",0".spec_bytes()) {
        Some(NetworkStatus::NotRegistered)
    } else {
        None
    }
}

/// The status reported by the first line that reports one, else `Unknown`.
pub open spec fn status_in_lines(ls: Seq<Seq<u8>>) -> NetworkStatus
    decreases ls.len(),
{
    if ls.len() == 0 {
        NetworkStatus::Unknown
    } else {
        match creg_status(ls[0]) {
            Some(st) => st,
            None => status_in_lines(ls.drop_first()),
        }
    }
}

/// What `check_network_status` makes of the answer to `AT+CREG?`.
pub open spec fn network_status(buf: Seq<u8>) -> Result<NetworkStatus, Error> {
    if !valid_utf8(buf) {
        Err(Error::InvalidResponse)
    } else {
        Ok(status_in_lines(lines(buf)))
    }
}

fn creg_line_status(line: &[u8]) -> (r: Option<NetworkStatus>)
    ensures
        r == creg_status(line@),
{
    if !bytes_start_with(line, "+CREG:".as_bytes()) {
        None
    } else if bytes_contain(line, ",1".as_bytes()) {
        Some(NetworkStatus::RegisteredHome)
    } else if bytes_contain(line, ",5".as_bytes()) {
        Some(NetworkStatus::RegisteredRoaming)
    } else if bytes_contain(line, ",2".as_bytes()) {
        Some(NetworkStatus::Searching)
    } else if bytes_contain(line, ",3".as_bytes()) {
        Some(NetworkStatus::Denied)
    } else if bytes_contain(line, ",0".as_bytes()) {
        Some(NetworkStatus::NotRegistered)
    } else {
        None
    }
}

proof fn lemma_lines_cons(l: Seq<u8>, rest: Seq<Seq<u8>>)
    ensures
        (seq![l] + rest).len() > 0,
        (seq![l] + rest)[0] == l,
        (seq![l] + rest).drop_first() == rest,
{
    assert((seq![l] + rest).drop_first() =~= rest);
}

/// Reads the network registration status from the answer to `AT+CREG?`.
pub fn parse_network_status(buf: &[u8]) -> (r: Result<NetworkStatus, Error>)
    ensures
        r == network_status(buf@),
{
    if utf8_str(buf).is_none() {
        return Err(Error::InvalidResponse);
    }
    let n = buf.len();
    let mut pos: usize = 0;
    assert(buf@.subrange(0, n as int) =~= buf@);
    while pos < n
        invariant
            n == buf@.len(),
            pos <= n,
            valid_utf8(buf@),
            status_in_lines(lines(buf@)) == status_in_lines(
                lines(buf@.subrange(pos as int, n as int)),
            ),
        decreases n - pos,
    {
        let (end, next) = next_line(buf, pos);
        let line = slice_subrange(buf, pos, end);
        proof {
            lemma_lines_cons(line@, lines(buf@.subrange(next as int, n as int)));
        }
        if let Some(st) = creg_line_status(line) {
            return Ok(st);
        }
        pos = next;
    }
    assert(buf@.subrange(n as int, n as int) =~= Seq::<u8>::empty());
    Ok(NetworkStatus::Unknown)
}

/// A `+CMGS:` line with something after the tag.
pub open spec fn is_cmgs_line(line: Seq<u8>) -> bool {
    starts_with(line, "+CMGS:".spec_bytes()) && line.len() > 7
}

/// An ASCII decimal digit.
pub open spec fn is_digit(b: u8) -> bool {
    48 <= b && b <= 57
}

/// Number of leading spaces of `s`.
pub open spec fn leading_spaces(s: Seq<u8>) -> nat
    decreases s.len(),
{
    if s.len() > 0 && s[0] == 32 {
        1 + leading_spaces(s.drop_first())
    } else {
        0
    }
}

/// Number of leading decimal digits of `s`.
pub open spec fn leading_digits(s: Seq<u8>) -> nat
    decreases s.len(),
{
    if s.len() > 0 && is_digit(s[0]) {
        1 + leading_digits(s.drop_first())
    } else {
        0
    }
}

/// The number that the decimal digits `d` write.
pub open spec fn decimal_value(d: Seq<u8>) -> nat
    decreases d.len(),
{
    if d.len() == 0 {
        0
    } else {
        (decimal_value(d.drop_last()) * 10 + (d.last() - 48)) as nat
    }
}

/// The message index that a `+CMGS:` line reports: the decimal number after
/// the tag and any spaces, when there is one and it fits in a `u16`.
pub open spec fn cmgs_index(line: Seq<u8>) -> Option<u16> {
    let rest = line.skip(6);
    let digits = rest.skip(leading_spaces(rest) as int);
    let n = leading_digits(digits);
    if n == 0 || decimal_value(digits.take(n as int)) > 0xffff {
        None
    } else {
        Some(decimal_value(digits.take(n as int)) as u16)
    }
}

/// The index reported by the first `+CMGS:` line, if there is such a line.
pub open spec fn cmgs_in_lines(ls: Seq<Seq<u8>>) -> Option<Option<u16>>
    decreases ls.len(),
{
    if ls.len() == 0 {
        None
    } else if is_cmgs_line(ls[0]) {
        Some(cmgs_index(ls[0]))
    } else {
        cmgs_in_lines(ls.drop_first())
    }
}

/// What `parse_sms_response` makes of the answer to an SMS: the first
/// `+CMGS:` line gives the message index it reports, else an `OK` anywhere
/// means sent without an index.
pub open spec fn sms_response(buf: Seq<u8>) -> Result<SmsResponse, Error> {
    if !valid_utf8(buf) {
        Err(Error::InvalidResponse)
    } else {
        match cmgs_in_lines(lines(buf)) {
            Some(index) => Ok(SmsResponse { message_id: index, sent: true }),
            None => if contains(buf, "OK".spec_bytes()) {
                Ok(SmsResponse { message_id: None, sent: true })
            } else {
                Err(Error::SmsNotSent)
            },
        }
    }
}

proof fn lemma_leading_spaces(s: Seq<u8>, j: int)
    requires
        0 <= j <= s.len(),
        forall|k: int| 0 <= k < j ==> s[k] == 32,
        j == s.len() || s[j] != 32,
    ensures
        leading_spaces(s) == j,
    decreases j,
{
    if j > 0 {
        let t = s.drop_first();
        assert forall|k: int| 0 <= k < j - 1 implies t[k] == 32 by {
            assert(t[k] == s[k + 1]);
        }
        lemma_leading_spaces(t, j - 1);
    }
}

proof fn lemma_leading_digits(s: Seq<u8>, j: int)
    requires
        0 <= j <= s.len(),
        forall|k: int| 0 <= k < j ==> is_digit(s[k]),
        j == s.len() || !is_digit(s[j]),
    ensures
        leading_digits(s) == j,
    decreases j,
{
    if j > 0 {
        let t = s.drop_first();
        assert forall|k: int| 0 <= k < j - 1 implies is_digit(t[k]) by {
            assert(t[k] == s[k + 1]);
        }
        lemma_leading_digits(t, j - 1);
    }
}

/// The message index of a `+CMGS:` line.
fn cmgs_line_index(line: &[u8]) -> (r: Option<u16>)
    requires
        line@.len() >= 6,
    ensures
        r == cmgs_index(line@),
{
    let n = line.len();
    let ghost rest = line@.skip(6);
    let mut i: usize = 6;
    while i < n && line[i] == 32
        invariant
            6 <= i <= n,
            n == line@.len(),
            forall|k: int| 6 <= k < i ==> line@[k] == 32,
        decreases n - i,
    {
        i = i + 1;
    }
    proof {
        assert forall|k: int| 0 <= k < i - 6 implies rest[k] == 32 by {
            assert(rest[k] == line@[k + 6]);
        }
        if i < n {
            assert(rest[i - 6] == line@[i as int]);
        }
        lemma_leading_spaces(rest, i - 6);
    }
    let ghost digits = rest.skip(i - 6);
    assert(digits =~= line@.skip(i as int));
    let start = i;
    let mut value: u32 = 0;
    while i < n && 48 <= line[i] && line[i] <= 57
        invariant
            start <= i <= n,
            n == line@.len(),
            digits == line@.skip(start as int),
            forall|k: int| start <= k < i ==> is_digit(line@[k]),
            value as int == if decimal_value(digits.take(i - start)) > 0x10000 {
                0x10000
            } else {
                decimal_value(digits.take(i - start)) as int
            },
        decreases n - i,
    {
        proof {
            let d = digits.take(i + 1 - start);
            assert(d.drop_last() =~= digits.take(i - start));
            assert(d.last() == line@[i as int]);
        }
        value = value * 10 + (line[i] - 48) as u32;
        if value > 0x10000 {
            value = 0x10000;
        }
        i = i + 1;
    }
    proof {
        assert forall|k: int| 0 <= k < i - start implies is_digit(digits[k]) by {
            assert(digits[k] == line@[k + start]);
        }
        if i < n {
            assert(digits[i - start] == line@[i as int]);
        }
        lemma_leading_digits(digits, i - start);
    }
    if i == start || value > 0xffff {
        None
    } else {
        Some(value as u16)
    }
}

/// Reads the outcome of sending an SMS from the modem's answer.
pub fn parse_sms_response(buf: &[u8]) -> (r: Result<SmsResponse, Error>)
    ensures
        r == sms_response(buf@),
{
    if utf8_str(buf).is_none() {
        return Err(Error::InvalidResponse);
    }
    let n = buf.len();
    let mut pos: usize = 0;
    assert(buf@.subrange(0, n as int) =~= buf@);
    while pos < n
        invariant
            n == buf@.len(),
            pos <= n,
            valid_utf8(buf@),
            cmgs_in_lines(lines(buf@)) == cmgs_in_lines(lines(buf@.subrange(pos as int, n as int))),
        decreases n - pos,
    {
        let (end, next) = next_line(buf, pos);
        let line = slice_subrange(buf, pos, end);
        proof {
            lemma_lines_cons(line@, lines(buf@.subrange(next as int, n as int)));
        }
        if bytes_start_with(line, "+CMGS:".as_bytes()) && line.len() > 7 {
            return Ok(SmsResponse { message_id: cmgs_line_index(line), sent: true });
        }
        pos = next;
    }
    assert(buf@.subrange(n as int, n as int) =~= Seq::<u8>::empty());
    if bytes_contain(buf, "OK".as_bytes()) {
        Ok(SmsResponse { message_id: None, sent: true })
    } else {
        Err(Error::SmsNotSent)
    }
}

/// A trimmed line that names the firmware: not empty, and holding neither
/// `OK` nor the echoed `ATI`.
pub open spec fn is_version_line(t: Seq<u8>) -> bool {
    t.len() > 0 && !contains(t, "OK".spec_bytes()) && !contains(t, "ATI".spec_bytes())
}

/// The first line that, trimmed, names the firmware, trimmed.
pub open spec fn version_in_lines(ls: Seq<Seq<u8>>) -> Option<Seq<u8>>
    decreases ls.len(),
{
    if ls.len() == 0 {
        None
    } else if is_version_line(trim(ls[0])) {
        Some(trim(ls[0]))
    } else {
        version_in_lines(ls.drop_first())
    }
}

/// What `get_firmware_version` makes of the answer to `ATI`: an answer that
/// is not completed by `OK` is an `AtError`; otherwise the first trimmed line
/// that names the firmware, which must fit in 64 bytes.
pub open spec fn firmware_version(buf: Seq<u8>) -> Result<Seq<u8>, Error> {
    if !valid_utf8(buf) {
        Err(Error::InvalidResponse)
    } else if response_status(buf) != Some(ResponseStatus::Okay) {
        Err(Error::AtError)
    } else {
        match version_in_lines(lines(buf)) {
            None => Err(Error::InvalidResponse),
            Some(t) => if t.len() <= 64 {
                Ok(t)
            } else {
                Err(Error::BufferOverflow)
            },
        }
    }
}

/// Reads the firmware version from the answer to `ATI`; an answer that the
/// modem did not end with `OK` gives `AtError`.
pub fn parse_firmware_version(buf: &[u8]) -> (r: Result<heapless::String<64>, Error>)
    ensures
        match r {
            Ok(v) => firmware_version(buf@) == Ok::<Seq<u8>, Error>(str64_bytes(v)),
            Err(e) => firmware_version(buf@) == Err::<Seq<u8>, Error>(e),
        },
{
    if utf8_str(buf).is_none() {
        return Err(Error::InvalidResponse);
    }
    match check_response_complete(buf) {
        Some(ResponseStatus::Okay) => {},
        _ => return Err(Error::AtError),
    }
    let n = buf.len();
    let mut pos: usize = 0;
    assert(buf@.subrange(0, n as int) =~= buf@);
    proof {
        lemma_valid_utf8_first(buf@);
    }
    while pos < n
        invariant
            n == buf@.len(),
            pos <= n,
            valid_utf8(buf@),
            response_status(buf@) == Some(ResponseStatus::Okay),
            char_start(buf@, pos as int),
            version_in_lines(lines(buf@)) == version_in_lines(
                lines(buf@.subrange(pos as int, n as int)),
            ),
        decreases n - pos,
    {
        let (end, next) = next_line(buf, pos);
        let (a, b) = trim_bounds(buf, pos, end);
        proof {
            lemma_lines_cons(
                buf@.subrange(pos as int, end as int),
                lines(buf@.subrange(next as int, n as int)),
            );
            if next < n {
                lemma_valid_utf8_next(buf@, next - 1);
            }
        }
        let t = slice_subrange(buf, a, b);
        if t.len() > 0 && !bytes_contain(t, "OK".as_bytes()) && !bytes_contain(t, "ATI".as_bytes()) {
            proof {
                lemma_valid_utf8_split(buf@, a as int);
                let u = buf@.subrange(a as int, n as int);
                assert(u[b - a] == buf@[b as int] || b == n);
                lemma_valid_utf8_split(u, b - a);
                assert(u.subrange(0, b - a) =~= t@);
            }
            let x = utf8_str(t).unwrap();
            return match str64_try_from(x) {
                Ok(v) => Ok(v),
                Err(_) => Err(Error::BufferOverflow),
            };
        }
        pos = next;
    }
    assert(buf@.subrange(n as int, n as int) =~= Seq::<u8>::empty());
    Err(Error::InvalidResponse)
}

} // verus!
