//! Byte-level text: substring search, the line split of `str::lines`, and the
//! Unicode whitespace trim of `str::trim`, on UTF-8 bytes.

use vstd::prelude::*;
use vstd::string::StringSliceAdditionalSpecFns;
use vstd::utf8::*;

verus! {

/// `pat` occurs in `s` at index `i`.
pub open spec fn occurs_at(s: Seq<u8>, pat: Seq<u8>, i: int) -> bool {
    0 <= i && i + pat.len() <= s.len() && s.subrange(i, i + pat.len()) == pat
}

/// `pat` occurs somewhere in `s`.
pub open spec fn contains(s: Seq<u8>, pat: Seq<u8>) -> bool {
    exists|i: int| occurs_at(s, pat, i)
}

/// `s` begins with `pat`.
pub open spec fn starts_with(s: Seq<u8>, pat: Seq<u8>) -> bool {
    occurs_at(s, pat, 0)
}

/// Whether `pat` occurs in `s` at `i`.
fn occurs_at_exec(s: &[u8], pat: &[u8], i: usize) -> (r: bool)
    requires
        i + pat@.len() <= s@.len(),
    ensures
        r == occurs_at(s@, pat@, i as int),
{
    let n = pat.len();
    let sl = s.len();
    let mut j: usize = 0;
    while j < n
        invariant
            n == pat@.len(),
            sl == s@.len(),
            i + n <= s@.len(),
            j <= n,
            forall|k: int| 0 <= k < j ==> s@[i + k] == pat@[k],
        decreases n - j,
    {
        if s[i + j] != pat[j] {
            assert(s@.subrange(i as int, i + n)[j as int] != pat@[j as int]);
            return false;
        }
        j = j + 1;
    }
    assert(s@.subrange(i as int, i + n) =~= pat@);
    true
}

/// Whether `pat` occurs in `s`.
pub fn bytes_contain(s: &[u8], pat: &[u8]) -> (r: bool)
    ensures
        r == contains(s@, pat@),
{
    if pat.len() > s.len() {
        assert forall|i: int| !occurs_at(s@, pat@, i) by {}
        return false;
    }
    let last = s.len() - pat.len();
    let mut i: usize = 0;
    loop
        invariant
            i <= last,
            last + pat@.len() == s@.len(),
            forall|k: int| 0 <= k < i ==> !occurs_at(s@, pat@, k),
        decreases last - i,
    {
        if occurs_at_exec(s, pat, i) {
            return true;
        }
        if i == last {
            assert forall|k: int| !occurs_at(s@, pat@, k) by {
                if 0 <= k <= i {
                }
            }
            return false;
        }
        i = i + 1;
    }
}

/// Whether `s` begins with `pat`.
pub fn bytes_start_with(s: &[u8], pat: &[u8]) -> (r: bool)
    ensures
        r == starts_with(s@, pat@),
{
    if pat.len() > s.len() {
        false
    } else {
        occurs_at_exec(s, pat, 0)
    }
}

/// Line feed.
pub const LF: u8 = 10;

/// Carriage return.
pub const CR: u8 = 13;

/// Index of the first line feed in `s`, or `s.len()` when there is none.
pub open spec fn newline_index(s: Seq<u8>) -> nat
    decreases s.len(),
{
    if s.len() == 0 {
        0
    } else if s[0] == LF {
        0
    } else {
        1 + newline_index(s.subrange(1, s.len() as int))
    }
}

/// `line` without one trailing carriage return.
pub open spec fn strip_cr(line: Seq<u8>) -> Seq<u8> {
    if line.len() > 0 && line.last() == CR {
        line.drop_last()
    } else {
        line
    }
}

/// The lines of `s`, as `str::lines` yields them: split after each line feed,
/// with the line feed and one carriage return before it removed; a last line
/// without a line feed is kept as it is, and no empty line follows a final
/// line feed.
pub open spec fn lines(s: Seq<u8>) -> Seq<Seq<u8>>
    decreases s.len(),
{
    if s.len() == 0 {
        seq![]
    } else {
        let e = newline_index(s);
        if e < s.len() {
            seq![strip_cr(s.subrange(0, e as int))] + lines(s.subrange(e + 1int, s.len() as int))
        } else {
            seq![s]
        }
    }
}

proof fn lemma_newline_index(s: Seq<u8>, j: int)
    requires
        0 <= j <= s.len(),
        forall|k: int| 0 <= k < j ==> s[k] != LF,
        j == s.len() || s[j] == LF,
    ensures
        newline_index(s) == j,
    decreases j,
{
    if j > 0 {
        let t = s.subrange(1, s.len() as int);
        assert forall|k: int| 0 <= k < j - 1 implies t[k] != LF by {
            assert(t[k] == s[k + 1]);
        }
        lemma_newline_index(t, j - 1);
    }
}

/// The next line of `s` from `pos`: it spans `[pos, line_end)`, and the lines
/// after it start at `next`.
pub fn next_line(s: &[u8], pos: usize) -> (r: (usize, usize))
    requires
        pos < s@.len(),
    ensures
        pos <= r.0 <= s@.len(),
        pos < r.1 <= s@.len(),
        r.0 < r.1 || r.1 == s@.len(),
        lines(s@.subrange(pos as int, s@.len() as int)) == seq![s@.subrange(pos as int, r.0 as int)]
            + lines(s@.subrange(r.1 as int, s@.len() as int)),
        r.0 == s@.len() || s@[r.0 as int] == CR || s@[r.0 as int] == LF,
        r.1 == s@.len() || (s@[r.1 - 1] == LF && r.1 - 1 >= r.0),
{
    let n = s.len();
    let mut j: usize = pos;
    while j < n && s[j] != LF
        invariant
            pos <= j <= n,
            n == s@.len(),
            forall|k: int| pos <= k < j ==> s@[k] != LF,
        decreases n - j,
    {
        j = j + 1;
    }
    let ghost rest = s@.subrange(pos as int, n as int);
    proof {
        assert forall|k: int| 0 <= k < j - pos implies rest[k] != LF by {
            assert(rest[k] == s@[pos + k]);
        }
        if j < n {
            assert(rest[j - pos] == s@[j as int]);
        }
        lemma_newline_index(rest, j - pos);
    }
    if j == n {
        proof {
            let empty: Seq<u8> = seq![];
            assert(s@.subrange(n as int, n as int) =~= empty);
            assert(lines(empty) =~= Seq::<Seq<u8>>::empty());
            assert(seq![rest] + lines(empty) =~= seq![rest]);
        }
        (n, n)
    } else {
        let end = if j > pos && s[j - 1] == CR {
            j - 1
        } else {
            j
        };
        proof {
            let body = rest.subrange(0, (j - pos) as int);
            assert(body =~= s@.subrange(pos as int, j as int));
            if j > pos && s@[j - 1] == CR {
                assert(body.last() == CR);
                assert(strip_cr(body) =~= s@.subrange(pos as int, end as int));
            } else {
                assert(strip_cr(body) =~= s@.subrange(pos as int, end as int));
            }
            assert(rest.subrange(j - pos + 1, rest.len() as int) =~= s@.subrange(j + 1, n as int));
        }
        (end, j + 1)
    }
}

/// An ASCII whitespace byte: tab, line feed, vertical tab, form feed,
/// carriage return or space.
pub open spec fn is_ascii_ws(b: u8) -> bool {
    (9 <= b && b <= 13) || b == 32
}

/// The UTF-8 encoding of a two-byte whitespace character (U+0085, U+00A0).
pub open spec fn is_ws2(a: u8, b: u8) -> bool {
    a == 0xC2 && (b == 0x85 || b == 0xA0)
}

/// The UTF-8 encoding of a three-byte whitespace character (U+1680,
/// U+2000 to U+200A, U+2028, U+2029, U+202F, U+205F, U+3000).
pub open spec fn is_ws3(a: u8, b: u8, c: u8) -> bool {
    ||| (a == 0xE1 && b == 0x9A && c == 0x80)
    ||| (a == 0xE2 && b == 0x80 && ((0x80 <= c && c <= 0x8A) || c == 0xA8 || c == 0xA9 || c == 0xAF))
    ||| (a == 0xE2 && b == 0x81 && c == 0x9F)
    ||| (a == 0xE3 && b == 0x80 && c == 0x80)
}

/// Length of the whitespace character (in the sense of `char::is_whitespace`)
/// that `s` begins with, or 0 when it begins with none.
pub open spec fn ws_prefix_len(s: Seq<u8>) -> nat {
    if s.len() >= 1 && is_ascii_ws(s[0]) {
        1
    } else if s.len() >= 2 && is_ws2(s[0], s[1]) {
        2
    } else if s.len() >= 3 && is_ws3(s[0], s[1], s[2]) {
        3
    } else {
        0
    }
}

/// Length of the whitespace character that `s` ends with, or 0.
pub open spec fn ws_suffix_len(s: Seq<u8>) -> nat {
    let n = s.len() as int;
    if n >= 1 && is_ascii_ws(s[n - 1]) {
        1
    } else if n >= 2 && is_ws2(s[n - 2], s[n - 1]) {
        2
    } else if n >= 3 && is_ws3(s[n - 3], s[n - 2], s[n - 1]) {
        3
    } else {
        0
    }
}

/// `s` without its leading whitespace.
pub open spec fn trim_start(s: Seq<u8>) -> Seq<u8>
    decreases s.len(),
{
    let k = ws_prefix_len(s);
    if k > 0 {
        trim_start(s.subrange(k as int, s.len() as int))
    } else {
        s
    }
}

/// `s` without its trailing whitespace.
pub open spec fn trim_end(s: Seq<u8>) -> Seq<u8>
    decreases s.len(),
{
    let k = ws_suffix_len(s);
    if k > 0 {
        trim_end(s.subrange(0, s.len() - k))
    } else {
        s
    }
}

/// `s` without leading and trailing whitespace, as `str::trim` gives it.
pub open spec fn trim(s: Seq<u8>) -> Seq<u8> {
    trim_end(trim_start(s))
}

fn ws_prefix_len_exec(s: &[u8], a: usize, b: usize) -> (k: usize)
    requires
        a <= b <= s@.len(),
    ensures
        k == ws_prefix_len(s@.subrange(a as int, b as int)),
{
    let ghost t = s@.subrange(a as int, b as int);
    let n = b - a;
    if n >= 1 && ((9 <= s[a] && s[a] <= 13) || s[a] == 32) {
        assert(t[0] == s@[a as int]);
        1
    } else if n >= 2 && s[a] == 0xC2 && (s[a + 1] == 0x85 || s[a + 1] == 0xA0) {
        assert(t[0] == s@[a as int] && t[1] == s@[a + 1]);
        2
    } else if n >= 3 && ((s[a] == 0xE1 && s[a + 1] == 0x9A && s[a + 2] == 0x80) || (s[a] == 0xE2
        && s[a + 1] == 0x80 && ((0x80 <= s[a + 2] && s[a + 2] <= 0x8A) || s[a + 2] == 0xA8 || s[a
        + 2] == 0xA9 || s[a + 2] == 0xAF)) || (s[a] == 0xE2 && s[a + 1] == 0x81 && s[a + 2] == 0x9F)
        || (s[a] == 0xE3 && s[a + 1] == 0x80 && s[a + 2] == 0x80)) {
        assert(t[0] == s@[a as int] && t[1] == s@[a + 1] && t[2] == s@[a + 2]);
        3
    } else {
        proof {
            if n >= 1 {
                assert(t[0] == s@[a as int]);
            }
            if n >= 2 {
                assert(t[1] == s@[a + 1]);
            }
            if n >= 3 {
                assert(t[2] == s@[a + 2]);
            }
        }
        0
    }
}

fn ws_suffix_len_exec(s: &[u8], a: usize, b: usize) -> (k: usize)
    requires
        a <= b <= s@.len(),
    ensures
        k == ws_suffix_len(s@.subrange(a as int, b as int)),
{
    let ghost t = s@.subrange(a as int, b as int);
    let n = b - a;
    if n >= 1 && ((9 <= s[b - 1] && s[b - 1] <= 13) || s[b - 1] == 32) {
        assert(t[n - 1] == s@[b - 1]);
        1
    } else if n >= 2 && s[b - 2] == 0xC2 && (s[b - 1] == 0x85 || s[b - 1] == 0xA0) {
        assert(t[n - 2] == s@[b - 2] && t[n - 1] == s@[b - 1]);
        2
    } else if n >= 3 && ((s[b - 3] == 0xE1 && s[b - 2] == 0x9A && s[b - 1] == 0x80) || (s[b - 3]
        == 0xE2 && s[b - 2] == 0x80 && ((0x80 <= s[b - 1] && s[b - 1] <= 0x8A) || s[b - 1] == 0xA8
        || s[b - 1] == 0xA9 || s[b - 1] == 0xAF)) || (s[b - 3] == 0xE2 && s[b - 2] == 0x81 && s[b
        - 1] == 0x9F) || (s[b - 3] == 0xE3 && s[b - 2] == 0x80 && s[b - 1] == 0x80)) {
        assert(t[n - 3] == s@[b - 3] && t[n - 2] == s@[b - 2] && t[n - 1] == s@[b - 1]);
        3
    } else {
        proof {
            if n >= 1 {
                assert(t[n - 1] == s@[b - 1]);
            }
            if n >= 2 {
                assert(t[n - 2] == s@[b - 2]);
            }
            if n >= 3 {
                assert(t[n - 3] == s@[b - 3]);
            }
        }
        0
    }
}

/// Bounds of `trim(s[a..b])` within `s`.
pub fn trim_bounds(s: &[u8], a: usize, b: usize) -> (r: (usize, usize))
    requires
        a <= b <= s@.len(),
    ensures
        a <= r.0 <= r.1 <= b,
        s@.subrange(r.0 as int, r.1 as int) == trim(s@.subrange(a as int, b as int)),
        valid_utf8(s@) && char_start(s@, a as int) && char_start(s@, b as int) ==> char_start(
            s@,
            r.0 as int,
        ) && char_start(s@, r.1 as int),
{
    let mut x = a;
    let mut k = ws_prefix_len_exec(s, x, b);
    while k > 0
        invariant
            a <= x <= b <= s@.len(),
            k == ws_prefix_len(s@.subrange(x as int, b as int)),
            trim_start(s@.subrange(a as int, b as int)) == trim_start(s@.subrange(x as int, b as int)),
            valid_utf8(s@) && char_start(s@, a as int) ==> char_start(s@, x as int),
        decreases b - x,
    {
        proof {
            let t = s@.subrange(x as int, b as int);
            assert(t.subrange(k as int, t.len() as int) =~= s@.subrange(x + k, b as int));
            assert(t[0] == s@[x as int]);
            if valid_utf8(s@) && char_start(s@, a as int) {
                lemma_valid_utf8_next(s@, x as int);
            }
        }
        x = x + k;
        k = ws_prefix_len_exec(s, x, b);
    }
    let mut y = b;
    let mut k = ws_suffix_len_exec(s, x, y);
    while k > 0
        invariant
            a <= x <= y <= b <= s@.len(),
            k == ws_suffix_len(s@.subrange(x as int, y as int)),
            trim_end(s@.subrange(x as int, b as int)) == trim_end(s@.subrange(x as int, y as int)),
            valid_utf8(s@) && char_start(s@, a as int) ==> char_start(s@, x as int),
            char_start(s@, b as int) ==> char_start(s@, y as int),
        decreases y - x,
    {
        proof {
            let t = s@.subrange(x as int, y as int);
            assert(t.subrange(0, t.len() - k) =~= s@.subrange(x as int, y - k));
            assert(t[t.len() - k] == s@[y - k]);
        }
        y = y - k;
        k = ws_suffix_len_exec(s, x, y);
    }
    (x, y)
}

/// Index `i` of `s` is where a character's encoding begins, or the end: the
/// byte there is not a UTF-8 continuation byte.
pub open spec fn char_start(s: Seq<u8>, i: int) -> bool {
    i == s.len() || (0 <= i < s.len() && !is_continuation_byte(s[i]))
}

/// Valid UTF-8 begins where a character begins.
pub proof fn lemma_valid_utf8_first(s: Seq<u8>)
    requires
        valid_utf8(s),
    ensures
        char_start(s, 0),
{
}

/// Splitting valid UTF-8 before a byte that is not a continuation byte (or at
/// the end) leaves two valid UTF-8 sequences.
pub proof fn lemma_valid_utf8_split(s: Seq<u8>, i: int)
    requires
        valid_utf8(s),
        0 <= i <= s.len(),
        i == s.len() || !is_continuation_byte(s[i]),
    ensures
        valid_utf8(s.subrange(0, i)),
        valid_utf8(s.subrange(i, s.len() as int)),
    decreases s.len(),
{
    if i == 0 {
        assert(s.subrange(0, 0) =~= Seq::<u8>::empty());
        assert(s.subrange(0, s.len() as int) =~= s);
    } else {
        let l = length_of_first_scalar(s);
        let rest = pop_first_scalar(s);
        assert(1 <= l <= s.len());
        if i < l {
            assert(is_continuation_byte(s[i]));
        }
        assert(rest.len() < s.len());
        lemma_valid_utf8_split(rest, i - l);
        assert(rest.subrange(i - l, rest.len() as int) =~= s.subrange(i, s.len() as int));
        let t = s.subrange(0, i);
        assert(t[0] == s[0]);
        if l >= 2 {
            assert(t[1] == s[1]);
        }
        if l >= 3 {
            assert(t[2] == s[2]);
        }
        if l >= 4 {
            assert(t[3] == s[3]);
        }
        assert(valid_first_scalar(t));
        assert(length_of_first_scalar(t) == l);
        assert(pop_first_scalar(t) =~= rest.subrange(0, i - l));
    }
}

/// Number of bytes of the UTF-8 encoding that begins with leading byte `b`.
pub open spec fn lead_width(b: u8) -> int {
    if b <= 0x7f {
        1
    } else if 0xc0 <= b <= 0xdf {
        2
    } else if 0xe0 <= b <= 0xef {
        3
    } else {
        4
    }
}

/// In valid UTF-8, the character that begins at a non-continuation byte is
/// followed by the end or by another non-continuation byte.
pub proof fn lemma_valid_utf8_next(s: Seq<u8>, p: int)
    requires
        valid_utf8(s),
        0 <= p < s.len(),
        !is_continuation_byte(s[p]),
    ensures
        p + lead_width(s[p]) <= s.len(),
        p + lead_width(s[p]) == s.len() || !is_continuation_byte(s[p + lead_width(s[p])]),
{
    lemma_valid_utf8_split(s, p);
    let u = s.subrange(p, s.len() as int);
    assert(u[0] == s[p]);
    let w = length_of_first_scalar(u);
    assert(w == lead_width(s[p]));
    let rest = pop_first_scalar(u);
    assert(valid_utf8(rest));
    if rest.len() > 0 {
        assert(valid_first_scalar(rest));
        assert(rest[0] == s[p + w]);
    }
}

/// `core::str::from_utf8`: the bytes as a string slice when they are valid
/// UTF-8, else nothing.
#[verifier::external_body]
pub(crate) fn utf8_str(b: &[u8]) -> (r: Option<&str>)
    ensures
        r is Some <==> valid_utf8(b@),
        r matches Some(x) ==> x.spec_bytes() == b@,
{
    core::str::from_utf8(b).ok()
}

} // verus!
