//! The line protocol of server-sent events.
//!
//! Bytes arrive in chunks of any size. They are buffered until a newline
//! ends a line; each complete line is then read as UTF-8, stripped of its
//! trailing carriage returns and newlines, and kept when it is a `data:`
//! line whose payload (after leading whitespace) is neither empty nor the
//! `[DONE]` marker. A line that is not valid UTF-8 ends the stream with an
//! error.

use vstd::prelude::*;
use vstd::string::*;
use vstd::utf8::{decode_utf8, encode_utf8, valid_utf8};
use crate::fields::strings_view;
use crate::text::{chars_of, push_char, utf8_str};

verus! {

/// The position of the first newline byte.
pub open spec fn first_newline(b: Seq<u8>) -> Option<int>
    decreases b.len(),
{
    if b.len() == 0 {
        None
    } else if b[0] == 10 {
        Some(0)
    } else {
        match first_newline(b.drop_first()) {
            Some(i) => Some(i + 1),
            None => None,
        }
    }
}

/// The characters that `char::is_whitespace` accepts: those with the
/// Unicode `White_Space` property.
pub open spec fn is_white_space(c: char) -> bool {
    let u = c as u32;
    (9 <= u <= 13) || u == 32 || u == 0x85 || u == 0xA0 || u == 0x1680 || (0x2000 <= u <= 0x200A)
        || u == 0x2028 || u == 0x2029 || u == 0x202F || u == 0x205F || u == 0x3000
}

/// The text without its trailing newlines and carriage returns.
pub open spec fn trim_line_end(s: Seq<char>) -> Seq<char>
    decreases s.len(),
{
    if s.len() > 0 && (s.last() == '\n' || s.last() == '\r') {
        trim_line_end(s.drop_last())
    } else {
        s
    }
}

/// The text without its leading whitespace.
pub open spec fn trim_white_start(s: Seq<char>) -> Seq<char>
    decreases s.len(),
{
    if s.len() > 0 && is_white_space(s[0]) {
        trim_white_start(s.drop_first())
    } else {
        s
    }
}

/// What one complete line gives.
pub enum LineOutcome {
    /// The line is not valid UTF-8.
    Invalid,
    /// The line carries no payload.
    Skip,
    /// The payload of a data line.
    Data(Seq<char>),
}

/// The payload of a line of text, if it is a data line with one.
pub open spec fn data_payload(text: Seq<char>) -> Option<Seq<char>> {
    let t = trim_line_end(text);
    if t.len() >= 5 && t.subrange(0, 5) == "data:"@ {
        let d = trim_white_start(t.subrange(5, t.len() as int));
        if d.len() == 0 || d == "[DONE]"@ {
            None
        } else {
            Some(d)
        }
    } else {
        None
    }
}

pub open spec fn line_outcome(line: Seq<u8>) -> LineOutcome {
    if !valid_utf8(line) {
        LineOutcome::Invalid
    } else {
        match data_payload(decode_utf8(line)) {
            Some(d) => LineOutcome::Data(d),
            None => LineOutcome::Skip,
        }
    }
}

/// What a run of bytes gives: the payloads of its complete lines in order,
/// the bytes after the last complete line, and whether a line was invalid
/// (the payloads are then those before it, and the rest what follows it).
pub struct Scan {
    pub payloads: Seq<Seq<char>>,
    pub rest: Seq<u8>,
    pub failed: bool,
}

pub open spec fn scan(b: Seq<u8>) -> Scan
    decreases b.len(),
{
    match first_newline(b) {
        None => Scan { payloads: Seq::empty(), rest: b, failed: false },
        Some(p) => {
            let line = b.subrange(0, p + 1);
            let tail = b.subrange(p + 1, b.len() as int);
            if 0 <= p < b.len() {
                match line_outcome(line) {
                    LineOutcome::Invalid => Scan { payloads: Seq::empty(), rest: tail, failed: true },
                    LineOutcome::Skip => scan(tail),
                    LineOutcome::Data(d) => {
                        let s = scan(tail);
                        Scan { payloads: seq![d] + s.payloads, rest: s.rest, failed: s.failed }
                    },
                }
            } else {
                Scan { payloads: Seq::empty(), rest: b, failed: false }
            }
        },
    }
}

proof fn lemma_first_newline_found(b: Seq<u8>, p: int)
    requires
        0 <= p < b.len(),
        b[p] == 10,
        forall|j: int| 0 <= j < p ==> b[j] != 10,
    ensures
        first_newline(b) == Some(p),
    decreases p,
{
    if p > 0 {
        lemma_first_newline_found(b.drop_first(), p - 1);
    }
}

proof fn lemma_first_newline_none(b: Seq<u8>)
    requires
        forall|j: int| 0 <= j < b.len() ==> b[j] != 10,
    ensures
        first_newline(b) is None,
    decreases b.len(),
{
    if b.len() > 0 {
        lemma_first_newline_none(b.drop_first());
    }
}

proof fn lemma_first_newline_range(b: Seq<u8>)
    ensures
        match first_newline(b) {
            Some(p) => 0 <= p < b.len() && b[p] == 10 && forall|j: int| 0 <= j < p ==> b[j] != 10,
            None => forall|j: int| 0 <= j < b.len() ==> b[j] != 10,
        },
    decreases b.len(),
{
    if b.len() > 0 && b[0] != 10 {
        let t = b.drop_first();
        lemma_first_newline_range(t);
        match first_newline(t) {
            Some(p) => {
                assert forall|j: int| 0 <= j < p + 1 implies b[j] != 10 by {
                    if j > 0 {
                        assert(b[j] == t[j - 1]);
                    }
                }
            },
            None => {
                assert forall|j: int| 0 <= j < b.len() implies b[j] != 10 by {
                    if j > 0 {
                        assert(b[j] == t[j - 1]);
                    }
                }
            },
        }
    }
}

/// Buffers bytes between chunks and hands out the payloads of complete lines.
pub struct SseDecoder {
    buffer: Vec<u8>,
}

impl View for SseDecoder {
    type V = Seq<u8>;

    /// The bytes received after the last complete line.
    closed spec fn view(&self) -> Seq<u8> {
        self.buffer@
    }
}

/// What one chunk gives: the payloads of the lines it completed, and the
/// decoding error that ends the stream, if a line was not valid UTF-8.
pub struct SseBatch {
    pub payloads: Vec<String>,
    pub error: Option<std::str::Utf8Error>,
}

fn text_of(v: &Vec<char>, from: usize, to: usize) -> (s: String)
    requires
        from <= to <= v@.len(),
    ensures
        s@ == v@.subrange(from as int, to as int),
{
    let mut s = String::new();
    let mut i = from;
    while i < to
        invariant
            from <= i <= to <= v@.len(),
            s@ == v@.subrange(from as int, i as int),
        decreases to - i,
    {
        push_char(&mut s, v[i]);
        proof {
            assert(v@.subrange(from as int, i + 1) =~= v@.subrange(from as int, i as int).push(v@[i as int]));
        }
        i = i + 1;
    }
    s
}

/// Whether `c` has the Unicode `White_Space` property.
pub fn char_is_white_space(c: char) -> (b: bool)
    ensures
        b == is_white_space(c),
{
    let u = c as u32;
    (9 <= u && u <= 13) || u == 32 || u == 0x85 || u == 0xA0 || u == 0x1680 || (0x2000 <= u && u <= 0x200A)
        || u == 0x2028 || u == 0x2029 || u == 0x202F || u == 0x205F || u == 0x3000
}

proof fn lemma_trim_line_end_prefix(s: Seq<char>, n: int)
    requires
        0 <= n <= s.len(),
        forall|j: int| n <= j < s.len() ==> s[j] == '\n' || s[j] == '\r',
    ensures
        trim_line_end(s) == trim_line_end(s.subrange(0, n)),
    decreases s.len() - n,
{
    if n < s.len() {
        assert(s.drop_last() =~= s.subrange(0, s.len() - 1));
        lemma_trim_line_end_prefix(s.drop_last(), n);
        assert(s.drop_last().subrange(0, n) =~= s.subrange(0, n));
    } else {
        assert(s.subrange(0, n) =~= s);
    }
}

proof fn lemma_trim_white_start_suffix(s: Seq<char>, n: int)
    requires
        0 <= n <= s.len(),
        forall|j: int| 0 <= j < n ==> is_white_space(s[j]),
    ensures
        trim_white_start(s) == trim_white_start(s.subrange(n, s.len() as int)),
    decreases n,
{
    if n > 0 {
        lemma_trim_white_start_suffix(s.drop_first(), n - 1);
        assert(s.drop_first().subrange(n - 1, s.len() - 1) =~= s.subrange(n, s.len() as int));
    } else {
        assert(s.subrange(0, s.len() as int) =~= s);
    }
}

/// The payload of a line of text.
fn line_payload(line: &str) -> (r: Option<String>)
    ensures
        match r {
            Some(d) => data_payload(line@) == Some(d@),
            None => data_payload(line@) is None,
        },
{
    let cs = chars_of(line);
    let mut end: usize = cs.len();
    while end > 0 && (cs[end - 1] == '\n' || cs[end - 1] == '\r')
        invariant
            end <= cs@.len(),
            forall|j: int| end <= j < cs@.len() ==> cs@[j] == '\n' || cs@[j] == '\r',
        decreases end,
    {
        end = end - 1;
    }
    let ghost t = cs@.subrange(0, end as int);
    proof {
        lemma_trim_line_end_prefix(cs@, end as int);
        assert(t.len() > 0 ==> t.last() == cs@[end - 1]);
        assert(trim_line_end(t) == t);
    }
    if end < 5 || cs[0] != 'd' || cs[1] != 'a' || cs[2] != 't' || cs[3] != 'a' || cs[4] != ':' {
        proof {
            reveal_strlit("data:");
            if t.len() >= 5 && t.subrange(0, 5) == "data:"@ {
                assert(t.subrange(0, 5)[0] == 'd');
                assert(t.subrange(0, 5)[1] == 'a');
                assert(t.subrange(0, 5)[2] == 't');
                assert(t.subrange(0, 5)[3] == 'a');
                assert(t.subrange(0, 5)[4] == ':');
            }
        }
        return None;
    }
    proof {
        reveal_strlit("data:");
        assert(t.subrange(0, 5) =~= "data:"@);
    }
    let mut start: usize = 5;
    while start < end && char_is_white_space(cs[start])
        invariant
            5 <= start <= end <= cs@.len(),
            forall|j: int| 5 <= j < start ==> is_white_space(cs@[j]),
        decreases end - start,
    {
        start = start + 1;
    }
    let ghost rest = t.subrange(5, t.len() as int);
    let ghost d = cs@.subrange(start as int, end as int);
    proof {
        lemma_trim_white_start_suffix(rest, start - 5);
        assert(rest.subrange(start - 5, rest.len() as int) =~= d);
        assert(d.len() > 0 ==> d[0] == cs@[start as int]);
        assert(trim_white_start(d) == d);
    }
    if start == end {
        return None;
    }
    let payload = text_of(&cs, start, end);
    if crate::json::str_eq(payload.as_str(), "[DONE]") {
        None
    } else {
        Some(payload)
    }
}

impl SseDecoder {
    /// No bytes buffered.
    pub open spec fn well_formed(&self) -> bool {
        first_newline(self@) is None
    }

    /// A decoder with an empty buffer.
    pub fn new() -> (d: Self)
        ensures
            d@ == Seq::<u8>::empty(),
            d.well_formed(),
    {
        SseDecoder { buffer: Vec::new() }
    }

    /// Takes the next chunk of bytes and returns the payloads of the lines
    /// it completes; an invalid line ends the batch with an error.
    pub fn feed(&mut self, chunk: &[u8]) -> (r: SseBatch)
        requires
            old(self).well_formed(),
        ensures
            strings_view(r.payloads@) == scan(old(self)@ + chunk@).payloads,
            (r.error is Some) == scan(old(self)@ + chunk@).failed,
            final(self)@ == scan(old(self)@ + chunk@).rest,
            !scan(old(self)@ + chunk@).failed ==> final(self).well_formed(),
    {
        let ghost all = self.buffer@ + chunk@;
        let mut i: usize = 0;
        while i < chunk.len()
            invariant
                all == old(self)@ + chunk@,
                i <= chunk@.len(),
                self.buffer@ == old(self)@ + chunk@.subrange(0, i as int),
            decreases chunk@.len() - i,
        {
            self.buffer.push(chunk[i]);
            proof {
                assert(chunk@.subrange(0, i + 1) =~= chunk@.subrange(0, i as int).push(chunk@[i as int]));
            }
            i = i + 1;
        }
        proof {
            assert(chunk@.subrange(0, chunk@.len() as int) =~= chunk@);
        }
        let mut payloads: Vec<String> = Vec::new();
        let mut start: usize = 0;
        proof {
            assert(all.subrange(0, all.len() as int) =~= all);
            assert(strings_view(payloads@) =~= Seq::<Seq<char>>::empty());
        }
        loop
            invariant
                all == old(self)@ + chunk@,
                self.buffer@ == all,
                start <= all.len(),
                strings_view(payloads@) + scan(all.subrange(start as int, all.len() as int)).payloads
                    == scan(all).payloads,
                scan(all.subrange(start as int, all.len() as int)).rest == scan(all).rest,
                scan(all.subrange(start as int, all.len() as int)).failed == scan(all).failed,
            decreases all.len() - start,
        {
            let ghost cur = all.subrange(start as int, all.len() as int);
            let mut p = start;
            while p < self.buffer.len() && self.buffer[p] != 10
                invariant
                    self.buffer@ == all,
                    start <= p <= all.len(),
                    forall|j: int| start <= j < p ==> all[j] != 10,
                decreases all.len() - p,
            {
                p = p + 1;
            }
            if p == self.buffer.len() {
                proof {
                    lemma_first_newline_none(cur);
                    assert(strings_view(payloads@) + Seq::<Seq<char>>::empty() =~= strings_view(payloads@));
                }
                let rest = self.buffer.split_off(start);
                self.buffer = rest;
                proof {
                    lemma_first_newline_none(self.buffer@);
                }
                return SseBatch { payloads, error: None };
            }
            proof {
                lemma_first_newline_found(cur, p - start);
                assert(cur.subrange(0, p - start + 1) =~= all.subrange(start as int, p + 1));
                assert(cur.subrange(p - start + 1, cur.len() as int) =~= all.subrange(p + 1, all.len() as int));
            }
            let line = vstd::slice::slice_subrange(self.buffer.as_slice(), start, p + 1);
            match utf8_str(line) {
                Err(e) => {
                    let rest = self.buffer.split_off(p + 1);
                    self.buffer = rest;
                    proof {
                        assert(strings_view(payloads@) + Seq::<Seq<char>>::empty() =~= strings_view(payloads@));
                    }
                    return SseBatch { payloads, error: Some(e) };
                },
                Ok(text) => {
                    proof {
                        vstd::utf8::decode_utf8_encode_utf8(line@);
                        assert(text@ == decode_utf8(line@)) by {
                            vstd::utf8::encode_utf8_decode_utf8(text@);
                        }
                    }
                    match line_payload(text) {
                        Some(d) => {
                            let ghost before = strings_view(payloads@);
                            payloads.push(d);
                            proof {
                                assert(strings_view(payloads@) =~= before.push(d@));
                                let next = all.subrange(p + 1, all.len() as int);
                                assert(before + scan(cur).payloads =~= strings_view(payloads@) + scan(next).payloads);
                            }
                        },
                        None => {},
                    }
                },
            }
            start = p + 1;
        }
    }
}

/// Scanning the front of a stream that is valid UTF-8 never fails: every
/// complete line ends with a newline, which ends a character, so each line
/// is valid UTF-8 on its own.
proof fn lemma_scan_valid_front(x: Seq<u8>, y: Seq<u8>)
    requires
        valid_utf8(x + y),
    ensures
        !scan(x).failed,
    decreases x.len(),
{
    lemma_first_newline_range(x);
    match first_newline(x) {
        None => {},
        Some(p) => {
            let w = x + y;
            assert(w[p] == x[p]);
            vstd::utf8::is_char_boundary_iff_is_leading_byte(w, p);
            vstd::utf8::valid_utf8_split(w, p);
            let front = w.subrange(0, p);
            let s2 = w.subrange(p, w.len() as int);
            assert(s2[0] == 10u8);
            let one = s2.subrange(0, 1);
            assert(one[0] == s2[0]);
            reveal_with_fuel(valid_utf8, 2);
            assert(vstd::utf8::valid_first_scalar(s2));
            assert(vstd::utf8::valid_first_scalar(one));
            assert(vstd::utf8::pop_first_scalar(one) =~= Seq::<u8>::empty());
            assert(valid_utf8(one));
            vstd::utf8::valid_utf8_concat(front, one);
            let line = x.subrange(0, p + 1);
            assert(line =~= front + one);
            let tail = x.subrange(p + 1, x.len() as int);
            assert(vstd::utf8::pop_first_scalar(s2) =~= tail + y);
            lemma_scan_valid_front(tail, y);
        },
    }
}

/// For a stream whose bytes are valid UTF-8, however it is cut in two:
/// feeding the first run never fails, and feeding the two runs one after
/// the other gives the payloads that feeding them together gives, and
/// leaves the same bytes buffered.
pub proof fn lemma_scan_chunking_valid(a: Seq<u8>, b: Seq<u8>)
    requires
        valid_utf8(a + b),
    ensures
        scan(a).payloads + scan(scan(a).rest + b).payloads == scan(a + b).payloads,
        scan(scan(a).rest + b).rest == scan(a + b).rest,
        !scan(a).failed,
        !scan(a + b).failed,
        !scan(scan(a).rest + b).failed,
{
    lemma_scan_valid_front(a, b);
    lemma_scan_chunking(a, b);
    assert(a + b =~= (a + b) + Seq::<u8>::empty());
    lemma_scan_valid_front(a + b, Seq::empty());
}

/// Feeding two runs of bytes one after the other gives the payloads that
/// feeding them together gives, and leaves the same bytes buffered: how the
/// stream is cut into chunks does not matter.
pub proof fn lemma_scan_chunking(a: Seq<u8>, b: Seq<u8>)
    requires
        !scan(a).failed,
    ensures
        scan(a).payloads + scan(scan(a).rest + b).payloads == scan(a + b).payloads,
        scan(scan(a).rest + b).rest == scan(a + b).rest,
        scan(scan(a).rest + b).failed == scan(a + b).failed,
    decreases a.len(),
{
    lemma_first_newline_range(a);
    lemma_first_newline_range(a + b);
    match first_newline(a) {
        None => {
            assert(scan(a).payloads =~= Seq::<Seq<char>>::empty());
            assert(Seq::<Seq<char>>::empty() + scan(a + b).payloads =~= scan(a + b).payloads);
        },
        Some(p) => {
            let ab = a + b;
            lemma_first_newline_found(ab, p);
            let tail = a.subrange(p + 1, a.len() as int);
            assert(ab.subrange(0, p + 1) =~= a.subrange(0, p + 1));
            assert(ab.subrange(p + 1, ab.len() as int) =~= tail + b);
            match line_outcome(a.subrange(0, p + 1)) {
                LineOutcome::Invalid => {},
                LineOutcome::Skip => {
                    lemma_scan_chunking(tail, b);
                },
                LineOutcome::Data(d) => {
                    lemma_scan_chunking(tail, b);
                    assert(seq![d] + scan(tail).payloads + scan(scan(tail).rest + b).payloads
                        =~= seq![d] + (scan(tail).payloads + scan(scan(tail).rest + b).payloads));
                },
            }
        },
    }
}

} // verus!
