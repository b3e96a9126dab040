//! Line framing of a `text/event-stream` body.
//!
//! The body arrives in chunks of bytes. Bytes are collected into lines ending
//! in `\n`; each complete line is decoded as UTF-8 and interpreted: `event:`
//! and `data:` fields accumulate, a blank line dispatches the collected data
//! lines, joined with `\n`, as one event payload. Decoding the payloads is left
//! to the caller.

use vstd::prelude::*;
use vstd::utf8::{decode_utf8, valid_utf8};
use crate::error::{invalid_data_error, KrillError};
use crate::text::{
    has_prefix, join_strings, join_with, opt_view, starts_with, strip_leading_spaces,
    trim_leading_spaces, views_of,
};

verus! {

/// `raw` with one trailing `\n` removed, then one trailing `\r` removed.
pub open spec fn strip_line_ending(raw: Seq<u8>) -> Seq<u8> {
    let a = if raw.len() > 0 && raw.last() == 10u8 { raw.drop_last() } else { raw };
    if a.len() > 0 && a.last() == 13u8 { a.drop_last() } else { a }
}

/// Removes a trailing `\n`, then a trailing `\r`, from a raw line.
pub fn trim_newline_suffix(raw_line: &mut Vec<u8>)
    ensures
        final(raw_line)@ == strip_line_ending(old(raw_line)@),
{
    let n = raw_line.len();
    if n > 0 && raw_line[n - 1] == 10u8 {
        raw_line.pop();
    }
    let m = raw_line.len();
    if m > 0 && raw_line[m - 1] == 13u8 {
        raw_line.pop();
    }
}

/// The field name `event:`.
pub open spec fn event_field() -> Seq<char> {
    seq!['e', 'v', 'e', 'n', 't', ':']
}

/// The field name `data:`.
pub open spec fn data_field() -> Seq<char> {
    seq!['d', 'a', 't', 'a', ':']
}

/// The separator between the data lines of one event.
pub open spec fn newline() -> Seq<char> {
    seq!['\n']
}

/// What one decoded line does to the pending event name and data lines, and
/// the payload it dispatches, if any:
/// - a blank line ends the event: the data lines, joined with `\n`, are
///   dispatched unless that text is empty, and both fields are reset (a blank
///   line with nothing pending does nothing);
/// - a line starting with `:` is a comment;
/// - `event:` sets the event name, `data:` appends a data line, both with
///   their leading spaces removed;
/// - any other line is ignored.
pub open spec fn line_step(
    event_name: Option<Seq<char>>,
    data: Seq<Seq<char>>,
    line: Seq<char>,
) -> (Option<Seq<char>>, Seq<Seq<char>>, Option<Seq<char>>) {
    if line.len() == 0 {
        if data.len() == 0 && event_name is None {
            (event_name, data, None)
        } else {
            let raw = join_with(data, newline());
            (None, Seq::empty(), if raw.len() == 0 { None } else { Some(raw) })
        }
    } else if line[0] == ':' {
        (event_name, data, None)
    } else if has_prefix(line, event_field()) {
        (Some(trim_leading_spaces(line.skip(6))), data, None)
    } else if has_prefix(line, data_field()) {
        (event_name, data.push(trim_leading_spaces(line.skip(5))), None)
    } else {
        (event_name, data, None)
    }
}

/// Interprets one decoded line of the stream; returns the raw payload of the
/// event that the line completes, if any.
pub fn parse_sse_line(
    line: &str,
    event_name: &mut Option<String>,
    data_lines: &mut Vec<String>,
) -> (r: Option<String>)
    ensures
        (opt_view(*final(event_name)), views_of(final(data_lines)@), opt_view(r)) == line_step(
            opt_view(*old(event_name)),
            views_of(old(data_lines)@),
            line@,
        ),
{
    if line.is_empty() {
        if data_lines.len() == 0 && event_name.is_none() {
            return None;
        }
        let raw = join_strings(data_lines, "\n");
        proof {
            reveal_strlit("\n");
            assert("\n"@ =~= newline());
        }
        *data_lines = Vec::new();
        *event_name = None;
        assert(views_of(data_lines@) =~= Seq::<Seq<char>>::empty());
        if raw.as_str().is_empty() {
            return None;
        }
        return Some(raw);
    }
    if line.get_char(0) == ':' {
        return None;
    }
    proof {
        reveal_strlit("event:");
        reveal_strlit("data:");
        assert("event:"@ =~= event_field());
        assert("data:"@ =~= data_field());
    }
    let n = line.unicode_len();
    if starts_with(line, "event:") {
        let value = strip_leading_spaces(line.substring_char(6, n));
        assert(line@.subrange(6, n as int) =~= line@.skip(6));
        *event_name = Some(value);
        return None;
    }
    if starts_with(line, "data:") {
        let value = strip_leading_spaces(line.substring_char(5, n));
        assert(line@.subrange(5, n as int) =~= line@.skip(5));
        let ghost before = data_lines@;
        data_lines.push(value);
        assert(views_of(data_lines@) =~= views_of(before).push(value@));
        return None;
    }
    None
}

/// One unit of framing output.
pub enum SseFrame {
    /// The raw text of one event.
    Payload(Seq<char>),
    /// A line was not valid UTF-8; framing stops.
    InvalidUtf8,
    /// The stream ended with an event whose data lines never arrived.
    UnexpectedEnd,
}

/// The state of the framer: the bytes of the unfinished line, the pending
/// event name and data lines, and whether framing has stopped on an error.
pub struct SseDecoderView {
    pub pending: Seq<u8>,
    pub event_name: Option<Seq<char>>,
    pub data_lines: Seq<Seq<char>>,
    pub failed: bool,
}

/// The framer before any byte has arrived.
pub open spec fn initial_view() -> SseDecoderView {
    SseDecoderView {
        pending: Seq::empty(),
        event_name: None,
        data_lines: Seq::empty(),
        failed: false,
    }
}

/// The frame of an optional payload.
pub open spec fn payload_frames(p: Option<Seq<char>>) -> Seq<SseFrame> {
    match p {
        Some(raw) => seq![SseFrame::Payload(raw)],
        None => Seq::empty(),
    }
}

/// The unfinished line ends at a `\n`: it is trimmed, decoded and interpreted.
pub open spec fn end_line(st: SseDecoderView) -> (SseDecoderView, Seq<SseFrame>) {
    let raw = strip_line_ending(st.pending.push(10u8));
    if !valid_utf8(raw) {
        (
            SseDecoderView {
                pending: Seq::empty(),
                event_name: st.event_name,
                data_lines: st.data_lines,
                failed: true,
            },
            seq![SseFrame::InvalidUtf8],
        )
    } else {
        let (ev, data, out) = line_step(st.event_name, st.data_lines, decode_utf8(raw));
        (
            SseDecoderView { pending: Seq::empty(), event_name: ev, data_lines: data, failed: false },
            payload_frames(out),
        )
    }
}

/// The framer's state and output after it has read `bytes`, one at a time.
pub open spec fn scan(st: SseDecoderView, bytes: Seq<u8>) -> (SseDecoderView, Seq<SseFrame>)
    decreases bytes.len(),
{
    if st.failed || bytes.len() == 0 {
        (st, Seq::empty())
    } else {
        let (st1, out) = if bytes[0] == 10u8 {
            end_line(st)
        } else {
            (
                SseDecoderView {
                    pending: st.pending.push(bytes[0]),
                    event_name: st.event_name,
                    data_lines: st.data_lines,
                    failed: st.failed,
                },
                Seq::<SseFrame>::empty(),
            )
        };
        let (st2, rest) = scan(st1, bytes.drop_first());
        (st2, out + rest)
    }
}

/// The frames owed when the stream ends: the unfinished line, decoded without
/// trimming, is interpreted; then an event still pending is dispatched, or
/// reported as cut off when it has no data lines.
pub open spec fn finish_frames(st: SseDecoderView) -> Seq<SseFrame> {
    if st.failed {
        Seq::empty()
    } else if st.pending.len() > 0 && !valid_utf8(st.pending) {
        seq![SseFrame::InvalidUtf8]
    } else {
        let (ev, data, out) = if st.pending.len() > 0 {
            line_step(st.event_name, st.data_lines, decode_utf8(st.pending))
        } else {
            (st.event_name, st.data_lines, None)
        };
        let tail = if ev is Some || data.len() > 0 {
            if data.len() == 0 {
                seq![SseFrame::UnexpectedEnd]
            } else {
                seq![SseFrame::Payload(join_with(data, newline()))]
            }
        } else {
            Seq::empty()
        };
        payload_frames(out) + tail
    }
}

/// An output item stands for a frame: a payload by its text, invalid UTF-8 by
/// an I/O error, a cut-off event by `SseUnexpectedEnd`.
pub open spec fn item_is_frame(item: Result<String, KrillError>, f: SseFrame) -> bool {
    match f {
        SseFrame::Payload(raw) => item matches Ok(s) && s@ == raw,
        SseFrame::InvalidUtf8 => item matches Err(KrillError::Io(_)),
        SseFrame::UnexpectedEnd => item matches Err(KrillError::SseUnexpectedEnd),
    }
}

/// The output items stand, one for one, for the frames.
pub open spec fn items_are_frames(items: Seq<Result<String, KrillError>>, fs: Seq<SseFrame>) -> bool {
    &&& items.len() == fs.len()
    &&& forall|i: int| 0 <= i < items.len() ==> item_is_frame(#[trigger] items[i], fs[i])
}

/// Reading a stream in two pieces gives the state and the frames of reading
/// it in one: framing does not depend on where the chunks are cut.
pub proof fn framing_ignores_chunk_boundaries(st: SseDecoderView, a: Seq<u8>, b: Seq<u8>)
    ensures
        scan(st, a + b) == (scan(scan(st, a).0, b).0, scan(st, a).1 + scan(scan(st, a).0, b).1),
    decreases a.len(),
{
    if st.failed {
    } else if a.len() == 0 {
        assert(a + b =~= b);
        assert(scan(st, a).1 + scan(st, b).1 =~= scan(st, b).1);
    } else {
        let st1 = if a[0] == 10u8 {
            end_line(st).0
        } else {
            SseDecoderView {
                pending: st.pending.push(a[0]),
                event_name: st.event_name,
                data_lines: st.data_lines,
                failed: st.failed,
            }
        };
        assert((a + b)[0] == a[0]);
        assert((a + b).drop_first() =~= a.drop_first() + b);
        framing_ignores_chunk_boundaries(st1, a.drop_first(), b);
        let out = scan(st, a + b).1;
        assert(scan(st, a).1 + scan(scan(st, a).0, b).1 =~= out);
    }
}

/// The bytes of `chunks`, one after another.
pub open spec fn concat_chunks(chunks: Seq<Seq<u8>>) -> Seq<u8>
    decreases chunks.len(),
{
    if chunks.len() == 0 {
        Seq::empty()
    } else {
        concat_chunks(chunks.drop_last()) + chunks.last()
    }
}

/// The framer's state and output after it has read `chunks` one by one.
pub open spec fn scan_chunks(st: SseDecoderView, chunks: Seq<Seq<u8>>) -> (SseDecoderView, Seq<SseFrame>)
    decreases chunks.len(),
{
    if chunks.len() == 0 {
        (st, Seq::empty())
    } else {
        let (st1, f1) = scan_chunks(st, chunks.drop_last());
        let (st2, f2) = scan(st1, chunks.last());
        (st2, f1 + f2)
    }
}

/// Reading a stream in any number of chunks gives the state and the frames
/// of reading all its bytes at once.
pub proof fn framing_ignores_any_chunking(st: SseDecoderView, chunks: Seq<Seq<u8>>)
    ensures
        scan_chunks(st, chunks) == scan(st, concat_chunks(chunks)),
    decreases chunks.len(),
{
    if chunks.len() == 0 {
        assert(scan(st, Seq::<u8>::empty()) == (st, Seq::<SseFrame>::empty()));
    } else {
        framing_ignores_any_chunking(st, chunks.drop_last());
        framing_ignores_chunk_boundaries(st, concat_chunks(chunks.drop_last()), chunks.last());
    }
}

/// Bytes that hold no `\n` only extend the unfinished line.
pub proof fn bytes_without_newline_extend_the_line(st: SseDecoderView, bytes: Seq<u8>)
    requires
        !st.failed,
        !bytes.contains(10u8),
    ensures
        scan(st, bytes) == (
            SseDecoderView {
                pending: st.pending + bytes,
                event_name: st.event_name,
                data_lines: st.data_lines,
                failed: false,
            },
            Seq::<SseFrame>::empty(),
        ),
    decreases bytes.len(),
{
    if bytes.len() == 0 {
        assert(st.pending + bytes =~= st.pending);
    } else {
        assert(bytes[0] != 10u8) by {
            if bytes[0] == 10u8 {
                assert(bytes.contains(10u8));
            }
        }
        let st1 = SseDecoderView {
            pending: st.pending.push(bytes[0]),
            event_name: st.event_name,
            data_lines: st.data_lines,
            failed: false,
        };
        assert(!bytes.drop_first().contains(10u8)) by {
            if bytes.drop_first().contains(10u8) {
                let j = choose|j: int| 0 <= j < bytes.drop_first().len() && bytes.drop_first()[j] == 10u8;
                assert(bytes[j + 1] == 10u8);
            }
        }
        bytes_without_newline_extend_the_line(st1, bytes.drop_first());
        assert(st1.pending + bytes.drop_first() =~= st.pending + bytes);
        assert(Seq::<SseFrame>::empty() + Seq::<SseFrame>::empty() =~= Seq::<SseFrame>::empty());
    }
}

/// A line ended by `\n` is interpreted as a whole: reading it gives what
/// ending the unfinished line, extended by it, gives.
pub proof fn a_complete_line_is_interpreted(st: SseDecoderView, line: Seq<u8>)
    requires
        !st.failed,
        !line.contains(10u8),
    ensures
        scan(st, line.push(10u8)) == end_line(
            SseDecoderView {
                pending: st.pending + line,
                event_name: st.event_name,
                data_lines: st.data_lines,
                failed: false,
            },
        ),
{
    framing_ignores_chunk_boundaries(st, line, seq![10u8]);
    assert(line + seq![10u8] =~= line.push(10u8));
    bytes_without_newline_extend_the_line(st, line);
    let mid = scan(st, line).0;
    let (st2, out2) = end_line(mid);
    assert(seq![10u8].drop_first() =~= Seq::<u8>::empty());
    assert(scan(st2, Seq::<u8>::empty()) == (st2, Seq::<SseFrame>::empty()));
    assert(scan(mid, seq![10u8]) == (st2, out2 + Seq::<SseFrame>::empty()));
    assert(out2 + Seq::<SseFrame>::empty() =~= out2);
    assert(Seq::<SseFrame>::empty() + out2 =~= out2);
}

/// `String::from_utf8`: succeeds exactly on valid UTF-8, and then holds the
/// characters that the bytes encode.
#[verifier::external_body]
fn decode_line(bytes: Vec<u8>) -> (r: Result<String, std::string::FromUtf8Error>)
    ensures
        r is Ok <==> valid_utf8(bytes@),
        r matches Ok(s) ==> s@ == decode_utf8(bytes@),
{
    String::from_utf8(bytes)
}

/// Incremental framer of an event-stream body.
pub struct SseDecoder {
    line_buffer: Vec<u8>,
    event_name: Option<String>,
    data_lines: Vec<String>,
    failed: bool,
}

impl View for SseDecoder {
    type V = SseDecoderView;

    closed spec fn view(&self) -> SseDecoderView {
        SseDecoderView {
            pending: self.line_buffer@,
            event_name: opt_view(self.event_name),
            data_lines: views_of(self.data_lines@),
            failed: self.failed,
        }
    }
}

impl SseDecoder {
    /// A framer that has read nothing.
    pub fn new() -> (d: Self)
        ensures
            d@ == initial_view(),
    {
        let d = SseDecoder {
            line_buffer: Vec::new(),
            event_name: None,
            data_lines: Vec::new(),
            failed: false,
        };
        assert(views_of(d.data_lines@) =~= Seq::<Seq<char>>::empty());
        d
    }

    /// Whether framing has stopped on invalid UTF-8.
    pub fn has_failed(&self) -> (r: bool)
        ensures
            r == self@.failed,
    {
        self.failed
    }

    /// The unfinished line ends: trims, decodes and interprets it.
    fn finish_line(&mut self, out: &mut Vec<Result<String, KrillError>>)
        requires
            !old(self)@.failed,
        ensures
            final(self)@ == end_line(old(self)@).0,
            final(out)@.len() == old(out)@.len() + end_line(old(self)@).1.len(),
            final(out)@.take(old(out)@.len() as int) == old(out)@,
            items_are_frames(final(out)@.skip(old(out)@.len() as int), end_line(old(self)@).1),
    {
        let mut raw: Vec<u8> = Vec::new();
        std::mem::swap(&mut raw, &mut self.line_buffer);
        raw.push(10u8);
        trim_newline_suffix(&mut raw);
        let ghost before = out@;
        match decode_line(raw) {
            Err(e) => {
                out.push(Err(KrillError::Io(invalid_data_error(e))));
                self.failed = true;
                assert(out@.take(before.len() as int) =~= before);
                assert(out@.skip(before.len() as int) =~= seq![out@[before.len() as int]]);
            },
            Ok(line) => {
                let parsed = parse_sse_line(line.as_str(), &mut self.event_name, &mut self.data_lines);
                match parsed {
                    Some(p) => {
                        out.push(Ok(p));
                        assert(out@.take(before.len() as int) =~= before);
                        assert(out@.skip(before.len() as int) =~= seq![out@[before.len() as int]]);
                    },
                    None => {
                        assert(out@.take(before.len() as int) =~= before);
                        assert(out@.skip(before.len() as int) =~= Seq::<Result<String, KrillError>>::empty());
                    },
                }
            },
        }
    }
    /// Reads one chunk of the body; returns the items of the frames that the
    /// chunk completes. Nothing is read once framing has failed.
    pub fn feed(&mut self, chunk: &[u8]) -> (items: Vec<Result<String, KrillError>>)
        ensures
            final(self)@ == scan(old(self)@, chunk@).0,
            items_are_frames(items@, scan(old(self)@, chunk@).1),
    {
        let mut out: Vec<Result<String, KrillError>> = Vec::new();
        let ghost start = self@;
        let ghost mut frames: Seq<SseFrame> = Seq::empty();
        let mut i: usize = 0;
        assert(chunk@.skip(0) =~= chunk@);
        while i < chunk.len() && !self.failed
            invariant
                i <= chunk@.len(),
                scan(start, chunk@) == (
                    scan(self@, chunk@.skip(i as int)).0,
                    frames + scan(self@, chunk@.skip(i as int)).1,
                ),
                items_are_frames(out@, frames),
            decreases chunk.len() - i,
        {
            let b = chunk[i];
            let ghost st = self@;
            assert(chunk@.skip(i as int).drop_first() =~= chunk@.skip(i + 1));
            assert(chunk@.skip(i as int)[0] == b);
            if b == 10u8 {
                let ghost before = out@;
                self.finish_line(&mut out);
                proof {
                    let fresh = end_line(st).1;
                    assert forall|j: int| 0 <= j < out@.len() implies item_is_frame(
                        #[trigger] out@[j],
                        (frames + fresh)[j],
                    ) by {
                        if j < before.len() {
                            assert(out@[j] == out@.take(before.len() as int)[j]);
                        } else {
                            assert(out@[j] == out@.skip(before.len() as int)[j - before.len()]);
                        }
                    }
                    assert(scan(start, chunk@).1 =~= (frames + fresh) + scan(self@, chunk@.skip(i + 1)).1);
                    frames = frames + fresh;
                }
            } else {
                self.line_buffer.push(b);
                assert(frames + scan(self@, chunk@.skip(i + 1)).1 =~= frames + (Seq::<SseFrame>::empty() + scan(self@, chunk@.skip(i + 1)).1));
            }
            i = i + 1;
        }
        assert(frames + Seq::<SseFrame>::empty() =~= frames);
        out
    }

    /// The body has ended: returns the items of the frames still owed.
    pub fn finish(self) -> (items: Vec<Result<String, KrillError>>)
        ensures
            items_are_frames(items@, finish_frames(self@)),
    {
        let mut out: Vec<Result<String, KrillError>> = Vec::new();
        if self.failed {
            return out;
        }
        let SseDecoder { line_buffer, event_name, data_lines, failed: _ } = self;
        let mut ev = event_name;
        let mut data = data_lines;
        let ghost mut first: Seq<SseFrame> = Seq::empty();
        if line_buffer.len() > 0 {
            match decode_line(line_buffer) {
                Err(e) => {
                    out.push(Err(KrillError::Io(invalid_data_error(e))));
                    return out;
                },
                Ok(line) => {
                    let parsed = parse_sse_line(line.as_str(), &mut ev, &mut data);
                    proof {
                        first = payload_frames(opt_view(parsed));
                    }
                    if let Some(p) = parsed {
                        out.push(Ok(p));
                    }
                },
            }
        }
        assert(items_are_frames(out@, first));
        if ev.is_some() || data.len() > 0 {
            if data.len() == 0 {
                out.push(Err(KrillError::SseUnexpectedEnd));
            } else {
                let raw = join_strings(&data, "\n");
                proof {
                    reveal_strlit("\n");
                    assert("\n"@ =~= newline());
                }
                out.push(Ok(raw));
            }
        }
        proof {
            let fs = finish_frames(self@);
            assert forall|j: int| 0 <= j < out@.len() implies item_is_frame(#[trigger] out@[j], fs[j]) by {
            }
        }
        out
    }
}

} // verus!
