use vstd::prelude::*;
use vstd::string::StringExecFns;

use crate::error::{Error, Result};
use crate::wire::{be4, be4_value, lemma_be4_round_trip, MAX_FRAME_LEN};

verus! {

/// Most bytes asked of the stream in one read.
pub const READ_CHUNK: usize = 65536;

/// One decimal digit.
pub open spec fn digit(d: nat) -> char {
    seq!['0', '1', '2', '3', '4', '5', '6', '7', '8', '9'][d as int]
}

/// `n` written in decimal, without sign or leading zeros.
pub open spec fn decimal(n: nat) -> Seq<char>
    decreases n,
{
    if n < 10 {
        seq![digit(n)]
    } else {
        decimal(n / 10).push(digit(n % 10))
    }
}

/// The text of the error for a declared length beyond the ceiling.
pub open spec fn too_large_text(len: nat) -> Seq<char> {
    "Message too large: "@ + decimal(len) + " bytes"@
}

/// The bytes on the wire for one frame: length prefix, then payload.
pub open spec fn frame_bytes(payload: Seq<u8>) -> Seq<u8> {
    be4(payload.len()) + payload
}

/// The length declared by the prefix of `s` (which holds at least four bytes).
pub open spec fn declared_len(s: Seq<u8>) -> nat {
    be4_value(s.take(4))
}

/// `s` holds a whole prefix that declares more than the ceiling.
pub open spec fn is_oversized(s: Seq<u8>) -> bool {
    s.len() >= 4 && declared_len(s) > MAX_FRAME_LEN
}

/// Where the frame that starts `s` ends.
pub open spec fn frame_end(s: Seq<u8>) -> nat {
    4 + declared_len(s)
}

/// `s` starts with a whole, valid frame.
pub open spec fn is_complete(s: Seq<u8>) -> bool {
    s.len() >= 4 && !is_oversized(s) && s.len() >= frame_end(s)
}

/// The payload of the frame that starts `s`.
pub open spec fn payload_of(s: Seq<u8>) -> Seq<u8> {
    s.subrange(4, frame_end(s) as int)
}

/// `s` is a proper beginning of a valid frame: more bytes are needed.
pub open spec fn is_pending(s: Seq<u8>) -> bool {
    !is_oversized(s) && !is_complete(s)
}

/// How many bytes the frame that `s` begins still lacks.
pub open spec fn missing(s: Seq<u8>) -> nat {
    if s.len() < 4 {
        (4 - s.len()) as nat
    } else {
        (frame_end(s) - s.len()) as nat
    }
}

/// How many bytes a reader holding `s` asks for next.
pub open spec fn next_request(s: Seq<u8>) -> nat {
    if missing(s) < READ_CHUNK {
        missing(s)
    } else {
        READ_CHUNK as nat
    }
}

/// Relies on `ToString` for `u64` (its `Display`): decimal digits, no sign or
/// padding.
#[verifier::external_body]
fn decimal_string(n: u64) -> (r: String)
    ensures
        r@ == decimal(n as nat),
{
    n.to_string()
}

/// Relies on `std::io::Error::from(ErrorKind::UnexpectedEof)`: the I/O error
/// for a stream that ended inside a frame.
#[verifier::external_body]
fn unexpected_eof() -> (r: std::io::Error) {
    std::io::Error::from(std::io::ErrorKind::UnexpectedEof)
}

/// The invalid-frame error for a declared length `len`.
pub fn oversized_error(len: u64) -> (r: Error)
    ensures
        r is InvalidFrame,
        r->InvalidFrame_0@ == too_large_text(len as nat),
{
    let mut text = String::from_str("Message too large: ");
    let digits = decimal_string(len);
    text.append(digits.as_str());
    text.append(" bytes");
    Error::InvalidFrame(text)
}

/// The length prefix for a payload of `len` bytes; a payload beyond the
/// ceiling cannot be framed.
pub fn encode_header(len: usize) -> (r: Result<[u8; 4]>)
    ensures
        len <= MAX_FRAME_LEN <==> r is Ok,
        r is Ok ==> r->Ok_0@ == be4(len as nat),
        r is Err ==> r->Err_0 is InvalidFrame && r->Err_0->InvalidFrame_0@ == too_large_text(
            len as nat,
        ),
{
    if len > MAX_FRAME_LEN {
        return Err(oversized_error(len as u64));
    }
    let n: u32 = len as u32;
    let h: [u8; 4] = [
        (n / 16777216) as u8,
        ((n / 65536) % 256) as u8,
        ((n / 256) % 256) as u8,
        (n % 256) as u8,
    ];
    assert(h@ =~= be4(len as nat));
    Ok(h)
}

/// The payload length that a prefix declares, if it is within the ceiling.
pub fn decode_header(header: [u8; 4]) -> (r: Result<usize>)
    ensures
        be4_value(header@) <= MAX_FRAME_LEN <==> r is Ok,
        r is Ok ==> r->Ok_0 == be4_value(header@),
        r is Err ==> r->Err_0 is InvalidFrame && r->Err_0->InvalidFrame_0@ == too_large_text(
            be4_value(header@),
        ),
{
    let n: u64 = (header[0] as u64) * 16777216 + (header[1] as u64) * 65536 + (header[2] as u64)
        * 256 + (header[3] as u64);
    if n > MAX_FRAME_LEN as u64 {
        Err(oversized_error(n))
    } else {
        Ok(n as usize)
    }
}

/// Reassembles one frame from the chunks that a byte stream hands out.
///
/// The reader never asks for more than the current frame still lacks, so the
/// stream stays aligned on frame boundaries between frames.
pub struct FrameReader {
    buf: Vec<u8>,
}

impl View for FrameReader {
    type V = Seq<u8>;

    /// The bytes of the current frame received so far.
    closed spec fn view(&self) -> Seq<u8> {
        self.buf@
    }
}

impl FrameReader {
    /// The reader is between frames or inside a valid one.
    pub open spec fn wf(&self) -> bool {
        is_pending(self@)
    }

    /// A reader that has received nothing.
    pub fn new() -> (r: FrameReader)
        ensures
            r@ == Seq::<u8>::empty(),
            r.wf(),
    {
        FrameReader { buf: Vec::new() }
    }

    /// How many bytes to read next: at least one, never past the current frame.
    pub fn wanted(&self) -> (r: usize)
        requires
            self.wf(),
        ensures
            r == next_request(self@),
            0 < r <= READ_CHUNK,
            self@.len() + r <= (if self@.len() < 4 { 4 } else { frame_end(self@) }),
    {
        let len = self.buf.len();
        let missing: usize = if len < 4 {
            4 - len
        } else {
            let n = self.header_len();
            4 + n - len
        };
        if missing < READ_CHUNK {
            missing
        } else {
            READ_CHUNK
        }
    }

    /// The declared length of the current frame, once its prefix is in.
    fn header_len(&self) -> (r: usize)
        requires
            self.buf@.len() >= 4,
            !is_oversized(self.buf@),
        ensures
            r == declared_len(self.buf@),
    {
        let h: [u8; 4] = [self.buf[0], self.buf[1], self.buf[2], self.buf[3]];
        assert(h@ =~= self.buf@.take(4));
        (h[0] as usize) * 16777216 + (h[1] as usize) * 65536 + (h[2] as usize) * 256 + (h[3] as usize)
    }

    /// Takes what one read of the stream gave: some bytes, none (the peer
    /// shut the stream down), or an I/O error. Returns the payload once the
    /// frame is whole, `None` while it is not. A stream that ends before any
    /// byte of a frame is a closed connection; one that ends inside a frame
    /// is an I/O error.
    pub fn on_read(&mut self, got: std::result::Result<Vec<u8>, std::io::Error>) -> (r: Result<
        Option<Vec<u8>>,
    >)
        requires
            old(self).wf(),
            got is Ok ==> got->Ok_0@.len() <= next_request(old(self)@),
        ensures
            ({
                let s = old(self)@ + got->Ok_0@;
                match got {
                    Err(e) => r == Err::<Option<Vec<u8>>, Error>(Error::Io(e)) && final(self)@
                        == old(self)@,
                    Ok(c) => if c@.len() == 0 && old(self)@.len() == 0 {
                        r is Err && r->Err_0 is ConnectionClosed && final(self)@ == old(self)@
                    } else if c@.len() == 0 {
                        r is Err && r->Err_0 is Io && final(self)@ == old(self)@
                    } else if is_oversized(s) {
                        r is Err && r->Err_0 is InvalidFrame && r->Err_0->InvalidFrame_0@
                            == too_large_text(declared_len(s)) && final(self)@ == s
                    } else if is_complete(s) {
                        r is Ok && r->Ok_0 is Some && r->Ok_0->Some_0@ == payload_of(s)
                            && final(self)@ == Seq::<u8>::empty()
                    } else {
                        r is Ok && r->Ok_0 is None && final(self)@ == s && final(self).wf()
                    },
                }
            }),
    {
        let chunk = match got {
            Err(e) => {
                return Err(Error::Io(e));
            },
            Ok(c) => c,
        };
        if chunk.len() == 0 {
            if self.buf.len() == 0 {
                return Err(Error::ConnectionClosed);
            }
            return Err(Error::Io(unexpected_eof()));
        }
        let ghost before = self.buf@;
        self.buf.extend_from_slice(chunk.as_slice());
        let ghost s = self.buf@;
        assert(s =~= before + chunk@);
        if self.buf.len() < 4 {
            return Ok(None);
        }
        let header: [u8; 4] = [self.buf[0], self.buf[1], self.buf[2], self.buf[3]];
        assert(header@ =~= s.take(4));
        let n = match decode_header(header) {
            Err(e) => {
                return Err(e);
            },
            Ok(n) => n,
        };
        if self.buf.len() < 4 + n {
            return Ok(None);
        }
        let payload = self.buf.split_off(4);
        assert(payload@ =~= payload_of(s));
        self.buf = Vec::new();
        Ok(Some(payload))
    }
}

/// A payload within the ceiling, framed and read back, gives the payload:
/// every proper beginning of its frame is pending, the whole frame is
/// complete and carries exactly that payload.
pub proof fn lemma_frame_fidelity(payload: Seq<u8>)
    requires
        payload.len() <= MAX_FRAME_LEN,
    ensures
        is_complete(frame_bytes(payload)),
        frame_end(frame_bytes(payload)) == frame_bytes(payload).len(),
        payload_of(frame_bytes(payload)) == payload,
        forall|k: int|
            0 <= k < frame_bytes(payload).len() ==> #[trigger] is_pending(
                frame_bytes(payload).take(k),
            ),
{
    let f = frame_bytes(payload);
    lemma_be4_round_trip(payload.len());
    assert(f.take(4) =~= be4(payload.len()));
    assert(payload_of(f) =~= payload);
    assert forall|k: int| 0 <= k < f.len() implies #[trigger] is_pending(f.take(k)) by {
        if k >= 4 {
            assert(f.take(k).take(4) =~= f.take(4));
        }
    }
}

/// The frames of a list of payloads, back to back on one stream.
pub open spec fn stream_of(payloads: Seq<Seq<u8>>) -> Seq<u8>
    decreases payloads.len(),
{
    if payloads.len() == 0 {
        seq![]
    } else {
        frame_bytes(payloads[0]) + stream_of(payloads.drop_first())
    }
}

/// The payloads that a reader takes out of `s`, one whole frame after another.
pub open spec fn split_frames(s: Seq<u8>) -> Seq<Seq<u8>>
    decreases s.len(),
{
    if is_complete(s) {
        seq![payload_of(s)] + split_frames(s.skip(frame_end(s) as int))
    } else {
        seq![]
    }
}

/// A frame at the front of a stream is read as that frame, whatever follows:
/// the bytes after it are never taken into it.
pub proof fn lemma_frame_then_rest(payload: Seq<u8>, rest: Seq<u8>)
    requires
        payload.len() <= MAX_FRAME_LEN,
    ensures
        is_complete(frame_bytes(payload) + rest),
        frame_end(frame_bytes(payload) + rest) == frame_bytes(payload).len(),
        payload_of(frame_bytes(payload) + rest) == payload,
        (frame_bytes(payload) + rest).skip(frame_bytes(payload).len() as int) == rest,
        forall|k: int|
            0 <= k < frame_bytes(payload).len() ==> #[trigger] (frame_bytes(payload)
                + rest).take(k) == frame_bytes(payload).take(k),
{
    let f = frame_bytes(payload);
    let s = f + rest;
    lemma_frame_fidelity(payload);
    assert(s.take(4) =~= f.take(4));
    assert(payload_of(s) =~= payload_of(f));
    assert(s.skip(f.len() as int) =~= rest);
    assert forall|k: int| 0 <= k < f.len() implies #[trigger] s.take(k) == f.take(k) by {
        assert(s.take(k) =~= f.take(k));
    }
}

/// Payloads sent one after another on a stream are read back as the same
/// payloads, in the same order, each from its own frame.
pub proof fn lemma_boundaries_kept(payloads: Seq<Seq<u8>>)
    requires
        forall|i: int| 0 <= i < payloads.len() ==> #[trigger] payloads[i].len() <= MAX_FRAME_LEN,
    ensures
        is_frame_run(stream_of(payloads)),
        split_frames(stream_of(payloads)) == payloads,
    decreases payloads.len(),
{
    lemma_stream_is_run(payloads);
    if payloads.len() > 0 {
        let rest = payloads.drop_first();
        assert forall|i: int| 0 <= i < rest.len() implies #[trigger] rest[i].len()
            <= MAX_FRAME_LEN by {
            assert(rest[i] == payloads[i + 1]);
        }
        lemma_boundaries_kept(rest);
        lemma_frame_then_rest(payloads[0], stream_of(rest));
        assert(split_frames(stream_of(payloads)) =~= payloads);
    }
}

/// `s` is a run of whole, valid frames, back to back, with nothing after.
pub open spec fn is_frame_run(s: Seq<u8>) -> bool
    decreases s.len(),
{
    s.len() == 0 || (is_complete(s) && is_frame_run(s.skip(frame_end(s) as int)))
}

/// Every proper beginning of a whole frame is pending, and the frame's own
/// bytes make it complete with the same payload.
pub proof fn lemma_complete_prefixes(s: Seq<u8>)
    requires
        is_complete(s),
    ensures
        forall|k: int| 0 <= k < frame_end(s) ==> #[trigger] is_pending(s.take(k)),
        is_complete(s.take(frame_end(s) as int)),
        frame_end(s.take(frame_end(s) as int)) == frame_end(s),
        payload_of(s.take(frame_end(s) as int)) == payload_of(s),
{
    assert forall|k: int| 0 <= k < frame_end(s) implies #[trigger] is_pending(s.take(k)) by {
        if k >= 4 {
            assert(s.take(k).take(4) =~= s.take(4));
        }
    }
    let f = s.take(frame_end(s) as int);
    assert(f.take(4) =~= s.take(4));
    assert(payload_of(f) =~= payload_of(s));
}

/// The frames of a list of payloads within the ceiling form a run.
pub proof fn lemma_stream_is_run(payloads: Seq<Seq<u8>>)
    requires
        forall|i: int| 0 <= i < payloads.len() ==> #[trigger] payloads[i].len() <= MAX_FRAME_LEN,
    ensures
        is_frame_run(stream_of(payloads)),
    decreases payloads.len(),
{
    if payloads.len() > 0 {
        let rest = payloads.drop_first();
        assert forall|i: int| 0 <= i < rest.len() implies #[trigger] rest[i].len()
            <= MAX_FRAME_LEN by {
            assert(rest[i] == payloads[i + 1]);
        }
        lemma_stream_is_run(rest);
        lemma_frame_then_rest(payloads[0], stream_of(rest));
    }
}

/// The frame of one payload within the ceiling is read back as exactly
/// that payload, and nothing else.
pub proof fn lemma_frame_read_back(payload: Seq<u8>)
    requires
        payload.len() <= MAX_FRAME_LEN,
    ensures
        is_frame_run(frame_bytes(payload)),
        split_frames(frame_bytes(payload)) == seq![payload],
{
    let ps = seq![payload];
    assert(ps.drop_first() =~= Seq::<Seq<u8>>::empty());
    assert(stream_of(ps.drop_first()) =~= Seq::<u8>::empty());
    assert(stream_of(ps) =~= frame_bytes(payload));
    lemma_boundaries_kept(ps);
}

/// Receives one frame from `input` at `*pos`, one read at a time, each read
/// as long as the reader asks for and as the input allows; the input ending
/// is the stream ending.
fn read_one(input: &[u8], pos: &mut usize) -> (r: Result<Vec<u8>>)
    requires
        *old(pos) <= input@.len(),
    ensures
        *final(pos) <= input@.len(),
        is_complete(input@.skip(*old(pos) as int)) <==> r is Ok,
        r is Ok ==> r->Ok_0@ == payload_of(input@.skip(*old(pos) as int)) && *final(pos) == *old(
            pos,
        ) + frame_end(input@.skip(*old(pos) as int)),
{
    let start = *pos;
    let ghost s = input@.skip(start as int);
    let mut reader = FrameReader::new();
    proof {
        if is_complete(s) {
            lemma_complete_prefixes(s);
            assert(s.take(0) =~= reader@);
        }
    }
    loop
        invariant
            start == *old(pos),
            start <= *pos <= input@.len(),
            s == input@.skip(start as int),
            reader.wf(),
            reader@ == input@.subrange(start as int, *pos as int),
            is_complete(s) ==> *pos - start < frame_end(s),
        decreases input@.len() - *pos,
    {
        let want = reader.wanted();
        let end: usize = if want < input.len() - *pos {
            *pos + want
        } else {
            input.len()
        };
        let chunk = vstd::slice::slice_to_vec(vstd::slice::slice_subrange(input, *pos, end));
        let ghost before = *pos;
        proof {
            assert(reader@ + chunk@ =~= input@.subrange(start as int, end as int));
            if is_complete(s) {
                lemma_complete_prefixes(s);
                assert(input@.subrange(start as int, end as int) =~= s.take(end - start));
            }
        }
        assert(chunk@.len() == end - before);
        let got = reader.on_read(Ok(chunk));
        *pos = end;
        match got {
            Err(e) => {
                return Err(e);
            },
            Ok(Some(payload)) => {
                assert(s.take(end - start).take(4) =~= s.take(4));
                return Ok(payload);
            },
            Ok(None) => {},
        }
        assert(end > before);
    }
}

/// Receives, in order, every frame of a stream that ends after `input`:
/// a run of whole frames gives their payloads, one per frame.
pub fn read_frames(input: &[u8]) -> (r: Result<Vec<Vec<u8>>>)
    ensures
        is_frame_run(input@) <==> r is Ok,
        r is Ok ==> r->Ok_0.deep_view() == split_frames(input@),
{
    let mut frames: Vec<Vec<u8>> = Vec::new();
    let mut pos: usize = 0;
    assert(input@.skip(0) =~= input@);
    assert(frames.deep_view() + split_frames(input@) =~= split_frames(input@));
    while pos < input.len()
        invariant
            pos <= input@.len(),
            is_frame_run(input@.skip(pos as int)) ==> is_frame_run(input@),
            is_frame_run(input@) ==> is_frame_run(input@.skip(pos as int)) && split_frames(input@)
                == frames.deep_view() + split_frames(input@.skip(pos as int)),
        decreases input@.len() - pos,
    {
        let ghost before = pos;
        let ghost s = input@.skip(pos as int);
        let ghost old_frames = frames.deep_view();
        let payload = read_one(input, &mut pos)?;
        proof {
            assert(payload.deep_view() =~= payload@);
            assert(s.skip(frame_end(s) as int) =~= input@.skip(pos as int));
            if is_frame_run(input@) {
                assert(s.len() > 0);
                assert(s.skip(frame_end(s) as int) =~= input@.skip(pos as int));
                assert(frames.deep_view().push(payload@) =~= old_frames.push(payload@));
            }
        }
        frames.push(payload);
        proof {
            if is_frame_run(input@) {
                assert(frames.deep_view() =~= old_frames.push(payload@));
                assert(old_frames.push(payload@) + split_frames(input@.skip(pos as int))
                    =~= old_frames + (seq![payload@] + split_frames(input@.skip(pos as int))));
            }
        }
    }
    proof {
        assert(input@.skip(pos as int).len() == 0);
        if is_frame_run(input@) {
            assert(frames.deep_view() + seq![] =~= frames.deep_view());
        }
    }
    Ok(frames)
}

} // verus!
