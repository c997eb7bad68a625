//! The multiplexed TTY stream of a container: frames of stdin, stdout and
//! stderr bytes, decoded incrementally from whatever has arrived so far.
//!
//! A frame is an 8-byte header followed by its payload. Byte 0 of the header
//! names the stream (0 stdin, 1 stdout, 2 stderr), bytes 1 to 3 are unused,
//! bytes 4 to 7 hold the payload length as a big-endian unsigned integer.

use crate::buffer::{buffer_bytes, buffer_len, buffer_split_to, buffered};
use crate::errors::Error;
use crate::text::{decimal, decimal_string};
use bytes::BytesMut;
use vstd::prelude::*;
use vstd::string::StringExecFns;

pub mod laws;

verus! {

/// Length of a frame header in bytes.
pub const HEADER_LEN: usize = 8;

/// The stream a chunk of TTY bytes belongs to.
#[derive(Debug, Clone, Copy, PartialEq, Eq, Structural)]
pub enum Origin {
    StdIn,
    StdOut,
    StdErr,
}

impl Origin {
    /// The header byte that names this stream.
    pub open spec fn byte(self) -> u8 {
        match self {
            Origin::StdIn => 0u8,
            Origin::StdOut => 1u8,
            Origin::StdErr => 2u8,
        }
    }

    /// The stream named by a header byte. Only 0, 1 and 2 name one.
    pub open spec fn of_byte(b: u8) -> Option<Origin> {
        if b == 0 {
            Some(Origin::StdIn)
        } else if b == 1 {
            Some(Origin::StdOut)
        } else if b == 2 {
            Some(Origin::StdErr)
        } else {
            None
        }
    }

    /// Reads the stream id of a frame header.
    pub fn from_byte(b: u8) -> (r: Option<Origin>)
        ensures
            r == Origin::of_byte(b),
    {
        if b == 0 {
            Some(Origin::StdIn)
        } else if b == 1 {
            Some(Origin::StdOut)
        } else if b == 2 {
            Some(Origin::StdErr)
        } else {
            None
        }
    }
}

/// One decoded frame as a mathematical value: where it came from and what it
/// carried.
pub struct Frame {
    pub origin: Origin,
    pub payload: Seq<u8>,
}

/// A chunk of TTY bytes streamed from a container, tagged with its stream.
#[derive(Debug, Clone)]
pub enum TtyChunk {
    StdIn(BytesMut),
    StdOut(BytesMut),
    StdErr(BytesMut),
}

impl View for TtyChunk {
    type V = Frame;

    open spec fn view(&self) -> Frame {
        match *self {
            TtyChunk::StdIn(bytes) => Frame { origin: Origin::StdIn, payload: buffered(bytes) },
            TtyChunk::StdOut(bytes) => Frame { origin: Origin::StdOut, payload: buffered(bytes) },
            TtyChunk::StdErr(bytes) => Frame { origin: Origin::StdErr, payload: buffered(bytes) },
        }
    }
}

impl TtyChunk {
    /// Tags a payload with the stream it arrived on.
    pub fn new(origin: Origin, bytes: BytesMut) -> (chunk: TtyChunk)
        ensures
            chunk@ == (Frame { origin, payload: buffered(bytes) }),
    {
        match origin {
            Origin::StdIn => TtyChunk::StdIn(bytes),
            Origin::StdOut => TtyChunk::StdOut(bytes),
            Origin::StdErr => TtyChunk::StdErr(bytes),
        }
    }

    /// The stream this chunk arrived on.
    pub fn origin(&self) -> (origin: Origin)
        ensures
            origin == self@.origin,
    {
        match self {
            TtyChunk::StdIn(_) => Origin::StdIn,
            TtyChunk::StdOut(_) => Origin::StdOut,
            TtyChunk::StdErr(_) => Origin::StdErr,
        }
    }

    /// The payload, whatever the stream.
    pub fn payload(&self) -> (payload: &BytesMut)
        ensures
            buffered(*payload) == self@.payload,
    {
        match self {
            TtyChunk::StdIn(bytes) => bytes,
            TtyChunk::StdOut(bytes) => bytes,
            TtyChunk::StdErr(bytes) => bytes,
        }
    }

    /// A copy of the payload.
    pub fn to_vec(&self) -> (v: Vec<u8>)
        ensures
            v@ == self@.payload,
    {
        let s = buffer_bytes(self.payload());
        vstd::slice::slice_to_vec(s)
    }
}

impl std::ops::Deref for TtyChunk {
    type Target = BytesMut;

    /// The payload, whatever the stream.
    fn deref(&self) -> (payload: &BytesMut)
        ensures
            buffered(*payload) == self@.payload,
    {
        self.payload()
    }
}

/// Where the decoder stands between two frames.
#[derive(Debug, Clone, Copy, PartialEq, Eq, Structural)]
pub enum DecoderState {
    /// Nothing of the next frame has been consumed.
    WaitingHeader,
    /// A header has been consumed, and its payload is still owed.
    WaitingPayload { length: u32, origin: Origin },
}

/// What one decoding attempt produced.
pub enum Outcome {
    /// Too few bytes are buffered: come back when more have arrived.
    NeedMore,
    /// One whole frame.
    Chunk(Frame),
    /// The header names no known stream, and this is the byte it holds.
    UnknownOrigin(u8),
}

/// The decoder after one attempt: its state, the bytes left in the buffer and
/// what came out.
pub struct Step {
    pub state: DecoderState,
    pub rest: Seq<u8>,
    pub outcome: Outcome,
}

/// Four bytes read as a big-endian unsigned integer.
pub open spec fn be_u32(b: Seq<u8>) -> nat
    recommends
        b.len() == 4,
{
    (b[0] as nat) * 16777216 + (b[1] as nat) * 65536 + (b[2] as nat) * 256 + (b[3] as nat)
}

/// The four bytes that hold `n` as a big-endian unsigned integer.
pub open spec fn be_bytes(n: nat) -> Seq<u8>
    recommends
        n <= u32::MAX,
{
    seq![
        (n / 16777216) as u8,
        ((n / 65536) % 256) as u8,
        ((n / 256) % 256) as u8,
        (n % 256) as u8,
    ]
}

/// The payload half of a decoding attempt: the header of the frame is behind
/// us and announced `length` bytes from `origin`.
pub open spec fn payload_step(origin: Origin, length: u32, buf: Seq<u8>) -> Step {
    if buf.len() < length {
        Step {
            state: DecoderState::WaitingPayload { length, origin },
            rest: buf,
            outcome: Outcome::NeedMore,
        }
    } else {
        Step {
            state: DecoderState::WaitingHeader,
            rest: buf.skip(length as int),
            outcome: Outcome::Chunk(Frame { origin, payload: buf.subrange(0, length as int) }),
        }
    }
}

/// One decoding attempt on the buffered bytes `buf`, starting in `state`.
///
/// Waiting for a header with fewer than eight bytes buffered changes nothing.
/// With eight or more, a header that names no known stream is refused and
/// left where it is. Otherwise the header is consumed and the payload is
/// attempted in the same go. A payload comes out only when all of its bytes
/// are buffered.
pub open spec fn decode_step(state: DecoderState, buf: Seq<u8>) -> Step {
    match state {
        DecoderState::WaitingHeader => {
            if buf.len() < 8 {
                Step { state, rest: buf, outcome: Outcome::NeedMore }
            } else {
                match Origin::of_byte(buf[0]) {
                    None => Step { state, rest: buf, outcome: Outcome::UnknownOrigin(buf[0]) },
                    Some(origin) => payload_step(
                        origin,
                        be_u32(buf.subrange(4, 8)) as u32,
                        buf.skip(8),
                    ),
                }
            }
        },
        DecoderState::WaitingPayload { length, origin } => payload_step(origin, length, buf),
    }
}

/// The text of the error raised for a header whose first byte is `b`.
pub open spec fn unknown_origin_message(b: u8) -> Seq<char> {
    "invalid stream number from docker daemon: '"@ + decimal(b as nat) + "'"@
}

/// Incremental decoder of the TTY frame protocol.
///
/// It owns no bytes: the caller keeps the buffer, appends to it as bytes
/// arrive, and calls `decode` again.
#[derive(Debug, Clone, Copy)]
pub struct TtyDecoder {
    state: DecoderState,
}

impl View for TtyDecoder {
    type V = DecoderState;

    closed spec fn view(&self) -> DecoderState {
        self.state
    }
}

impl TtyDecoder {
    /// A decoder at the start of a stream.
    pub fn new() -> (decoder: TtyDecoder)
        ensures
            decoder@ == DecoderState::WaitingHeader,
    {
        TtyDecoder { state: DecoderState::WaitingHeader }
    }

    /// Where the decoder stands.
    pub fn state(&self) -> (state: DecoderState)
        ensures
            state == self@,
    {
        self.state
    }

    /// Attempts to take one frame off the front of `src`.
    ///
    /// `Ok(None)` asks for more input. `Ok(Some(chunk))` hands out one whole
    /// frame. `Err(Error::InvalidResponse(..))` reports a header that names
    /// no known stream: the decoder and the buffer are left untouched, so
    /// nothing further is consumed.
    pub fn decode(&mut self, src: &mut BytesMut) -> (r: Result<Option<TtyChunk>, Error>)
        ensures
            ({
                let step = decode_step(old(self)@, buffered(*old(src)));
                &&& final(self)@ == step.state
                &&& buffered(*final(src)) == step.rest
                &&& match step.outcome {
                    Outcome::NeedMore => r == Ok::<Option<TtyChunk>, Error>(None),
                    Outcome::Chunk(frame) => r matches Ok(Some(chunk)) && chunk@ == frame,
                    Outcome::UnknownOrigin(b) => r matches Err(Error::InvalidResponse(cause))
                        && cause@ == unknown_origin_message(b),
                }
            }),
    {
        let (origin, length) = match self.state {
            DecoderState::WaitingHeader => {
                if buffer_len(src) < HEADER_LEN {
                    return Ok(None);
                }
                let first = buffer_bytes(src)[0];
                let origin = match Origin::from_byte(first) {
                    Some(origin) => origin,
                    None => {
                        let cause = String::from_str("invalid stream number from docker daemon: '")
                            .concat(decimal_string(first as u64).as_str())
                            .concat("'");
                        return Err(Error::InvalidResponse(cause));
                    },
                };
                let header = buffer_split_to(src, HEADER_LEN);
                let h = buffer_bytes(&header);
                let length: u32 = (h[4] as u32) * 16777216 + (h[5] as u32) * 65536 + (h[6] as u32)
                    * 256 + (h[7] as u32);
                assert(h@.subrange(4, 8) =~= buffered(*old(src)).subrange(4, 8));
                self.state = DecoderState::WaitingPayload { length, origin };
                (origin, length)
            },
            DecoderState::WaitingPayload { length, origin } => (origin, length),
        };
        if buffer_len(src) < length as usize {
            return Ok(None);
        }
        let payload = buffer_split_to(src, length as usize);
        self.state = DecoderState::WaitingHeader;
        Ok(Some(TtyChunk::new(origin, payload)))
    }
}

/// Everything that repeated decoding gets out of a buffer before it has to
/// stop: the frames in order, the decoder and the bytes left behind, and the
/// offending byte if it stopped on a header that names no known stream.
pub struct Drained {
    pub frames: Seq<Frame>,
    pub state: DecoderState,
    pub rest: Seq<u8>,
    pub failed: Option<u8>,
}

/// Decoding attempts repeated on `buf` until one asks for more input or is
/// refused.
pub open spec fn drain(state: DecoderState, buf: Seq<u8>) -> Drained
    decreases buf.len(), (if state is WaitingPayload { 1nat } else { 0nat }),
{
    let step = decode_step(state, buf);
    match step.outcome {
        Outcome::NeedMore => Drained {
            frames: Seq::empty(),
            state: step.state,
            rest: step.rest,
            failed: None,
        },
        Outcome::UnknownOrigin(b) => Drained {
            frames: Seq::empty(),
            state: step.state,
            rest: step.rest,
            failed: Some(b),
        },
        Outcome::Chunk(frame) => {
            let more = drain(step.state, step.rest);
            Drained {
                frames: seq![frame] + more.frames,
                state: more.state,
                rest: more.rest,
                failed: more.failed,
            }
        },
    }
}

/// The frames that a sequence of chunks stands for.
pub open spec fn frames_of(chunks: Seq<TtyChunk>) -> Seq<Frame> {
    chunks.map_values(|chunk: TtyChunk| chunk@)
}

impl TtyDecoder {
    /// Takes every whole frame off the front of `src`.
    ///
    /// Returns the chunks in arrival order, and beside them `Ok` when the
    /// decoder merely ran out of input, or the error of the header it
    /// refused. After an error nothing further has been consumed.
    pub fn decode_available(&mut self, src: &mut BytesMut) -> (r: (Vec<TtyChunk>, Result<(), Error>))
        ensures
            ({
                let drained = drain(old(self)@, buffered(*old(src)));
                &&& final(self)@ == drained.state
                &&& buffered(*final(src)) == drained.rest
                &&& frames_of(r.0@) == drained.frames
                &&& match drained.failed {
                    None => r.1 is Ok,
                    Some(b) => r.1 matches Err(Error::InvalidResponse(cause)) && cause@
                        == unknown_origin_message(b),
                }
            }),
    {
        let mut chunks: Vec<TtyChunk> = Vec::new();
        let ghost total = drain(self@, buffered(*src));
        assert(frames_of(chunks@) =~= Seq::<Frame>::empty());
        loop
            invariant
                total == drain(old(self)@, buffered(*old(src))),
                ({
                    let ahead = drain(self@, buffered(*src));
                    &&& total.frames == frames_of(chunks@) + ahead.frames
                    &&& total.state == ahead.state
                    &&& total.rest == ahead.rest
                    &&& total.failed == ahead.failed
                }),
            decreases buffered(*src).len(), (if self@ is WaitingPayload { 1nat } else { 0nat }),
        {
            let ghost before = frames_of(chunks@);
            let ghost ahead = drain(self@, buffered(*src));
            match self.decode(src) {
                Ok(Some(chunk)) => {
                    chunks.push(chunk);
                    assert(frames_of(chunks@) =~= before.push(chunk@));
                    assert(before + ahead.frames =~= frames_of(chunks@) + drain(
                        self@,
                        buffered(*src),
                    ).frames);
                },
                Ok(None) => {
                    assert(frames_of(chunks@) + ahead.frames =~= frames_of(chunks@));
                    return (chunks, Ok(()));
                },
                Err(e) => {
                    assert(frames_of(chunks@) + ahead.frames =~= frames_of(chunks@));
                    return (chunks, Err(e));
                },
            }
        }
    }
}

/// The two halves of an attached TTY session: the reader that the chunks come
/// from and the writer that takes the bytes for stdin.
pub struct Multiplexer<R, W> {
    reader: R,
    writer: W,
}

impl<R, W> Multiplexer<R, W> {
    /// Composes a session from its two halves.
    pub fn new(reader: R, writer: W) -> (session: Multiplexer<R, W>)
        ensures
            session.reader_half() == reader,
            session.writer_half() == writer,
    {
        Multiplexer { reader, writer }
    }

    /// The half that chunks are read from.
    pub closed spec fn reader_half(self) -> R {
        self.reader
    }

    /// The half that stdin is written to.
    pub closed spec fn writer_half(self) -> W {
        self.writer
    }

    /// Takes the session apart, so that the halves can be used
    /// independently.
    pub fn split(self) -> (halves: (R, W))
        ensures
            halves.0 == self.reader_half(),
            halves.1 == self.writer_half(),
    {
        (self.reader, self.writer)
    }
}

} // verus!
