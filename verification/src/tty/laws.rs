//! What holds of the TTY frame protocol whatever the bytes and however they
//! are delivered.

use crate::tty::{
    be_bytes, be_u32, decode_step, drain, DecoderState, Drained, Frame, Origin, Outcome, Step,
};
use crate::stream::joined;
use vstd::prelude::*;

verus! {

/// The bytes of one frame on the wire.
pub open spec fn encode_frame(frame: Frame) -> Seq<u8> {
    seq![frame.origin.byte(), 0u8, 0u8, 0u8] + be_bytes(frame.payload.len()) + frame.payload
}

/// The bytes of a sequence of frames on the wire, one after the other.
pub open spec fn encode_all(frames: Seq<Frame>) -> Seq<u8>
    decreases frames.len(),
{
    if frames.len() == 0 {
        Seq::empty()
    } else {
        encode_frame(frames[0]) + encode_all(frames.skip(1))
    }
}

/// How many of the frames, from the first on, lie wholly within the first
/// `n` bytes of their encoding.
pub open spec fn whole_frames(frames: Seq<Frame>, n: nat) -> nat
    decreases frames.len(),
{
    if frames.len() == 0 || n < encode_frame(frames[0]).len() {
        0
    } else {
        1 + whole_frames(frames.skip(1), (n - encode_frame(frames[0]).len()) as nat)
    }
}

/// Every payload is short enough for its length to fit the header.
pub open spec fn encodable(frames: Seq<Frame>) -> bool {
    forall|i: int| 0 <= i < frames.len() ==> (#[trigger] frames[i]).payload.len() <= u32::MAX
}

/// A consumer that keeps one buffer: each delivery is appended to what was
/// left over, and the buffer is then drained. Once a header was refused, no
/// later delivery is looked at.
pub open spec fn run(state: DecoderState, buf: Seq<u8>, deliveries: Seq<Seq<u8>>) -> Drained
    decreases deliveries.len(),
{
    if deliveries.len() == 0 {
        Drained { frames: Seq::empty(), state, rest: buf, failed: None }
    } else {
        let first = drain(state, buf + deliveries[0]);
        if first.failed is Some {
            first
        } else {
            let later = run(first.state, first.rest, deliveries.skip(1));
            Drained {
                frames: first.frames + later.frames,
                state: later.state,
                rest: later.rest,
                failed: later.failed,
            }
        }
    }
}

proof fn lemma_be_roundtrip(n: nat)
    requires
        n <= u32::MAX,
    ensures
        be_bytes(n).len() == 4,
        be_u32(be_bytes(n)) == n,
{
}

proof fn lemma_step_on_frame(frame: Frame, tail: Seq<u8>)
    requires
        frame.payload.len() <= u32::MAX,
    ensures
        decode_step(DecoderState::WaitingHeader, encode_frame(frame) + tail) == (Step {
            state: DecoderState::WaitingHeader,
            rest: tail,
            outcome: Outcome::Chunk(frame),
        }),
{
    let buf = encode_frame(frame) + tail;
    let n = frame.payload.len();
    lemma_be_roundtrip(n);
    assert(buf[0] == frame.origin.byte());
    assert(Origin::of_byte(frame.origin.byte()) == Some(frame.origin));
    assert(buf.subrange(4, 8) =~= be_bytes(n));
    assert(buf.skip(8) =~= frame.payload + tail);
    assert(buf.skip(8).skip(n as int) =~= tail);
    assert(buf.skip(8).subrange(0, n as int) =~= frame.payload);
}

/// Draining is indifferent to where the input was cut: draining `x` and
/// then, with what is left, draining again after `y` has arrived gives what
/// draining `x + y` at once gives.
proof fn lemma_drain_extend(state: DecoderState, x: Seq<u8>, y: Seq<u8>)
    ensures
        ({
            let d = drain(state, x);
            let e = drain(state, x + y);
            let t = drain(d.state, d.rest + y);
            &&& d.failed is Some ==> e.failed is Some
            &&& d.failed is None ==> e == (Drained {
                frames: d.frames + t.frames,
                state: t.state,
                rest: t.rest,
                failed: t.failed,
            })
        }),
    decreases x.len(), (if state is WaitingPayload { 1nat } else { 0nat }),
{
    let step = decode_step(state, x);
    let d = drain(state, x);
    let t = drain(d.state, d.rest + y);
    match step.outcome {
        Outcome::NeedMore => {
            match state {
                DecoderState::WaitingHeader => {
                    if x.len() >= 8 {
                        assert((x + y).subrange(4, 8) =~= x.subrange(4, 8));
                        assert((x + y).skip(8) =~= x.skip(8) + y);
                    }
                },
                DecoderState::WaitingPayload { .. } => {},
            }
            assert(decode_step(state, x + y) == decode_step(d.state, d.rest + y));
            assert(d.frames + t.frames =~= t.frames);
        },
        Outcome::UnknownOrigin(_) => {},
        Outcome::Chunk(frame) => {
            match state {
                DecoderState::WaitingHeader => {
                    let length = be_u32(x.subrange(4, 8)) as u32;
                    assert((x + y).subrange(4, 8) =~= x.subrange(4, 8));
                    assert((x + y).skip(8) =~= x.skip(8) + y);
                    assert((x.skip(8) + y).skip(length as int) =~= x.skip(8).skip(length as int)
                        + y);
                    assert((x.skip(8) + y).subrange(0, length as int) =~= x.skip(8).subrange(
                        0,
                        length as int,
                    ));
                },
                DecoderState::WaitingPayload { length, .. } => {
                    assert((x + y).skip(length as int) =~= x.skip(length as int) + y);
                    assert((x + y).subrange(0, length as int) =~= x.subrange(0, length as int));
                },
            }
            assert(decode_step(state, x + y) == (Step {
                state: step.state,
                rest: step.rest + y,
                outcome: step.outcome,
            }));
            lemma_drain_extend(step.state, step.rest, y);
            let d1 = drain(step.state, step.rest);
            if d1.failed is None {
                assert((seq![frame] + d1.frames) + t.frames =~= seq![frame] + (d1.frames
                    + t.frames));
            }
        },
    }
}

/// What a drain leaves behind holds nothing that another drain could take.
proof fn lemma_drained_is_settled(state: DecoderState, x: Seq<u8>)
    requires
        drain(state, x).failed is None,
    ensures
        ({
            let d = drain(state, x);
            drain(d.state, d.rest) == (Drained {
                frames: Seq::empty(),
                state: d.state,
                rest: d.rest,
                failed: None,
            })
        }),
{
    let d = drain(state, x);
    let t = drain(d.state, d.rest);
    lemma_drain_extend(state, x, Seq::empty());
    assert(x + Seq::<u8>::empty() =~= x);
    assert(d.rest + Seq::<u8>::empty() =~= d.rest);
    assert(d.frames.len() == (d.frames + t.frames).len());
    assert(t.frames =~= Seq::<Frame>::empty());
}

proof fn lemma_encodable_tail(frames: Seq<Frame>)
    requires
        encodable(frames),
        frames.len() > 0,
    ensures
        encodable(frames.skip(1)),
{
    let tail = frames.skip(1);
    assert forall|i: int| 0 <= i < tail.len() implies (#[trigger] tail[i]).payload.len()
        <= u32::MAX by {
        assert(tail[i] == frames[i + 1]);
    }
}

proof fn lemma_drain_encoded(frames: Seq<Frame>)
    requires
        encodable(frames),
    ensures
        drain(DecoderState::WaitingHeader, encode_all(frames)) == (Drained {
            frames,
            state: DecoderState::WaitingHeader,
            rest: Seq::empty(),
            failed: None,
        }),
    decreases frames.len(),
{
    let bytes = encode_all(frames);
    let drained = drain(DecoderState::WaitingHeader, bytes);
    if frames.len() == 0 {
        assert(bytes.len() == 0);
        assert(decode_step(DecoderState::WaitingHeader, bytes).outcome is NeedMore);
        assert(drained.frames =~= frames);
        assert(drained.rest =~= Seq::<u8>::empty());
    } else {
        let tail = frames.skip(1);
        let later = drain(DecoderState::WaitingHeader, encode_all(tail));
        lemma_step_on_frame(frames[0], encode_all(tail));
        lemma_encodable_tail(frames);
        lemma_drain_encoded(tail);
        assert(drained.frames == seq![frames[0]] + later.frames);
        assert(seq![frames[0]] + tail =~= frames);
    }
}

proof fn lemma_drain_truncated(frames: Seq<Frame>, prefix: Seq<u8>)
    requires
        encodable(frames),
        prefix.is_prefix_of(encode_all(frames)),
    ensures
        drain(DecoderState::WaitingHeader, prefix).failed is None,
        whole_frames(frames, prefix.len()) <= frames.len(),
        drain(DecoderState::WaitingHeader, prefix).frames == frames.subrange(
            0,
            whole_frames(frames, prefix.len()) as int,
        ),
    decreases frames.len(),
{
    let d = drain(DecoderState::WaitingHeader, prefix);
    if frames.len() == 0 {
        assert(prefix.len() == 0);
        assert(d.frames =~= frames.subrange(0, 0));
    } else {
        let first = frames[0];
        let tail = frames.skip(1);
        let n = first.payload.len();
        let whole = encode_all(frames);
        lemma_be_roundtrip(n);
        assert(encode_frame(first).len() == 8 + n);
        if prefix.len() < 8 + n {
            if prefix.len() >= 8 {
                assert(prefix[0] == first.origin.byte());
                assert(Origin::of_byte(first.origin.byte()) == Some(first.origin));
                assert(prefix.subrange(4, 8) =~= be_bytes(n));
            }
            assert(d.frames =~= frames.subrange(0, 0));
        } else {
            let later = prefix.skip(8 + n as int);
            assert(prefix =~= encode_frame(first) + later);
            assert(later.is_prefix_of(encode_all(tail))) by {
                assert(later =~= encode_all(tail).subrange(0, later.len() as int));
            }
            lemma_step_on_frame(first, later);
            lemma_encodable_tail(frames);
            lemma_drain_truncated(tail, later);
            let rest = drain(DecoderState::WaitingHeader, later);
            let taken = whole_frames(tail, later.len());
            assert(d.frames =~= seq![first] + rest.frames);
            assert(seq![first] + tail.subrange(0, taken as int) =~= frames.subrange(
                0,
                taken as int + 1,
            ));
        }
    }
}

proof fn lemma_run_is_drain(state: DecoderState, buf: Seq<u8>, deliveries: Seq<Seq<u8>>)
    requires
        drain(state, buf) == (Drained { frames: Seq::empty(), state, rest: buf, failed: None }),
        drain(state, buf + joined(deliveries)).failed is None,
    ensures
        run(state, buf, deliveries) == drain(state, buf + joined(deliveries)),
    decreases deliveries.len(),
{
    if deliveries.len() == 0 {
        assert(buf + joined(deliveries) =~= buf);
    } else {
        let later = deliveries.skip(1);
        assert(buf + joined(deliveries) =~= (buf + deliveries[0]) + joined(later));
        lemma_drain_extend(state, buf + deliveries[0], joined(later));
        let first = drain(state, buf + deliveries[0]);
        lemma_drained_is_settled(state, buf + deliveries[0]);
        lemma_run_is_drain(first.state, first.rest, later);
    }
}

/// Decoding undoes encoding, however the bytes are delivered.
///
/// Encode any frames, cut the bytes into deliveries of any sizes (single
/// bytes and empty deliveries included), and feed them one by one to a
/// consumer that starts out waiting for a header with an empty buffer: it
/// gets back exactly the frames that were encoded, in order, and ends
/// waiting for a header with nothing left in the buffer.
pub proof fn decode_inverts_encode(frames: Seq<Frame>, deliveries: Seq<Seq<u8>>)
    requires
        encodable(frames),
        joined(deliveries) == encode_all(frames),
    ensures
        run(DecoderState::WaitingHeader, Seq::empty(), deliveries) == (Drained {
            frames,
            state: DecoderState::WaitingHeader,
            rest: Seq::empty(),
            failed: None,
        }),
{
    let start = Seq::<u8>::empty();
    assert(start + joined(deliveries) =~= encode_all(frames));
    lemma_drain_encoded(frames);
    lemma_run_is_drain(DecoderState::WaitingHeader, start, deliveries);
}

/// A stream that breaks off inside a frame yields no partial chunk.
///
/// When the deliveries add up to only a beginning of the encoded frames, the
/// consumer gets exactly the frames whose bytes have all arrived, each of
/// them whole and in order, and no error: the cut-off frame just never comes
/// out.
pub proof fn truncated_stream_emits_whole_frames(
    frames: Seq<Frame>,
    deliveries: Seq<Seq<u8>>,
)
    requires
        encodable(frames),
        joined(deliveries).is_prefix_of(encode_all(frames)),
    ensures
        run(DecoderState::WaitingHeader, Seq::empty(), deliveries).failed is None,
        whole_frames(frames, joined(deliveries).len()) <= frames.len(),
        run(DecoderState::WaitingHeader, Seq::empty(), deliveries).frames == frames.subrange(
            0,
            whole_frames(frames, joined(deliveries).len()) as int,
        ),
{
    let start = Seq::<u8>::empty();
    assert(start + joined(deliveries) =~= joined(deliveries));
    lemma_drain_truncated(frames, joined(deliveries));
    lemma_run_is_drain(DecoderState::WaitingHeader, start, deliveries);
}

/// The length that a header announced is not looked at again.
///
/// While a payload is owed, an attempt either leaves the decoder owing the
/// same number of bytes from the same stream and takes nothing off the
/// buffer, or hands out a chunk of that stream of exactly that many bytes,
/// which were all buffered, and goes back to waiting for a header.
pub proof fn announced_length_is_kept(length: u32, origin: Origin, buf: Seq<u8>)
    ensures
        ({
            let step = decode_step(DecoderState::WaitingPayload { length, origin }, buf);
            match step.outcome {
                Outcome::NeedMore => buf.len() < length && step.rest == buf && step.state == (
                DecoderState::WaitingPayload { length, origin }),
                Outcome::Chunk(frame) => {
                    &&& buf.len() >= length
                    &&& frame.origin == origin
                    &&& frame.payload.len() == length
                    &&& frame.payload + step.rest == buf
                    &&& step.state == DecoderState::WaitingHeader
                },
                Outcome::UnknownOrigin(_) => false,
            }
        }),
{
    let step = decode_step(DecoderState::WaitingPayload { length, origin }, buf);
    if buf.len() >= length {
        assert(buf.subrange(0, length as int) + buf.skip(length as int) =~= buf);
    }
}

/// A header that names no known stream stops the decoder for good.
///
/// With a whole header buffered whose first byte is none of 0, 1 and 2, an
/// attempt is refused, reports that byte, and leaves decoder and buffer as
/// they were. So does every later attempt, whatever arrives behind it.
pub proof fn unknown_origin_consumes_nothing(buf: Seq<u8>, later: Seq<u8>)
    requires
        buf.len() >= 8,
        buf[0] > 2,
    ensures
        decode_step(DecoderState::WaitingHeader, buf) == (Step {
            state: DecoderState::WaitingHeader,
            rest: buf,
            outcome: Outcome::UnknownOrigin(buf[0]),
        }),
        drain(DecoderState::WaitingHeader, buf + later) == (Drained {
            frames: Seq::empty(),
            state: DecoderState::WaitingHeader,
            rest: buf + later,
            failed: Some(buf[0]),
        }),
{
    assert((buf + later)[0] == buf[0]);
}

} // verus!
