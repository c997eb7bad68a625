use bytes::BytesMut;
use shiplift::tty::{DecoderState, Multiplexer, Origin, TtyChunk, TtyDecoder};
use shiplift::Error;

fn encode(origin: u8, payload: &[u8]) -> Vec<u8> {
    let mut out = vec![origin, 0, 0, 0];
    out.extend_from_slice(&(payload.len() as u32).to_be_bytes());
    out.extend_from_slice(payload);
    out
}

fn origin_byte(origin: Origin) -> u8 {
    match origin {
        Origin::StdIn => 0,
        Origin::StdOut => 1,
        Origin::StdErr => 2,
    }
}

/// Feeds `wire` in deliveries of `step` bytes and collects what comes out.
fn feed_in_steps(wire: &[u8], step: usize) -> (Vec<(u8, Vec<u8>)>, TtyDecoder, BytesMut) {
    let mut decoder = TtyDecoder::new();
    let mut buffer = BytesMut::new();
    let mut out = Vec::new();
    for delivery in wire.chunks(step) {
        buffer.extend_from_slice(delivery);
        let (chunks, result) = decoder.decode_available(&mut buffer);
        assert!(result.is_ok());
        for chunk in chunks {
            out.push((origin_byte(chunk.origin()), chunk.to_vec()));
        }
    }
    (out, decoder, buffer)
}

#[test]
fn hello_on_stdout_is_one_chunk() {
    let mut buffer = BytesMut::from(&[1u8, 0, 0, 0, 0, 0, 0, 5, b'h', b'e', b'l', b'l', b'o'][..]);
    let mut decoder = TtyDecoder::new();
    let chunk = decoder.decode(&mut buffer).unwrap().unwrap();
    assert!(matches!(chunk, TtyChunk::StdOut(_)));
    assert_eq!(chunk.origin(), Origin::StdOut);
    assert_eq!(chunk.to_vec(), b"hello".to_vec());
    assert_eq!(&chunk.payload()[..], b"hello");
    assert_eq!(decoder.state(), DecoderState::WaitingHeader);
    assert!(buffer.is_empty());
    assert!(decoder.decode(&mut buffer).unwrap().is_none());
}

#[test]
fn each_origin_byte_selects_its_stream() {
    assert_eq!(Origin::from_byte(0), Some(Origin::StdIn));
    assert_eq!(Origin::from_byte(1), Some(Origin::StdOut));
    assert_eq!(Origin::from_byte(2), Some(Origin::StdErr));
    assert_eq!(Origin::from_byte(3), None);
    assert_eq!(Origin::from_byte(255), None);
    for (byte, origin) in [(0u8, Origin::StdIn), (1, Origin::StdOut), (2, Origin::StdErr)] {
        let mut buffer = BytesMut::from(&encode(byte, b"x")[..]);
        let chunk = TtyDecoder::new().decode(&mut buffer).unwrap().unwrap();
        assert_eq!(chunk.origin(), origin);
    }
}

#[test]
fn reserved_bytes_are_ignored() {
    let mut buffer = BytesMut::from(&[2u8, 9, 8, 7, 0, 0, 0, 1, b'!'][..]);
    let chunk = TtyDecoder::new().decode(&mut buffer).unwrap().unwrap();
    assert!(matches!(chunk, TtyChunk::StdErr(_)));
    assert_eq!(chunk.to_vec(), vec![b'!']);
}

#[test]
fn length_is_big_endian() {
    let payload = vec![7u8; 258];
    let mut wire = vec![1u8, 0, 0, 0, 0, 0, 1, 2];
    wire.extend_from_slice(&payload);
    let mut buffer = BytesMut::from(&wire[..]);
    let chunk = TtyDecoder::new().decode(&mut buffer).unwrap().unwrap();
    assert_eq!(chunk.to_vec(), payload);
    assert!(buffer.is_empty());
}

#[test]
fn short_header_asks_for_more_and_consumes_nothing() {
    let mut buffer = BytesMut::from(&[1u8, 0, 0, 0, 0, 0, 0][..]);
    let mut decoder = TtyDecoder::new();
    assert!(decoder.decode(&mut buffer).unwrap().is_none());
    assert_eq!(buffer.len(), 7);
    assert_eq!(decoder.state(), DecoderState::WaitingHeader);
}

#[test]
fn header_without_payload_waits_for_payload() {
    let mut buffer = BytesMut::from(&[1u8, 0, 0, 0, 0, 0, 0, 5, b'h', b'e'][..]);
    let mut decoder = TtyDecoder::new();
    assert!(decoder.decode(&mut buffer).unwrap().is_none());
    assert_eq!(
        decoder.state(),
        DecoderState::WaitingPayload { length: 5, origin: Origin::StdOut }
    );
    assert_eq!(&buffer[..], b"he");
    buffer.extend_from_slice(b"ll");
    assert!(decoder.decode(&mut buffer).unwrap().is_none());
    assert_eq!(&buffer[..], b"hell");
    buffer.extend_from_slice(b"o");
    let chunk = decoder.decode(&mut buffer).unwrap().unwrap();
    assert_eq!(chunk.to_vec(), b"hello".to_vec());
    assert_eq!(decoder.state(), DecoderState::WaitingHeader);
}

#[test]
fn empty_payload_is_a_chunk() {
    let mut buffer = BytesMut::from(&encode(0, b"")[..]);
    let mut decoder = TtyDecoder::new();
    let chunk = decoder.decode(&mut buffer).unwrap().unwrap();
    assert!(matches!(chunk, TtyChunk::StdIn(_)));
    assert!(chunk.to_vec().is_empty());
    assert_eq!(decoder.state(), DecoderState::WaitingHeader);
}

#[test]
fn unknown_origin_is_invalid_response_and_consumes_nothing() {
    let wire = [3u8, 0, 0, 0, 0, 0, 0, 1, b'x', 1, 0, 0, 0, 0, 0, 0, 0];
    let mut buffer = BytesMut::from(&wire[..]);
    let mut decoder = TtyDecoder::new();
    match decoder.decode(&mut buffer) {
        Err(Error::InvalidResponse(cause)) => {
            assert_eq!(cause, "invalid stream number from docker daemon: '3'");
        }
        other => panic!("expected InvalidResponse, got {:?}", other),
    }
    assert_eq!(&buffer[..], &wire[..]);
    assert_eq!(decoder.state(), DecoderState::WaitingHeader);
    assert!(matches!(decoder.decode(&mut buffer), Err(Error::InvalidResponse(_))));
    assert_eq!(&buffer[..], &wire[..]);
}

#[test]
fn unknown_origin_message_names_the_byte() {
    let mut buffer = BytesMut::from(&[200u8, 0, 0, 0, 0, 0, 0, 0][..]);
    match TtyDecoder::new().decode(&mut buffer) {
        Err(Error::InvalidResponse(cause)) => {
            assert_eq!(cause, "invalid stream number from docker daemon: '200'");
        }
        other => panic!("expected InvalidResponse, got {:?}", other),
    }
}

#[test]
fn unknown_origin_after_good_frames_keeps_them() {
    let mut wire = encode(1, b"ok");
    wire.extend_from_slice(&encode(7, b"bad"));
    let mut buffer = BytesMut::from(&wire[..]);
    let mut decoder = TtyDecoder::new();
    let (chunks, result) = decoder.decode_available(&mut buffer);
    assert_eq!(chunks.len(), 1);
    assert_eq!(chunks[0].to_vec(), b"ok".to_vec());
    assert!(matches!(result, Err(Error::InvalidResponse(_))));
    assert_eq!(&buffer[..], &encode(7, b"bad")[..]);
}

#[test]
fn decoding_inverts_encoding_one_byte_at_a_time() {
    let frames: Vec<(u8, Vec<u8>)> = vec![
        (1, b"hello".to_vec()),
        (2, b"".to_vec()),
        (0, vec![0, 1, 2, 3, 255]),
        (1, b"world!".to_vec()),
    ];
    let mut wire = Vec::new();
    for (origin, payload) in &frames {
        wire.extend_from_slice(&encode(*origin, payload));
    }
    let (out, decoder, buffer) = feed_in_steps(&wire, 1);
    assert_eq!(out, frames);
    assert_eq!(decoder.state(), DecoderState::WaitingHeader);
    assert!(buffer.is_empty());
}

#[test]
fn decoding_inverts_encoding_for_every_step_size() {
    let frames: Vec<(u8, Vec<u8>)> = vec![
        (2, vec![9; 17]),
        (0, vec![]),
        (1, vec![1, 2, 3]),
        (1, vec![4; 40]),
    ];
    let mut wire = Vec::new();
    for (origin, payload) in &frames {
        wire.extend_from_slice(&encode(*origin, payload));
    }
    for step in 1..=wire.len() {
        let (out, decoder, buffer) = feed_in_steps(&wire, step);
        assert_eq!(out, frames, "step {}", step);
        assert_eq!(decoder.state(), DecoderState::WaitingHeader);
        assert!(buffer.is_empty());
    }
}

#[test]
fn decoding_inverts_encoding_of_a_large_payload() {
    let payload: Vec<u8> = (0..65536u32).map(|i| (i % 251) as u8).collect();
    let wire = encode(1, &payload);
    for step in [1usize, 7, 8, 4096, 65536, 65544] {
        let (out, decoder, buffer) = feed_in_steps(&wire, step);
        assert_eq!(out.len(), 1);
        assert_eq!(out[0].0, 1);
        assert_eq!(out[0].1, payload);
        assert_eq!(decoder.state(), DecoderState::WaitingHeader);
        assert!(buffer.is_empty());
    }
}

#[test]
fn truncated_stream_emits_no_partial_chunk() {
    let mut wire = encode(1, b"first");
    wire.extend_from_slice(&encode(2, b"second"));
    for cut in 0..wire.len() {
        let (out, _, _) = feed_in_steps(&wire[..cut], 3);
        let whole = if cut >= 13 { 1 } else { 0 };
        assert_eq!(out.len(), whole, "cut {}", cut);
        if whole == 1 {
            assert_eq!(out[0], (1, b"first".to_vec()));
        }
    }
}

#[test]
fn decode_available_leaves_the_unfinished_frame() {
    let mut wire = encode(1, b"a");
    wire.extend_from_slice(&encode(2, b"bc"));
    wire.extend_from_slice(&[0, 0, 0]);
    let mut buffer = BytesMut::from(&wire[..]);
    let mut decoder = TtyDecoder::new();
    let (chunks, result) = decoder.decode_available(&mut buffer);
    assert!(result.is_ok());
    assert_eq!(chunks.len(), 2);
    assert_eq!(chunks[0].origin(), Origin::StdOut);
    assert_eq!(chunks[1].origin(), Origin::StdErr);
    assert_eq!(chunks[1].to_vec(), b"bc".to_vec());
    assert_eq!(&buffer[..], &[0, 0, 0]);
    assert_eq!(decoder.state(), DecoderState::WaitingHeader);
}

#[test]
fn chunk_new_tags_the_payload() {
    let chunk = TtyChunk::new(Origin::StdErr, BytesMut::from(&b"oops"[..]));
    assert!(matches!(chunk, TtyChunk::StdErr(_)));
    assert_eq!(chunk.to_vec(), b"oops".to_vec());
    let copy = chunk.clone();
    assert_eq!(copy.origin(), Origin::StdErr);
    assert_eq!(copy.to_vec(), b"oops".to_vec());
}

#[test]
fn multiplexer_splits_into_its_halves() {
    let session = Multiplexer::new(vec![1u8, 2, 3], String::from("stdin"));
    let (reader, writer) = session.split();
    assert_eq!(reader, vec![1u8, 2, 3]);
    assert_eq!(writer, "stdin");
}
