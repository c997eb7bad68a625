use shiplift::stream::{into_string, Chunks, Collected, Materialize, Pulled};
use shiplift::errors::IoKind;
use shiplift::Error;

#[test]
fn materialize_concatenates_all_chunks() {
    let mut body = Materialize::new();
    assert!(body.wants_more());
    assert!(matches!(body.feed(Pulled::Chunk(b"ab".to_vec())), Collected::More));
    assert!(matches!(body.feed(Pulled::Chunk(vec![])), Collected::More));
    assert!(matches!(body.feed(Pulled::Chunk(b"cde".to_vec())), Collected::More));
    assert!(body.wants_more());
    match body.feed(Pulled::End) {
        Collected::Complete(bytes) => assert_eq!(bytes, b"abcde".to_vec()),
        other => panic!("expected the whole body, got {:?}", other),
    }
    assert!(!body.wants_more());
}

#[test]
fn materialize_of_an_empty_body() {
    let mut body = Materialize::new();
    match body.feed(Pulled::End) {
        Collected::Complete(bytes) => assert!(bytes.is_empty()),
        other => panic!("expected the whole body, got {:?}", other),
    }
}

#[test]
fn materialize_fails_with_the_first_error() {
    let mut body = Materialize::new();
    body.feed(Pulled::Chunk(b"partial".to_vec()));
    match body.feed(Pulled::Failed(Error::Hyper("reset".to_string()))) {
        Collected::Failed(Error::Hyper(cause)) => assert_eq!(cause, "reset"),
        other => panic!("expected the failure, got {:?}", other),
    }
    assert!(!body.wants_more());
    assert!(matches!(body.feed(Pulled::Chunk(b"more".to_vec())), Collected::Closed));
    assert!(matches!(body.feed(Pulled::End), Collected::Closed));
    assert!(matches!(body.feed(Pulled::Failed(Error::Decode)), Collected::Closed));
}

#[test]
fn materialize_ignores_pulls_after_the_end() {
    let mut body = Materialize::new();
    body.feed(Pulled::Chunk(b"x".to_vec()));
    body.feed(Pulled::End);
    assert!(matches!(body.feed(Pulled::Chunk(b"y".to_vec())), Collected::Closed));
    assert!(matches!(body.feed(Pulled::End), Collected::Closed));
}

#[test]
fn closed_materialize_takes_nothing() {
    let mut body = Materialize::new();
    body.close();
    assert!(!body.wants_more());
    assert!(matches!(body.feed(Pulled::Chunk(b"y".to_vec())), Collected::Closed));
}

#[test]
fn chunks_pass_through_in_order() {
    let mut chunks = Chunks::new();
    assert!(chunks.wants_pull());
    assert_eq!(chunks.next(Pulled::Chunk(vec![1, 2])).unwrap().unwrap(), vec![1, 2]);
    assert_eq!(chunks.next(Pulled::Chunk(vec![])).unwrap().unwrap(), Vec::<u8>::new());
    assert_eq!(chunks.next(Pulled::Chunk(vec![3])).unwrap().unwrap(), vec![3]);
    assert!(chunks.wants_pull());
    assert!(chunks.next(Pulled::End).is_none());
    assert!(!chunks.wants_pull());
    assert!(chunks.next(Pulled::Chunk(vec![4])).is_none());
}

#[test]
fn chunks_end_with_the_first_error() {
    let mut chunks = Chunks::new();
    assert!(chunks.next(Pulled::Chunk(vec![1])).unwrap().is_ok());
    match chunks.next(Pulled::Failed(Error::IO(IoKind::Other, "eof".to_string()))) {
        Some(Err(Error::IO(IoKind::Other, cause))) => assert_eq!(cause, "eof"),
        other => panic!("expected the failure, got {:?}", other),
    }
    assert!(!chunks.wants_pull());
    assert!(chunks.next(Pulled::Chunk(vec![2])).is_none());
    assert!(chunks.next(Pulled::Failed(Error::Decode)).is_none());
}

#[test]
fn body_as_text() {
    assert_eq!(into_string(b"OK".to_vec()).unwrap(), "OK");
    assert_eq!(into_string("héllo ✓".as_bytes().to_vec()).unwrap(), "héllo ✓");
    assert_eq!(into_string(vec![]).unwrap(), "");
}

#[test]
fn body_that_is_no_text() {
    for bytes in [vec![0xffu8], vec![b'a', 0xc3], vec![0xed, 0xa0, 0x80], vec![0xc0, 0x80]] {
        assert!(matches!(into_string(bytes), Err(Error::Encoding(_))));
    }
}

fn texts(items: Vec<Result<String, Error>>) -> Vec<Option<String>> {
    items
        .into_iter()
        .map(|item| match item {
            Ok(text) => Some(text),
            Err(Error::IO(IoKind::InvalidData, _)) => None,
            Err(other) => panic!("expected an IO error, got {:?}", other),
        })
        .collect()
}

fn s(text: &str) -> Option<String> {
    Some(text.to_string())
}

#[test]
fn whole_lines_are_taken_and_the_rest_is_left() {
    let mut buffer = bytes::BytesMut::from(&b"{\"a\":1}\n{\"b\":2}\r\n\n{\"c\""[..]);
    let items = shiplift::stream::decode_lines(&mut buffer);
    assert_eq!(texts(items), vec![s("{\"a\":1}"), s("{\"b\":2}"), s("")]);
    assert_eq!(&buffer[..], b"{\"c\"");
    assert!(shiplift::stream::decode_lines(&mut buffer).is_empty());
    assert_eq!(&buffer[..], b"{\"c\"");
    buffer.extend_from_slice(b":3}\nrest");
    let items = shiplift::stream::decode_lines(&mut buffer);
    assert_eq!(texts(items), vec![s("{\"c\":3}")]);
    assert_eq!(&buffer[..], b"rest");
}

#[test]
fn a_garbled_line_spoils_only_itself() {
    let mut buffer = bytes::BytesMut::from(&b"good\n\xff\xfe\nalso good\r\n"[..]);
    let items = shiplift::stream::decode_lines(&mut buffer);
    assert_eq!(texts(items), vec![s("good"), None, s("also good")]);
    assert!(buffer.is_empty());
}

#[test]
fn only_one_carriage_return_is_stripped() {
    let mut buffer = bytes::BytesMut::from(&b"a\r\r\n\r\nb\rc\n"[..]);
    let items = shiplift::stream::decode_lines(&mut buffer);
    assert_eq!(texts(items), vec![s("a\r"), s(""), s("b\rc")]);
}

#[test]
fn no_line_feed_means_no_line() {
    let mut buffer = bytes::BytesMut::from(&b"no end yet"[..]);
    assert!(shiplift::stream::decode_lines(&mut buffer).is_empty());
    assert_eq!(&buffer[..], b"no end yet");
    let mut buffer = bytes::BytesMut::new();
    assert!(shiplift::stream::decode_lines(&mut buffer).is_empty());
}

#[test]
fn the_end_of_the_stream_ends_the_last_line() {
    let mut buffer = bytes::BytesMut::from(&b"one\ntwo"[..]);
    let items = shiplift::stream::decode_final_lines(&mut buffer);
    assert_eq!(texts(items), vec![s("one"), s("two")]);
    assert!(buffer.is_empty());
    let mut buffer = bytes::BytesMut::from(&b"one\ntwo\r"[..]);
    assert_eq!(texts(shiplift::stream::decode_final_lines(&mut buffer)), vec![s("one"), s("two")]);
    let mut buffer = bytes::BytesMut::from(&b"one\n\xc3"[..]);
    assert_eq!(texts(shiplift::stream::decode_final_lines(&mut buffer)), vec![s("one"), None]);
    assert!(buffer.is_empty());
}

#[test]
fn the_end_of_the_stream_leaves_a_lone_carriage_return() {
    let mut buffer = bytes::BytesMut::from(&b"one\n\r"[..]);
    assert_eq!(texts(shiplift::stream::decode_final_lines(&mut buffer)), vec![s("one")]);
    assert_eq!(&buffer[..], b"\r");
    let mut buffer = bytes::BytesMut::from(&b"one\n"[..]);
    assert_eq!(texts(shiplift::stream::decode_final_lines(&mut buffer)), vec![s("one")]);
    assert!(buffer.is_empty());
    let mut buffer = bytes::BytesMut::new();
    assert!(shiplift::stream::decode_final_lines(&mut buffer).is_empty());
}

#[test]
fn a_sequence_ends_with_its_first_failure() {
    let mut rule = shiplift::stream::UntilFailure::new();
    assert!(rule.wants_more());
    assert_eq!(rule.pass(Ok::<u8, Error>(1)).unwrap().unwrap(), 1);
    assert_eq!(rule.pass(Ok::<u8, Error>(2)).unwrap().unwrap(), 2);
    assert!(rule.wants_more());
    match rule.pass(Err::<u8, Error>(Error::InvalidResponse("bad".to_string()))) {
        Some(Err(Error::InvalidResponse(cause))) => assert_eq!(cause, "bad"),
        other => panic!("expected the failure, got {:?}", other),
    }
    assert!(!rule.wants_more());
    assert!(rule.pass(Ok::<u8, Error>(3)).is_none());
    assert!(rule.pass(Err::<u8, Error>(Error::Decode)).is_none());
    assert!(!rule.wants_more());
}
