use boxed_body::{
    drain_ready, BodySize, BoxBody, Cause, ChunkedBody, DrainEnd, ErrorKind,
    IntoBoxBody, Message, MessageBody, Next,
};
use bytes::Bytes;

fn chunked(pieces: Vec<Vec<u8>>, failure: Option<&str>) -> ChunkedBody<Message> {
    let chunks: Vec<Bytes> = pieces.into_iter().map(Bytes::from).collect();
    ChunkedBody::new(chunks, failure.map(|t| Message { text: t.to_string() }))
}

fn drain_all<B: MessageBody>(body: &mut B) -> Result<Vec<u8>, B::Error> {
    let mut out = Vec::new();
    loop {
        let (bytes, end) = drain_ready(body);
        out.extend_from_slice(&bytes);
        match end {
            DrainEnd::Pending => {}
            DrainEnd::End => return Ok(out),
            DrainEnd::Failed(e) => return Err(e),
        }
    }
}

#[test]
fn nested_boxed_body() {
    let body = Bytes::from_static(&[1, 2, 3]);
    let mut boxed_body = BoxBody::new(BoxBody::new(body));

    assert_eq!(
        Bytes::from(drain_all(&mut boxed_body).ok().unwrap()),
        Bytes::from(vec![1, 2, 3]),
    );
}

#[test]
fn erased_once_and_twice_drain_alike() {
    let mut once = Bytes::from_static(&[1, 2, 3]).boxed();
    let mut twice = Bytes::from_static(&[1, 2, 3]).boxed().boxed();
    assert_eq!(drain_all(&mut once).ok().unwrap(), vec![1, 2, 3]);
    assert_eq!(drain_all(&mut twice).ok().unwrap(), vec![1, 2, 3]);
}

#[test]
fn drain_keeps_every_chunk_in_order() {
    let body = chunked(vec![vec![1, 2], vec![], vec![3], vec![4, 5]], None);
    let mut boxed = BoxBody::new(body);
    let (all, end) = drain_ready(&mut boxed);
    assert_eq!(all, vec![1, 2, 3, 4, 5]);
    assert!(matches!(end, DrainEnd::End));
}

#[test]
fn size_passes_through_every_category() {
    let empty = BoxBody::new(chunked(vec![], None));
    assert_eq!(empty.size(), BodySize::Empty);
    let unsized_body = BoxBody::new(chunked(vec![vec![9]], None));
    assert_eq!(unsized_body.size(), BodySize::Unsized);
    let sized = BoxBody::new(Bytes::from_static(b"hello"));
    assert_eq!(sized.size(), BodySize::Sized(5));
    let nested = BoxBody::new(BoxBody::new(Bytes::from_static(b"hi")));
    assert_eq!(nested.size(), BodySize::Sized(2));
    assert_eq!(Bytes::new().size(), BodySize::Sized(0));
}

#[test]
fn take_complete_returns_payload_once() {
    let mut boxed = BoxBody::new(Bytes::from_static(&[7, 8, 9]));
    assert!(boxed.is_complete_body());
    assert_eq!(boxed.take_complete_body(), Bytes::from_static(&[7, 8, 9]));
    assert!(boxed.take_complete_body().is_empty());
    assert!(matches!(boxed.poll_next(), Next::End));
}

#[test]
fn streamed_body_is_not_complete() {
    let boxed = BoxBody::new(chunked(vec![vec![1]], None));
    assert!(!boxed.is_complete_body());
}

#[test]
fn failure_keeps_its_cause() {
    let mut boxed = BoxBody::new(chunked(vec![vec![1]], Some("disk gone")));
    let (bytes, end) = drain_ready(&mut boxed);
    assert_eq!(bytes, vec![1]);
    match end {
        DrainEnd::Failed(err) => {
            assert_eq!(err.kind(), ErrorKind::Body);
            assert_eq!(err.cause().description(), "disk gone");
            assert_eq!(err.description(), "disk gone");
        }
        _ => panic!("expected a failure"),
    }
}

#[test]
fn failure_through_two_layers_keeps_its_cause() {
    let mut boxed = BoxBody::new(BoxBody::new(chunked(vec![], Some("bad frame"))));
    match boxed.poll_next() {
        Next::Failed(err) => assert_eq!(err.cause().description(), "bad frame"),
        _ => panic!("expected a failure"),
    }
}

#[test]
fn end_is_fused() {
    let mut boxed = BoxBody::new(Bytes::from_static(&[4]));
    assert!(matches!(boxed.poll_next(), Next::Chunk(_)));
    assert!(matches!(boxed.poll_next(), Next::End));
    assert!(matches!(boxed.poll_next(), Next::End));
    assert!(matches!(boxed.poll_next(), Next::End));
}

#[test]
fn failure_is_fused() {
    let mut boxed = BoxBody::new(chunked(vec![], Some("once")));
    assert!(matches!(boxed.poll_next(), Next::Failed(_)));
    assert!(matches!(boxed.poll_next(), Next::End));
    assert!(matches!(boxed.poll_next(), Next::End));
}

#[test]
fn empty_buffer_ends_at_once() {
    let mut boxed = BoxBody::new(Bytes::new());
    let (bytes, end) = drain_ready(&mut boxed);
    assert!(bytes.is_empty());
    assert!(matches!(end, DrainEnd::End));
}

#[test]
fn chunk_holds_the_bytes_given() {
    let mut body = Bytes::from(vec![10, 20, 30]);
    match body.poll_next() {
        Next::Chunk(c) => assert_eq!(c.to_vec(), vec![10, 20, 30]),
        _ => panic!("expected a chunk"),
    }
}

#[test]
fn chunked_body_is_driven_directly_alike() {
    let mut direct = chunked(vec![vec![1], vec![2, 3]], None);
    let mut boxed = BoxBody::new(chunked(vec![vec![1], vec![2, 3]], None));
    assert_eq!(drain_all(&mut direct).ok().unwrap(), drain_all(&mut boxed).ok().unwrap());
}

#[test]
fn collapse_keeps_one_error_layer() {
    let once = BoxBody::new(chunked(vec![vec![1]], Some("late")));
    let mut twice = once.boxed();
    let (bytes, end) = drain_ready(&mut twice);
    assert_eq!(bytes, vec![1]);
    match end {
        DrainEnd::Failed(err) => assert_eq!(err.cause().description(), "late"),
        _ => panic!("expected a failure"),
    }
}

#[test]
fn debug_string_names_the_erased_body() {
    let boxed = BoxBody::new(Bytes::from_static(&[1]));
    assert_eq!(boxed.debug_string(), "BoxBody(dyn MessageBody)");
}

#[test]
fn size_eof() {
    assert!(BodySize::Empty.is_eof());
    assert!(BodySize::Sized(0).is_eof());
    assert!(!BodySize::Sized(1).is_eof());
    assert!(!BodySize::Unsized.is_eof());
}

#[test]
fn as_pin_mut_reaches_the_inner_body() {
    let mut boxed = BoxBody::new(Bytes::from_static(&[6, 6]));
    match boxed.as_pin_mut().poll_next() {
        Next::Chunk(c) => assert_eq!(c.to_vec(), vec![6, 6]),
        _ => panic!("expected a chunk"),
    }
    assert!(matches!(boxed.poll_next(), Next::End));
}

#[test]
fn message_describes_itself() {
    let m = Message { text: "plain".to_string() };
    assert_eq!(m.description(), "plain");
}

#[test]
fn chunked_body_erases_through_boxed() {
    let mut erased = chunked(vec![vec![1], vec![2]], Some("stop")).boxed().boxed();
    assert_eq!(erased.size(), BodySize::Unsized);
    let (bytes, end) = drain_ready(&mut erased);
    assert_eq!(bytes, vec![1, 2]);
    match end {
        DrainEnd::Failed(err) => assert_eq!(err.cause().description(), "stop"),
        _ => panic!("expected a failure"),
    }
}
