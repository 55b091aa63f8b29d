use lambda_adapter::body::{normalize_body, RequestBody};
use lambda_adapter::drain::{drain_step, DrainOutcome, PullEvent, ResponseAssembly};
use lambda_adapter::event::{decode_event, InboundEvent};
use lambda_adapter::handler::{
    adapt_readiness, into_success, HandlerOutcome, HandlerPoll, Readiness,
};
use lambda_adapter::service_fn;

#[test]
fn empty_body_normalizes_to_no_bytes() {
    let bytes = normalize_body(RequestBody::Empty);
    assert_eq!(bytes, Vec::<u8>::new());
}

#[test]
fn text_body_normalizes_to_utf8_bytes() {
    let bytes = normalize_body(RequestBody::Text(String::from("hello")));
    assert_eq!(bytes, b"hello".to_vec());
}

#[test]
fn multibyte_text_normalizes_to_utf8_bytes() {
    let text = String::from("na\u{ef}ve \u{2603}");
    let expected = text.as_bytes().to_vec();
    let bytes = normalize_body(RequestBody::Text(text));
    assert_eq!(bytes, expected);
}

#[test]
fn binary_body_passes_through() {
    let bytes = normalize_body(RequestBody::Binary(vec![0x00, 0xFF, 0x10]));
    assert_eq!(bytes, vec![0x00, 0xFF, 0x10]);
}

#[test]
fn decode_keeps_metadata_and_normalizes_body() {
    let event = InboundEvent {
        meta: String::from("GET /items?q=1"),
        body: RequestBody::Text(String::from("hi")),
    };
    let request = decode_event(event);
    assert_eq!(request.meta, "GET /items?q=1");
    assert_eq!(request.body, b"hi".to_vec());
}

#[test]
fn drain_no_chunks_yields_empty_body() {
    let assembly: ResponseAssembly<u16> = ResponseAssembly::new(204);
    let out = assembly.finish();
    assert_eq!(out.meta, 204);
    assert_eq!(out.body, Vec::<u8>::new());
}

#[test]
fn drain_single_chunk_yields_that_chunk() {
    let mut assembly: ResponseAssembly<u16> = ResponseAssembly::new(200);
    assembly.push_chunk(vec![1, 2, 3]);
    let out = assembly.finish();
    assert_eq!(out.body, vec![1, 2, 3]);
}

#[test]
fn drain_keeps_chunk_order() {
    let mut assembly: ResponseAssembly<u16> = ResponseAssembly::new(200);
    assembly.push_chunk(b"he".to_vec());
    assembly.push_chunk(b"llo".to_vec());
    let out = assembly.finish();
    assert_eq!(out.body, b"hello".to_vec());
}

#[test]
fn drain_step_chunk_then_end_yields_event() {
    let assembly: ResponseAssembly<u16> = ResponseAssembly::new(200);
    let assembly = match drain_step(assembly, PullEvent::Chunk(b"ok".to_vec())) {
        DrainOutcome::InProgress(a) => a,
        _ => panic!("a chunk pull must leave the drain in progress"),
    };
    match drain_step(assembly, PullEvent::End) {
        DrainOutcome::Done(out) => {
            assert_eq!(out.meta, 200);
            assert_eq!(out.body, b"ok".to_vec());
        }
        _ => panic!("an exhausted producer must complete the drain"),
    }
}

#[test]
fn drain_fault_yields_failure_not_event() {
    let assembly: ResponseAssembly<u16> = ResponseAssembly::new(200);
    let assembly = match drain_step(assembly, PullEvent::Chunk(b"partial".to_vec())) {
        DrainOutcome::InProgress(a) => a,
        _ => panic!("a chunk pull must leave the drain in progress"),
    };
    match drain_step(assembly, PullEvent::Fault(String::from("connection reset"))) {
        DrainOutcome::Failed(msg) => assert_eq!(msg, "connection reset"),
        DrainOutcome::Done(_) => panic!("a failed pull must not produce an outbound event"),
        DrainOutcome::InProgress(_) => panic!("a failed pull must end the invocation"),
    }
}

#[test]
fn readiness_passes_ready_through() {
    assert!(matches!(
        adapt_readiness(HandlerPoll::Ready),
        Readiness::Ready
    ));
}

#[test]
fn readiness_passes_pending_through() {
    assert!(matches!(
        adapt_readiness(HandlerPoll::Pending),
        Readiness::Pending
    ));
}

#[test]
fn handler_success_passes_through() {
    let outcome: HandlerOutcome<u32> = HandlerOutcome::Success(7);
    assert_eq!(into_success(outcome), 7);
}

#[test]
fn service_fn_wraps_the_handler() {
    let adapter = service_fn(41u32);
    assert_eq!(adapter.0, 41);
}

#[test]
fn echo_scenario_empty_body() {
    // Empty inbound body, no headers; the handler answers with status 200
    // and the body "ok".
    let event = InboundEvent {
        meta: Vec::<(String, String)>::new(),
        body: RequestBody::Empty,
    };
    let request = decode_event(event);
    assert_eq!(request.body, Vec::<u8>::new());

    let mut assembly: ResponseAssembly<u16> = ResponseAssembly::new(200);
    assembly.push_chunk(b"ok".to_vec());
    let out = assembly.finish();
    assert_eq!(out.meta, 200);
    assert_eq!(out.body, b"ok".to_vec());
}

#[test]
fn streaming_scenario_text_body() {
    // Text inbound body "hello"; the handler's response streams two chunks,
    // "he" then "llo".
    let event = InboundEvent {
        meta: 0u16,
        body: RequestBody::Text(String::from("hello")),
    };
    let request = decode_event(event);
    assert_eq!(request.body, b"hello".to_vec());

    let mut outcome = DrainOutcome::InProgress(ResponseAssembly::new(200u16));
    for pull in [
        PullEvent::Chunk(b"he".to_vec()),
        PullEvent::Chunk(b"llo".to_vec()),
        PullEvent::End,
    ] {
        let assembly = match outcome {
            DrainOutcome::InProgress(a) => a,
            _ => panic!("the drain must still be in progress"),
        };
        outcome = drain_step(assembly, pull);
    }
    match outcome {
        DrainOutcome::Done(out) => assert_eq!(out.body, b"hello".to_vec()),
        _ => panic!("the drain must have completed"),
    }
}

#[test]
fn echo_scenario_binary_body() {
    // Binary inbound body; the handler returns the same bytes unchanged.
    let event = InboundEvent {
        meta: 0u16,
        body: RequestBody::Binary(vec![0x00, 0xFF, 0x10]),
    };
    let request = decode_event(event);
    assert_eq!(request.body, vec![0x00, 0xFF, 0x10]);

    let mut assembly: ResponseAssembly<u16> = ResponseAssembly::new(200);
    assembly.push_chunk(request.body);
    let out = assembly.finish();
    assert_eq!(out.body, vec![0x00, 0xFF, 0x10]);
}
