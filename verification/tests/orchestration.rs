use caption_stream::assets::{content_type, route_asset, AssetDecision};
use caption_stream::channel::EventQueue;
use caption_stream::event::{encode_caption, encode_event, GenerationEvent};
use caption_stream::gateway::{handle_upload, UploadOutcome};
use caption_stream::generate::{join_fragments, GenConfig, Phase, Session};
use caption_stream::lock::LockQueue;

fn config(max_steps: usize) -> GenConfig {
    GenConfig { max_steps, start_token: 0, eos_token: 2 }
}

fn status(text: &str) -> GenerationEvent {
    GenerationEvent::Status(String::from(text))
}

fn token(text: &str) -> GenerationEvent {
    GenerationEvent::Token(String::from(text))
}

#[test]
fn encode_status_event() {
    assert_eq!(encode_event(&status("Done")), "{\"status\":\"Done\"}");
    assert_eq!(
        encode_event(&status("Loading model...")),
        "{\"status\":\"Loading model...\"}"
    );
}

#[test]
fn encode_token_event() {
    assert_eq!(
        encode_event(&token("hi")),
        "{\"status\":\"token\",\"token\":\"hi\"}"
    );
}

#[test]
fn encode_escapes_embedded_text() {
    assert_eq!(
        encode_event(&status("a\"b\\c\n")),
        "{\"status\":\"a\\\"b\\\\c\\n\"}"
    );
    // The framing must agree with the encoder the protocol names.
    let expected = format!("{{\"status\":{}}}", serde_json::to_string("a\"b\\c\n").unwrap());
    assert_eq!(encode_event(&status("a\"b\\c\n")), expected);
}

#[test]
fn encode_caption_message() {
    assert_eq!(encode_caption("a cat"), "{\"caption\":\"a cat\"}");
}

#[test]
fn queue_is_fifo() {
    let mut q = EventQueue::new(100);
    assert!(q.try_send(status("one")));
    assert!(q.try_send(token("two")));
    assert!(q.try_send(status("three")));
    assert_eq!(q.recv(), Some(status("one")));
    assert_eq!(q.recv(), Some(token("two")));
    assert_eq!(q.recv(), Some(status("three")));
    assert_eq!(q.recv(), None);
}

#[test]
fn queue_refuses_when_full() {
    let mut q = EventQueue::new(2);
    assert!(q.try_send(status("a")));
    assert!(q.try_send(status("b")));
    assert!(!q.try_send(status("c")));
    assert_eq!(q.len(), 2);
}

#[test]
fn queue_close_is_end_of_stream() {
    let mut q = EventQueue::new(100);
    assert!(q.try_send(status("Done")));
    q.close();
    assert!(!q.try_send(status("late")));
    // Pending events are still delivered, then the stream ends.
    assert_eq!(q.recv(), Some(status("Done")));
    assert_eq!(q.recv(), None);
}

#[test]
fn lock_grants_in_arrival_order() {
    let mut l = LockQueue::new();
    l.request(1);
    l.request(2);
    assert_eq!(l.try_grant(), Some(1));
    // The resource is held: nobody else gets it.
    assert_eq!(l.try_grant(), None);
    assert!(l.is_known(1));
    l.release(1);
    assert_eq!(l.try_grant(), Some(2));
    l.release(2);
    assert_eq!(l.try_grant(), None);
}

#[test]
fn upload_without_input_is_rejected() {
    match handle_upload(None, config(1000)) {
        UploadOutcome::Rejected(e) => {
            assert_eq!(encode_event(&e), "{\"status\":\"Error: no image found\"}");
        }
        UploadOutcome::Accepted(..) => panic!("a request without input must be rejected"),
    }
}

#[test]
fn upload_with_input_opens_a_session() {
    match handle_upload(Some(vec![1u8, 2, 3]), config(1000)) {
        UploadOutcome::Rejected(_) => panic!("a request with input must be accepted"),
        UploadOutcome::Accepted(s, evs, bytes) => {
            assert_eq!(s.phase, Phase::Loading);
            assert_eq!(bytes, vec![1u8, 2, 3]);
            assert_eq!(evs.len(), 2);
            assert_eq!(encode_event(&evs[0]), "{\"status\":\"Loading model...\"}");
            assert_eq!(encode_event(&evs[1]), "{\"status\":\"Loading image...\"}");
        }
    }
}

#[test]
fn successful_run_streams_in_order() {
    let (mut s, startup) = Session::start(config(1000));
    let mut wire: Vec<String> = startup.iter().map(|e| encode_event(e)).collect();
    s.on_encode_ok();
    assert_eq!(s.next_decode_start(), 0);
    let (evs, done) = s.on_token(5, Some(String::from("a")));
    assert!(!done);
    wire.extend(evs.iter().map(|e| encode_event(e)));
    assert_eq!(s.next_decode_start(), 1);
    let (evs, done) = s.on_token(9, None);
    assert!(!done);
    wire.extend(evs.iter().map(|e| encode_event(e)));
    let (evs, done) = s.on_token(2, Some(String::from("b")));
    assert!(done);
    wire.extend(evs.iter().map(|e| encode_event(e)));
    let evs = s.on_flush(Some(String::from("c")));
    wire.extend(evs.iter().map(|e| encode_event(e)));
    let evs = s.on_reset();
    wire.extend(evs.iter().map(|e| encode_event(e)));
    assert_eq!(s.phase, Phase::Finished);
    assert_eq!(s.reset_done, true);
    assert_eq!(
        wire,
        vec![
            "{\"status\":\"Loading model...\"}".to_string(),
            "{\"status\":\"Loading image...\"}".to_string(),
            "{\"status\":\"token\",\"token\":\"a\"}".to_string(),
            "{\"status\":\"token\",\"token\":\"b\"}".to_string(),
            "{\"status\":\"token\",\"token\":\"c\"}".to_string(),
            "{\"status\":\"Done\"}".to_string(),
        ]
    );
}

#[test]
fn loop_stops_exactly_at_cap_without_end_marker() {
    let (mut s, _) = Session::start(config(5));
    s.on_encode_ok();
    let mut decode_steps: usize = 0;
    let mut done = false;
    while !done {
        // A sampler stub that never returns the end marker.
        let (_, d) = s.on_token(7, None);
        decode_steps += 1;
        done = d;
    }
    assert_eq!(decode_steps, 5);
    assert_eq!(s.steps, 5);
    assert_eq!(s.phase, Phase::Cleanup);
}

#[test]
fn loop_stops_at_end_marker_before_cap() {
    // Cap 1000, end marker 2, sampler returns 5, 9, 2: exactly 3 steps.
    let (mut s, _) = Session::start(config(1000));
    s.on_encode_ok();
    let mut decode_steps: usize = 0;
    for t in [5u32, 9, 2] {
        let (_, done) = s.on_token(t, None);
        decode_steps += 1;
        if done {
            break;
        }
    }
    assert_eq!(decode_steps, 3);
    assert_eq!(s.steps, 3);
    assert_eq!(s.phase, Phase::Cleanup);
    assert_eq!(s.token_ids, vec![0u32, 5, 9, 2]);
}

#[test]
fn failed_run_still_resets_and_next_run_is_clean() {
    // First request: the encode step fails.
    let (mut s, _) = Session::start(config(1000));
    let evs = s.on_failure(String::from("corrupt image"));
    assert_eq!(evs.len(), 1);
    assert_eq!(
        encode_event(&evs[0]),
        "{\"status\":\"Error: corrupt image\"}"
    );
    let evs = s.on_reset();
    assert!(evs.is_empty());
    assert_eq!(s.phase, Phase::Finished);
    assert!(s.reset_done);

    // Second request immediately after: a normal run.
    let (mut s2, _) = Session::start(config(1000));
    s2.on_encode_ok();
    let (_, done) = s2.on_token(2, Some(String::from("ok")));
    assert!(done);
    s2.on_flush(None);
    let evs = s2.on_reset();
    assert_eq!(encode_event(&evs[0]), "{\"status\":\"Done\"}");
    assert!(s2.reset_done);
}

#[test]
fn disconnected_client_aborts_silently_after_reset() {
    let (mut s, _) = Session::start(config(1000));
    s.on_encode_ok();
    let (_, done) = s.on_token(5, Some(String::from("a")));
    assert!(!done);
    s.abort();
    assert_eq!(s.phase, Phase::Cleanup);
    let evs = s.on_reset();
    // Nothing further is delivered to a gone client.
    assert!(evs.is_empty());
    assert!(s.reset_done);
    assert_eq!(s.phase, Phase::Finished);
}

#[test]
fn asset_routing() {
    assert_eq!(route_asset("evil.js"), AssetDecision::NotFound);
    assert_eq!(content_type(&AssetDecision::NotFound), None);
    assert_eq!(route_asset("index-abc.js"), AssetDecision::Script);
    assert_eq!(
        content_type(&AssetDecision::Script),
        Some("application/javascript")
    );
    assert_eq!(route_asset("index-style.css"), AssetDecision::Stylesheet);
    assert_eq!(content_type(&AssetDecision::Stylesheet), Some("text/css"));
    assert_eq!(route_asset("index-"), AssetDecision::Stylesheet);
    assert_eq!(route_asset("index"), AssetDecision::NotFound);
    assert_eq!(route_asset(""), AssetDecision::NotFound);
}

#[test]
fn caption_assembly_joins_fragments_in_order() {
    let parts = vec![String::from("a "), String::from("hand"), String::from("written note")];
    assert_eq!(join_fragments(&parts), "a handwritten note");
    assert_eq!(join_fragments(&Vec::new()), "");
}
