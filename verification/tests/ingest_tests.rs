use search_controller::ingest::{
    document_key, producer_line, Accepted, ConsumerAction, ConsumerEvent, DocumentBatch,
    ProducerLine, KAFKA_ERROR_PAUSE_MS,
};

#[test]
fn batch_buffers_until_full() {
    let mut b = DocumentBatch::new(2);
    assert!(b.is_empty());
    assert!(matches!(b.accept(Some(br#"{"id":"1"}"#)), Accepted::Buffered));
    assert_eq!(b.len(), 1);
    assert!(matches!(b.accept(Some(br#"{"id":"2"}"#)), Accepted::Full));
    assert_eq!(b.len(), 2);
    assert_eq!(b.request_body(), br#"[{"id":"1"},{"id":"2"}]"#.to_vec());
    b.clear();
    assert!(b.is_empty());
    assert_eq!(b.request_body(), b"[]".to_vec());
}

#[test]
fn batch_ignores_missing_and_rejects_invalid_payloads() {
    let mut b = DocumentBatch::new(10);
    assert!(matches!(b.accept(None), Accepted::Ignored));
    assert!(matches!(b.accept(Some(b"not json")), Accepted::Rejected));
    assert!(matches!(b.accept(Some(b"{\"id\": 1")), Accepted::Rejected));
    assert!(b.is_empty());
    assert!(matches!(b.accept(Some(b" [1, 2] ")), Accepted::Buffered));
    assert_eq!(b.request_body(), b"[[1,2]]".to_vec());
}

#[test]
fn batch_of_size_zero_is_always_due() {
    let mut b = DocumentBatch::new(0);
    assert!(matches!(b.accept(Some(b"1")), Accepted::Full));
}

#[test]
fn flush_body_is_a_json_array_of_the_documents() {
    let mut b = DocumentBatch::new(100);
    let docs: Vec<&[u8]> = vec![
        br#"{"id": "1", "title": "Rust Programming", "content": "Learn Rust language"}"#,
        br#"{"id": "2", "title": "Kubernetes Guide", "content": "Deploy containers"}"#,
        br#"{"id": "3", "title": "Search Engines", "content": "Full text search"}"#,
    ];
    for d in &docs {
        assert!(matches!(b.accept(Some(d)), Accepted::Buffered));
    }
    let body = b.request_body();
    let parsed: serde_json::Value = serde_json::from_slice(&body).unwrap();
    let arr = parsed.as_array().unwrap();
    assert_eq!(arr.len(), 3);
    assert_eq!(arr[0]["title"], "Rust Programming");
    assert_eq!(arr[2]["id"], "3");
}

#[test]
fn producer_keys() {
    assert_eq!(document_key(Some("42")), "42");
    assert_eq!(document_key(None), "unknown");
}

#[test]
fn flush_body_is_what_serde_json_writes_for_the_parsed_documents() {
    let mut b = DocumentBatch::new(10);
    let raw: Vec<&[u8]> = vec![br#"{ "b": 1, "a": [true, null] }"#, br#"  "text"  "#, b"12.5"];
    for d in &raw {
        b.accept(Some(d));
    }
    let values: Vec<serde_json::Value> =
        raw.iter().map(|d| serde_json::from_slice(d).unwrap()).collect();
    assert_eq!(b.request_body(), serde_json::to_vec(&values).unwrap());
}

#[test]
fn producer_lines() {
    assert!(matches!(producer_line(""), ProducerLine::Skip));
    assert!(matches!(producer_line(" \t\u{3000} "), ProducerLine::Skip));
    assert!(matches!(producer_line("{oops"), ProducerLine::Invalid));
    match producer_line(r#"{"id": "7", "title": "x"}"#) {
        ProducerLine::Send { key } => assert_eq!(key, "7"),
        _ => panic!("expected a document"),
    }
    match producer_line(r#"  {"id": 7}  "#) {
        ProducerLine::Send { key } => assert_eq!(key, "unknown"),
        _ => panic!("expected a document"),
    }
    match producer_line("[1]") {
        ProducerLine::Send { key } => assert_eq!(key, "unknown"),
        _ => panic!("expected a document"),
    }
}

#[test]
fn producer_line_unicode_white_space_is_blank_and_other_text_is_not() {
    assert!(matches!(producer_line("\u{85}\u{a0}\u{1680}\u{2000}\u{200a}\u{2028}\u{2029}\u{202f}\u{205f}\n\r\u{b}\u{c}"), ProducerLine::Skip));
    assert!(matches!(producer_line("\u{200b}"), ProducerLine::Invalid));
    match producer_line(r#"{"id": "a b", "id2": "x"}"#) {
        ProducerLine::Send { key } => assert_eq!(key, "a b"),
        _ => panic!("expected a document"),
    }
    match producer_line(r#"{"other": "x"}"#) {
        ProducerLine::Send { key } => assert_eq!(key, "unknown"),
        _ => panic!("expected a document"),
    }
}

#[test]
fn consumer_step_flushes_full_batches_and_reports_invalid_payloads() {
    let mut b = DocumentBatch::new(2);
    assert!(matches!(b.step(ConsumerEvent::Received(None)), ConsumerAction::Continue));
    assert!(matches!(b.step(ConsumerEvent::Received(Some(b"{oops"))), ConsumerAction::ReportInvalid));
    assert_eq!(b.len(), 0);
    assert!(matches!(b.step(ConsumerEvent::Received(Some(br#"{"id": 1}"#))), ConsumerAction::Continue));
    assert!(matches!(b.step(ConsumerEvent::Received(Some(br#"{"id": 2}"#))), ConsumerAction::FlushAndCommit));
    assert_eq!(b.request_body(), br#"[{"id":1},{"id":2}]"#.to_vec());
}

#[test]
fn consumer_step_pauses_after_kafka_errors() {
    let mut b = DocumentBatch::new(5);
    b.accept(Some(b"1"));
    match b.step(ConsumerEvent::ReceiveFailed) {
        ConsumerAction::Pause { ms } => assert_eq!(ms, 1000),
        _ => panic!("expected a pause"),
    }
    assert_eq!(KAFKA_ERROR_PAUSE_MS, 1000);
    assert_eq!(b.len(), 1);
}

#[test]
fn consumer_step_flushes_on_timeout_only_when_documents_wait() {
    let mut b = DocumentBatch::new(5);
    assert!(matches!(b.step(ConsumerEvent::TimedOut), ConsumerAction::Continue));
    b.accept(Some(b"true"));
    assert!(matches!(b.step(ConsumerEvent::TimedOut), ConsumerAction::FlushAndCommit));
    assert_eq!(b.len(), 1);
}
