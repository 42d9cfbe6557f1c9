use parallel_ssh::outcome::Response;
use parallel_ssh::sink::{
    frame_document, frame_record, our_side_failure, overload_failure, Disposition, ResultSink,
    DOCUMENT_CLOSE, DOCUMENT_OPEN,
};
use parallel_ssh::text::text_before;

fn ok(host: &str, out: &str) -> Response {
    Response::from_result(host.to_string(), Ok(out.to_string()), 5)
}

fn failed(host: &str, msg: &str) -> Response {
    Response::from_result(host.to_string(), Err(msg.to_string()), 7)
}

#[test]
fn five_successes_two_failures_one_diverted() {
    let mut sink = ResultSink::new();
    for i in 0..5 {
        sink.consume(ok(&format!("10.0.0.{}:22", i), "up"));
    }
    sink.consume(failed("10.0.0.8:22", "Failed opening channel: refused"));
    let d = sink.consume(failed(
        "10.0.0.9:22",
        "Failed establishing handshake: [-42] connection rejected",
    ));
    assert_eq!(sink.primary.len(), 6);
    assert_eq!(sink.ledger, vec!["10.0.0.9".to_string()]);
    assert_eq!(sink.ok_count, 5);
    assert_eq!(sink.error_count, 2);
    match d {
        Disposition::Diverted { host } => assert_eq!(host, "10.0.0.9"),
        Disposition::Kept { .. } => panic!("an our-side failure was kept"),
    }
}

#[test]
fn agent_signature_is_diverted() {
    let mut sink = ResultSink::new();
    let d = sink.consume(failed("host-a:2222", "Failed connecting to agent: [-19] no agent"));
    assert!(matches!(d, Disposition::Diverted { .. }));
    assert_eq!(sink.ledger, vec!["host-a".to_string()]);
    assert!(sink.primary.is_empty());
    assert_eq!(sink.error_count, 1);
}

#[test]
fn kept_records_are_numbered_in_arrival_order() {
    let mut sink = ResultSink::new();
    let first = sink.consume(ok("a", "x"));
    let second = sink.consume(failed("b", "Error connecting via agent: denied"));
    assert!(matches!(first, Disposition::Kept { index: 0 }));
    assert!(matches!(second, Disposition::Kept { index: 1 }));
    assert_eq!(sink.primary[0].hostname, "a");
    assert_eq!(sink.primary[1].hostname, "b");
    assert!(!sink.primary[1].status);
}

#[test]
fn success_output_mentioning_signature_is_kept() {
    let r = ok("a", "log line [-42]");
    assert!(!our_side_failure(&r));
    assert!(!overload_failure(&r));
    assert!(overload_failure(&failed("a", "x [-42] y")));
    assert!(!overload_failure(&failed("a", "x [-19] y")));
    assert!(our_side_failure(&failed("a", "x [-19] y")));
    assert!(!our_side_failure(&failed("a", "[-4] 2")));
}

#[test]
fn bare_hostname_drops_port() {
    assert_eq!(text_before("192.168.1.1:22", ':'), "192.168.1.1");
    assert_eq!(text_before("no-port", ':'), "no-port");
    assert_eq!(text_before(":22", ':'), "");
    assert_eq!(text_before("", ':'), "");
}

#[test]
fn response_status_follows_result() {
    let s = ok("h", "out");
    assert!(s.status);
    assert_eq!(s.result, "out");
    assert_eq!(s.process_time, 5);
    let f = failed("h", "boom");
    assert!(!f.status);
    assert_eq!(f.result, "boom");
    assert_eq!(f.hostname, "h");
}

#[test]
fn document_framing() {
    assert_eq!(frame_record(0, "{}"), "{}");
    assert_eq!(frame_record(3, "{}"), ",\n{}");
    assert_eq!(frame_document(&vec![]), "[\n\n]");
    let doc = frame_document(&vec!["1".to_string(), "2".to_string(), "3".to_string()]);
    assert_eq!(doc, "[\n1,\n2,\n3\n]");
    let mut incremental = DOCUMENT_OPEN.to_string();
    incremental += &frame_record(0, "1");
    incremental += &frame_record(1, "2");
    incremental += &frame_record(2, "3");
    incremental += DOCUMENT_CLOSE;
    assert_eq!(incremental, doc);
}

fn record_json(r: &Response) -> serde_json::Value {
    let mut m = serde_json::Map::new();
    m.insert("result".to_string(), serde_json::Value::String(r.result.clone()));
    m.insert("hostname".to_string(), serde_json::Value::String(r.hostname.clone()));
    m.insert(
        "process_time".to_string(),
        serde_json::Value::String(format!("{}ms", r.process_time)),
    );
    m.insert("status".to_string(), serde_json::Value::Bool(r.status));
    serde_json::Value::Object(m)
}

#[test]
fn primary_document_parses_back() {
    let stream = vec![
        ok("10.0.0.1:22", "line one\nline \"two\""),
        failed("10.0.0.2:22", "Failed opening channel: denied"),
        failed("10.0.0.3:22", "Failed establishing handshake: [-42] busy"),
        ok("10.0.0.4:22", ""),
    ];
    let mut sink = ResultSink::new();
    let mut texts = Vec::new();
    for r in stream.iter() {
        if let Disposition::Kept { index } = sink.consume(r.clone()) {
            assert_eq!(index, texts.len());
            texts.push(serde_json::to_string_pretty(&record_json(r)).unwrap());
        }
    }
    let doc = frame_document(&texts);
    let parsed: serde_json::Value = serde_json::from_str(&doc).unwrap();
    let items = parsed.as_array().unwrap();
    assert_eq!(items.len(), 3);
    for (item, r) in items.iter().zip(sink.primary.iter()) {
        assert_eq!(item, &record_json(r));
    }
    assert_eq!(items[0]["result"], "line one\nline \"two\"");
    assert_eq!(items[1]["hostname"], "10.0.0.2:22");
    assert_eq!(items[2]["status"], true);
}
