use krill::error::KrillError;
use krill::sse::{parse_sse_line, trim_newline_suffix, SseDecoder};

fn payloads(items: Vec<Result<String, KrillError>>) -> Vec<String> {
    items
        .into_iter()
        .map(|i| match i {
            Ok(s) => s,
            Err(e) => panic!("unexpected error {:?}", e),
        })
        .collect()
}

#[test]
fn trim_newline_suffix_strips_lf_then_cr() {
    let mut a = b"abc\r\n".to_vec();
    trim_newline_suffix(&mut a);
    assert_eq!(a, b"abc".to_vec());
    let mut b = b"abc\n".to_vec();
    trim_newline_suffix(&mut b);
    assert_eq!(b, b"abc".to_vec());
    let mut c = b"abc".to_vec();
    trim_newline_suffix(&mut c);
    assert_eq!(c, b"abc".to_vec());
    let mut d = b"abc\r".to_vec();
    trim_newline_suffix(&mut d);
    assert_eq!(d, b"abc".to_vec());
    let mut e = b"\n\r".to_vec();
    trim_newline_suffix(&mut e);
    assert_eq!(e, b"\n".to_vec());
    let mut f: Vec<u8> = Vec::new();
    trim_newline_suffix(&mut f);
    assert!(f.is_empty());
}

#[test]
fn parse_sse_line_fields_and_dispatch() {
    let mut ev: Option<String> = None;
    let mut data: Vec<String> = Vec::new();
    assert_eq!(parse_sse_line(": keep-alive", &mut ev, &mut data), None);
    assert_eq!(parse_sse_line("event:   message", &mut ev, &mut data), None);
    assert_eq!(ev.as_deref(), Some("message"));
    assert_eq!(parse_sse_line("data:  first", &mut ev, &mut data), None);
    assert_eq!(parse_sse_line("data:second", &mut ev, &mut data), None);
    assert_eq!(parse_sse_line("id: 7", &mut ev, &mut data), None);
    assert_eq!(data, vec!["first".to_string(), "second".to_string()]);
    assert_eq!(
        parse_sse_line("", &mut ev, &mut data),
        Some("first\nsecond".to_string())
    );
    assert_eq!(ev, None);
    assert!(data.is_empty());
}

#[test]
fn parse_sse_line_blank_without_pending_does_nothing() {
    let mut ev: Option<String> = None;
    let mut data: Vec<String> = Vec::new();
    assert_eq!(parse_sse_line("", &mut ev, &mut data), None);
}

#[test]
fn parse_sse_line_event_without_data_resets() {
    let mut ev: Option<String> = Some("ping".to_string());
    let mut data: Vec<String> = Vec::new();
    assert_eq!(parse_sse_line("", &mut ev, &mut data), None);
    assert_eq!(ev, None);
    let mut data2 = vec![String::new()];
    assert_eq!(parse_sse_line("", &mut ev, &mut data2), None);
    assert!(data2.is_empty());
    let mut data3 = vec![String::new(), String::new()];
    assert_eq!(parse_sse_line("", &mut ev, &mut data3), Some("\n".to_string()));
}

#[test]
fn decoder_dispatches_one_event() {
    let mut d = SseDecoder::new();
    let items = d.feed(b"event: x\ndata: {\"type\":\"HEARTBEAT\"}\n\n");
    assert_eq!(payloads(items), vec!["{\"type\":\"HEARTBEAT\"}".to_string()]);
    assert!(payloads(d.finish()).is_empty());
}

#[test]
fn decoder_ignores_chunk_boundaries() {
    let body: &[u8] = b"data: a\r\n\r\n: c\ndata: b1\ndata:  b2\n\nevent: e\ndata: z";
    let mut whole = SseDecoder::new();
    let mut expected = payloads(whole.feed(body));
    expected.extend(payloads(whole.finish()));
    assert_eq!(expected, vec!["a".to_string(), "b1\nb2".to_string(), "z".to_string()]);
    for cut in 0..=body.len() {
        let mut d = SseDecoder::new();
        let mut got = payloads(d.feed(&body[..cut]));
        got.extend(payloads(d.feed(&body[cut..])));
        got.extend(payloads(d.finish()));
        assert_eq!(got, expected, "cut at {}", cut);
    }
    let mut d = SseDecoder::new();
    let mut got = Vec::new();
    for b in body {
        got.extend(payloads(d.feed(&[*b])));
    }
    got.extend(payloads(d.finish()));
    assert_eq!(got, expected);
}

#[test]
fn decoder_decodes_utf8_lines() {
    let mut d = SseDecoder::new();
    let items = d.feed("data: héllo ✔\n\n".as_bytes());
    assert_eq!(payloads(items), vec!["héllo ✔".to_string()]);
}

#[test]
fn decoder_stops_on_invalid_utf8() {
    let mut d = SseDecoder::new();
    let items = d.feed(b"data: ok\n\ndata: \xff\xfe\n\ndata: later\n\n");
    assert_eq!(items.len(), 2);
    assert_eq!(items[0].as_ref().ok().map(String::as_str), Some("ok"));
    match &items[1] {
        Err(KrillError::Io(e)) => assert_eq!(e.kind(), std::io::ErrorKind::InvalidData),
        other => panic!("unexpected {:?}", other),
    }
    assert!(d.has_failed());
    assert!(d.feed(b"data: more\n\n").is_empty());
    assert!(d.finish().is_empty());
}

#[test]
fn decoder_finish_reports_cut_off_event() {
    let mut d = SseDecoder::new();
    assert!(d.feed(b"event: x\n").is_empty());
    let items = d.finish();
    assert_eq!(items.len(), 1);
    assert!(matches!(items[0], Err(KrillError::SseUnexpectedEnd)));
}

#[test]
fn decoder_finish_dispatches_pending_data() {
    let mut d = SseDecoder::new();
    assert!(d.feed(b"data: one\ndata: two").is_empty());
    assert_eq!(payloads(d.finish()), vec!["one\ntwo".to_string()]);
}

#[test]
fn decoder_finish_keeps_carriage_return_of_last_line() {
    let mut d = SseDecoder::new();
    assert!(d.feed(b"data: x\r").is_empty());
    assert_eq!(payloads(d.finish()), vec!["x\r".to_string()]);
}

#[test]
fn decoder_finish_dispatches_empty_data() {
    let mut d = SseDecoder::new();
    assert!(d.feed(b"data:\n").is_empty());
    assert_eq!(payloads(d.finish()), vec![String::new()]);
}

#[test]
fn decoder_finish_reports_invalid_utf8_in_last_line() {
    let mut d = SseDecoder::new();
    assert!(d.feed(b"data: \xc3").is_empty());
    let items = d.finish();
    assert_eq!(items.len(), 1);
    assert!(matches!(items[0], Err(KrillError::Io(_))));
}

#[test]
fn decoder_finish_with_nothing_pending() {
    let d = SseDecoder::new();
    assert!(d.finish().is_empty());
}
