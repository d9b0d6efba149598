use reqwest::header::{HeaderMap, HeaderName, HeaderValue, CONTENT_LENGTH, CONTENT_RANGE, CONTENT_TYPE};
use reqwest::StatusCode;
use rget::error::TransferError;
use rget::headers::{header_text, text_of_value};
use rget::response::{classify, interpret_response, plan_transfer, resolve_total_size, Exchange};

fn headers_of(pairs: &[(HeaderName, &str)]) -> HeaderMap {
    let mut headers = HeaderMap::new();
    for (name, value) in pairs {
        headers.append(name.clone(), HeaderValue::from_str(value).unwrap());
    }
    headers
}

#[test]
fn total_comes_from_content_range_when_length_is_absent() {
    let headers = headers_of(&[(CONTENT_RANGE, "bytes 500-999/1000")]);
    let plan = interpret_response(206, &headers, 500).unwrap();
    assert_eq!(plan.total_size, Some(1000));
    assert_eq!(resolve_total_size(None, Some("bytes 500-999/1000")), Some(1000));
}

#[test]
fn total_comes_from_content_length_when_range_is_absent() {
    let headers = headers_of(&[(CONTENT_LENGTH, "500")]);
    let plan = interpret_response(200, &headers, 0).unwrap();
    assert_eq!(plan.total_size, Some(500));
    assert_eq!(resolve_total_size(Some("500"), None), Some(500));
}

#[test]
fn content_length_goes_before_content_range() {
    let headers = headers_of(&[(CONTENT_RANGE, "bytes 100-299/300"), (CONTENT_LENGTH, "200")]);
    let plan = interpret_response(206, &headers, 100).unwrap();
    assert_eq!(plan.total_size, Some(200));
    assert_eq!(resolve_total_size(Some("200"), Some("bytes 100-299/300")), Some(200));
}

#[test]
fn unreadable_content_length_falls_back_to_content_range() {
    assert_eq!(resolve_total_size(Some("many"), Some("bytes 0-9/10")), Some(10));
    assert_eq!(resolve_total_size(Some(""), Some("bytes 0-9/10")), Some(10));
    assert_eq!(resolve_total_size(Some("-5"), Some("bytes 0-9/10")), Some(10));
}

#[test]
fn total_is_unknown_without_a_readable_header() {
    assert_eq!(resolve_total_size(None, None), None);
    assert_eq!(resolve_total_size(None, Some("bytes 0-9/*")), None);
    assert_eq!(resolve_total_size(Some("x"), Some("bytes 0-9/")), None);
    let plan = interpret_response(200, &HeaderMap::new(), 0).unwrap();
    assert_eq!(plan.total_size, None);
}

#[test]
fn content_range_without_slash_is_read_whole() {
    assert_eq!(resolve_total_size(None, Some("1000")), Some(1000));
    assert_eq!(resolve_total_size(None, Some("bytes 0-9")), None);
}

#[test]
fn content_type_defaults_to_octet_stream() {
    let plan = interpret_response(200, &HeaderMap::new(), 0).unwrap();
    assert_eq!(plan.content_type, "application/octet-stream");
    let plan = plan_transfer(200, None, None, None, 0).unwrap();
    assert_eq!(plan.content_type, "application/octet-stream");
}

#[test]
fn content_type_is_taken_as_sent() {
    let headers = headers_of(&[(CONTENT_TYPE, "text/html; charset=utf-8")]);
    let plan = interpret_response(200, &headers, 0).unwrap();
    assert_eq!(plan.content_type, "text/html; charset=utf-8");
    let plan = plan_transfer(200, None, None, Some(""), 0).unwrap();
    assert_eq!(plan.content_type, "");
}

#[test]
fn header_value_that_is_no_text_counts_as_absent() {
    let mut headers = HeaderMap::new();
    headers.insert(CONTENT_LENGTH, HeaderValue::from_bytes(b"5\xff0").unwrap());
    headers.insert(CONTENT_RANGE, HeaderValue::from_static("bytes 0-49/50"));
    headers.insert(CONTENT_TYPE, HeaderValue::from_bytes(b"text/\xe9").unwrap());
    assert_eq!(header_text(&headers, "content-length"), None);
    let plan = interpret_response(206, &headers, 0).unwrap();
    assert_eq!(plan.total_size, Some(50));
    assert_eq!(plan.content_type, "application/octet-stream");
}

#[test]
fn header_lookup_ignores_case_and_takes_the_first_value() {
    let mut headers = HeaderMap::new();
    headers.append("X-Thing", HeaderValue::from_static("one"));
    headers.append("x-thing", HeaderValue::from_static("two"));
    assert_eq!(header_text(&headers, "x-thing"), Some("one".to_string()));
    assert_eq!(header_text(&headers, "X-THING"), Some("one".to_string()));
    assert_eq!(header_text(&headers, "x-other"), None);
    assert_eq!(header_text(&headers, ""), None);
    assert_eq!(header_text(&headers, "not a header name"), None);
    assert_eq!(header_text(&headers, "x-thïng"), None);
}

#[test]
fn header_lookup_hands_out_the_value_not_the_name() {
    let headers = headers_of(&[(CONTENT_LENGTH, "300")]);
    assert_eq!(header_text(&headers, "content-length"), Some("300".to_string()));
    assert_eq!(header_text(&headers, "300"), None);
}

#[test]
fn text_of_value_reads_visible_ascii() {
    assert_eq!(text_of_value(b"abc 123"), Some("abc 123".to_string()));
    assert_eq!(text_of_value(b""), Some(String::new()));
    assert_eq!(text_of_value(b"a\tb"), Some("a\tb".to_string()));
    assert_eq!(text_of_value(b"~"), Some("~".to_string()));
    assert_eq!(text_of_value(b"a\x7fb"), None);
    assert_eq!(text_of_value(b"a\nb"), None);
    assert_eq!(text_of_value(b"\x80"), None);
    assert_eq!(text_of_value(b"\x1f"), None);
}

#[test]
fn text_of_value_agrees_with_the_header_type() {
    for bytes in [&b"plain"[..], b"tab\there", b"high\xc3\xa9", b"", b" ", b"~!"] {
        let value = HeaderValue::from_bytes(bytes).unwrap();
        assert_eq!(text_of_value(bytes), value.to_str().ok().map(|s| s.to_string()));
    }
}

#[test]
fn classify_covers_every_case() {
    assert_eq!(classify(200, 0), Some(Exchange::FreshFull));
    assert_eq!(classify(206, 0), Some(Exchange::FreshPartial));
    assert_eq!(classify(206, 100), Some(Exchange::ResumedPartial));
    assert_eq!(classify(200, 100), Some(Exchange::ResumedFull));
    assert_eq!(classify(404, 0), None);
    assert_eq!(classify(404, 100), None);
}

#[test]
fn classify_at_the_edges_of_the_success_range() {
    assert_eq!(classify(199, 0), None);
    assert_eq!(classify(200, 0), Some(Exchange::FreshFull));
    assert_eq!(classify(204, 7), Some(Exchange::ResumedFull));
    assert_eq!(classify(299, 0), Some(Exchange::FreshFull));
    assert_eq!(classify(300, 0), None);
    assert_eq!(classify(416, 300), None);
    assert_eq!(classify(500, 0), None);
    assert_eq!(classify(0, 0), None);
    assert_eq!(classify(u16::MAX, 0), None);
}

#[test]
fn rejected_status_is_a_protocol_error() {
    let headers = headers_of(&[(CONTENT_LENGTH, "9")]);
    assert_eq!(
        interpret_response(404, &headers, 0),
        Err(TransferError::Protocol { status: 404 })
    );
    assert_eq!(
        plan_transfer(416, Some("0"), Some("bytes */300"), None, 300),
        Err(TransferError::Protocol { status: 416 })
    );
    assert_eq!(
        plan_transfer(301, None, None, None, 0),
        Err(TransferError::Protocol { status: 301 })
    );
}

#[test]
fn plan_records_offset_and_exchange() {
    let plan = plan_transfer(206, None, Some("bytes 100-299/300"), Some("image/png"), 100).unwrap();
    assert_eq!(plan.resume_offset, 100);
    assert_eq!(plan.total_size, Some(300));
    assert_eq!(plan.content_type, "image/png");
    assert_eq!(plan.exchange, Exchange::ResumedPartial);
    let plan = plan_transfer(200, Some("300"), None, None, 100).unwrap();
    assert_eq!(plan.resume_offset, 100);
    assert_eq!(plan.exchange, Exchange::ResumedFull);
}

#[test]
fn success_range_agrees_with_the_status_type() {
    for code in 100u16..=999 {
        let status = StatusCode::from_u16(code).unwrap();
        assert_eq!(classify(code, 0).is_some(), status.is_success() || status == 206);
        assert_eq!(classify(code, 1).is_some(), status.is_success() || status == 206);
    }
}
