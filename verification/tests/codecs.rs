use rapidhttp::error::ErrorKind;
use rapidhttp::headers::HeaderMap;
use rapidhttp::json::{encode_begin, encode_next, next_strategy, EncodeOutcome, EncodeStep, JsonStrategy};

#[test]
fn strategies_are_tried_fast_first() {
    assert_eq!(next_strategy(None), Some(JsonStrategy::Fast));
    assert_eq!(next_strategy(Some(JsonStrategy::Fast)), Some(JsonStrategy::Standard));
    assert_eq!(next_strategy(Some(JsonStrategy::Standard)), None);
    assert!(matches!(encode_begin(), EncodeStep::Try(JsonStrategy::Fast)));
}

#[test]
fn first_encoded_document_ends_the_search() {
    let step = encode_next(JsonStrategy::Fast, EncodeOutcome::Encoded(b"{\"x\":1}".to_vec()));
    assert!(matches!(step, EncodeStep::Done(text) if text == "{\"x\":1}"));
    let step = encode_next(JsonStrategy::Standard, EncodeOutcome::Encoded("\"\u{e9}\"".as_bytes().to_vec()));
    assert!(matches!(step, EncodeStep::Done(text) if text == "\"\u{e9}\""));
}

#[test]
fn encoded_bytes_that_are_not_utf8_give_an_empty_text() {
    let step = encode_next(JsonStrategy::Fast, EncodeOutcome::Encoded(vec![b'"', 0xff, b'"']));
    assert!(matches!(step, EncodeStep::Done(text) if text.is_empty()));
}

#[test]
fn failed_fast_encoder_falls_back() {
    let step = encode_next(JsonStrategy::Fast, EncodeOutcome::Failed("No module".to_string()));
    assert!(matches!(step, EncodeStep::Try(JsonStrategy::Standard)));
}

#[test]
fn failed_standard_encoder_is_reported_verbatim() {
    let step = encode_next(
        JsonStrategy::Standard,
        EncodeOutcome::Failed("Object of type set is not JSON serializable".to_string()),
    );
    match step {
        EncodeStep::Fail(err) => {
            assert_eq!(err.kind(), ErrorKind::EncodeError);
            assert_eq!(err.message(), "Object of type set is not JSON serializable");
            assert_eq!(err.status_code(), None);
        }
        other => panic!("unexpected step: {:?}", other),
    }
}

#[test]
fn header_names_are_lower_cased() {
    let mut headers = HeaderMap::new();
    assert_eq!(headers.len(), 0);
    headers.insert("X-Request-ID", "abc");
    assert_eq!(headers.to_pairs(), vec![("x-request-id".to_string(), "abc".to_string())]);
    assert_eq!(headers.get("x-request-id"), Some("abc"));
    assert_eq!(headers.get("X-REQUEST-ID"), Some("abc"));
    assert!(headers.contains("x-Request-id"));
    assert!(!headers.contains("x-request"));
    assert_eq!(headers.get("\u{212a}"), None);
}

#[test]
fn header_write_replaces_in_place() {
    let mut headers = HeaderMap::new();
    headers.insert("a", "1");
    headers.insert("b", "2");
    headers.insert("A", "3");
    assert_eq!(headers.len(), 2);
    assert_eq!(
        headers.to_pairs(),
        vec![("a".to_string(), "3".to_string()), ("b".to_string(), "2".to_string())]
    );
}

#[test]
fn headers_from_pairs_keep_the_last_value() {
    let writes = vec![
        ("Accept".to_string(), "text/html".to_string()),
        ("User-Agent".to_string(), "x".to_string()),
        ("ACCEPT".to_string(), "*/*".to_string()),
        ("accept".to_string(), "application/json".to_string()),
    ];
    let headers = HeaderMap::from_pairs(&writes);
    assert_eq!(headers.len(), 2);
    assert_eq!(headers.get("Accept"), Some("application/json"));
    assert_eq!(headers.get("user-agent"), Some("x"));
    assert_eq!(HeaderMap::from_pairs(&Vec::new()).len(), 0);
}

#[test]
fn non_ascii_header_names_are_kept_apart() {
    let mut headers = HeaderMap::new();
    headers.insert("\u{c9}tat", "1");
    headers.insert("\u{e9}tat", "2");
    assert_eq!(headers.len(), 2);
    assert_eq!(headers.get("\u{c9}TAT"), Some("1"));
}
