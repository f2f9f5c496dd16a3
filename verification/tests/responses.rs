use bytes::Bytes;
use rapidhttp::client::{Client, TransportOutcome};
use rapidhttp::error::{classify_transport_failure, ErrorKind, ErrorValue, TransportFailure};
use rapidhttp::json::JsonStrategy;
use rapidhttp::response::{raw_header_writes, DecodeStep, Response};

fn response_with(status: u16, body: Option<&'static [u8]>) -> Response {
    Response::new(
        status,
        "http://example.com/".to_string(),
        &vec![("content-length".to_string(), Some("8".to_string()))],
        body.map(Bytes::from_static),
    )
}

#[test]
fn raise_for_status_fails_on_404() {
    let err = response_with(404, None).raise_for_status().unwrap_err();
    assert_eq!(err.kind(), ErrorKind::HTTPError);
    assert_eq!(err.status_code(), Some(404));
    assert_eq!(err.message(), "HTTP 404 Error");
}

#[test]
fn raise_for_status_passes_on_200() {
    assert!(response_with(200, None).raise_for_status().is_ok());
}

#[test]
fn status_check_turns_at_400() {
    assert!(response_with(100, None).raise_for_status().is_ok());
    assert!(response_with(302, None).raise_for_status().is_ok());
    assert!(response_with(399, None).raise_for_status().is_ok());
    assert_eq!(response_with(400, None).raise_for_status().unwrap_err().status_code(), Some(400));
    assert_eq!(response_with(500, None).raise_for_status().unwrap_err().message(), "HTTP 500 Error");
    assert_eq!(response_with(599, None).raise_for_status().unwrap_err().message(), "HTTP 599 Error");
}

#[test]
fn status_is_rendered_in_decimal() {
    assert_eq!(ErrorValue::http(0).message(), "HTTP 0 Error");
    assert_eq!(ErrorValue::http(7).message(), "HTTP 7 Error");
    assert_eq!(ErrorValue::http(10).message(), "HTTP 10 Error");
    assert_eq!(ErrorValue::http(1000).message(), "HTTP 1000 Error");
    assert_eq!(ErrorValue::http(65535).message(), "HTTP 65535 Error");
}

#[test]
fn body_that_is_not_json_still_reads_as_text() {
    let response = response_with(200, Some(b"not json"));
    let mut step = response.json();
    let mut tried = Vec::new();
    let failure = loop {
        match step {
            DecodeStep::Try(strategy, bytes) => {
                assert_eq!(bytes, b"not json");
                tried.push(strategy);
                step = response.json_retry(strategy, "Expecting value: line 1 column 1".to_string());
            }
            DecodeStep::Fail(err) => break err,
        }
    };
    assert_eq!(tried, vec![JsonStrategy::Fast, JsonStrategy::Standard]);
    assert_eq!(failure.kind(), ErrorKind::DecodeError);
    assert_eq!(failure.message(), "Expecting value: line 1 column 1");
    assert_eq!(response.text().unwrap(), "not json");
}

#[test]
fn json_decoding_starts_with_the_fast_decoder_on_the_bytes() {
    let response = response_with(200, Some(b"{\"x\":1}"));
    match response.json() {
        DecodeStep::Try(JsonStrategy::Fast, bytes) => assert_eq!(bytes, b"{\"x\":1}"),
        other => panic!("unexpected first step: {:?}", other),
    }
    match response.json_retry(JsonStrategy::Fast, "unavailable".to_string()) {
        DecodeStep::Try(JsonStrategy::Standard, bytes) => assert_eq!(bytes, b"{\"x\":1}"),
        other => panic!("unexpected second step: {:?}", other),
    }
}

#[test]
fn json_on_bytes_that_are_not_text_asks_both_decoders() {
    let response = response_with(200, Some(&[0xff, 0xfe]));
    match response.json() {
        DecodeStep::Try(JsonStrategy::Fast, bytes) => assert_eq!(bytes, [0xff, 0xfe]),
        other => panic!("unexpected step: {:?}", other),
    }
    match response.json_retry(JsonStrategy::Fast, "unexpected character".to_string()) {
        DecodeStep::Try(JsonStrategy::Standard, bytes) => assert_eq!(bytes, [0xff, 0xfe]),
        other => panic!("unexpected step: {:?}", other),
    }
    match response.json_retry(JsonStrategy::Standard, "'utf-8' codec can't decode".to_string()) {
        DecodeStep::Fail(err) => {
            assert_eq!(err.kind(), ErrorKind::DecodeError);
            assert_eq!(err.message(), "'utf-8' codec can't decode");
            assert_eq!(err.status_code(), None);
        }
        other => panic!("unexpected step: {:?}", other),
    }
    assert_eq!(response.text().unwrap_err().kind(), ErrorKind::InvalidEncoding);
}

#[test]
fn unreadable_header_values_count_as_empty() {
    let writes = raw_header_writes(&vec![
        ("a".to_string(), Some("1".to_string())),
        ("B".to_string(), None),
    ]);
    assert_eq!(
        writes,
        vec![("a".to_string(), "1".to_string()), ("B".to_string(), String::new())]
    );
    assert!(raw_header_writes(&Vec::new()).is_empty());
}

#[test]
fn content_is_the_same_on_every_call() {
    let response = response_with(200, Some(&[0, 1, 2, 0xff]));
    let first = response.content().unwrap();
    let second = response.content().unwrap();
    assert_eq!(first, vec![0, 1, 2, 0xff]);
    assert_eq!(first, second);
    assert_eq!(response.text().unwrap_err().kind(), ErrorKind::InvalidEncoding);
    assert_eq!(response.content().unwrap(), first);
}

#[test]
fn text_decodes_utf8() {
    let response = response_with(200, Some("gr\u{fc}\u{df}e \u{1f600}".as_bytes()));
    assert_eq!(response.text().unwrap(), "gr\u{fc}\u{df}e \u{1f600}");
    assert_eq!(response.text().unwrap(), response.text().unwrap());
    assert_eq!(response_with(200, Some(b"")).text().unwrap(), "");
}

#[test]
fn text_fails_on_bytes_that_are_not_utf8() {
    let err = response_with(200, Some(&[b'a', 0xc3])).text().unwrap_err();
    assert_eq!(err.kind(), ErrorKind::InvalidEncoding);
    assert!(err.message().starts_with("Failed to decode UTF-8: "));
    assert!(err.message().len() > "Failed to decode UTF-8: ".len());
    assert_eq!(err.status_code(), None);
}

#[test]
fn missing_body_is_unavailable() {
    let response = response_with(204, None);
    for err in [response.content().unwrap_err(), response.text().map(|_| ()).unwrap_err()] {
        assert_eq!(err.kind(), ErrorKind::BodyUnavailable);
        assert_eq!(err.message(), "Response body already consumed");
    }
    match response.json() {
        DecodeStep::Fail(err) => assert_eq!(err.kind(), ErrorKind::BodyUnavailable),
        other => panic!("unexpected step: {:?}", other),
    }
    match response.json_retry(JsonStrategy::Fast, String::new()) {
        DecodeStep::Fail(err) => assert_eq!(err.kind(), ErrorKind::BodyUnavailable),
        other => panic!("unexpected step: {:?}", other),
    }
}

#[test]
fn response_keeps_status_url_and_headers() {
    let response = Response::new(
        201,
        "http://example.com/final".to_string(),
        &vec![
            ("content-type".to_string(), Some("text/plain".to_string())),
            ("set-cookie".to_string(), Some("a=1".to_string())),
            ("x-binary".to_string(), None),
            ("set-cookie".to_string(), Some("b=2".to_string())),
        ],
        Some(Bytes::from_static(b"ok")),
    );
    assert_eq!(response.status_code(), 201);
    assert_eq!(response.url(), "http://example.com/final");
    assert_eq!(response.header("Content-Type"), Some("text/plain"));
    assert_eq!(response.header("set-cookie"), Some("b=2"));
    assert_eq!(response.header("x-binary"), Some(""));
    assert_eq!(response.header("missing"), None);
    let headers = response.headers();
    assert_eq!(
        headers,
        vec![
            ("content-type".to_string(), "text/plain".to_string()),
            ("set-cookie".to_string(), "b=2".to_string()),
            ("x-binary".to_string(), String::new()),
        ]
    );
    assert_eq!(response.headers(), headers);
}

#[test]
fn redirect_is_surfaced_when_it_was_not_followed() {
    let client = Client::new();
    let surfaced = client
        .receive(TransportOutcome::Received {
            status_code: 302,
            url: "http://example.com/old".to_string(),
            headers: vec![("location".to_string(), Some("http://example.com/new".to_string()))],
            body: Some(Bytes::new()),
        })
        .unwrap();
    assert_eq!(surfaced.status_code(), 302);
    assert_eq!(surfaced.url(), "http://example.com/old");
    assert_eq!(surfaced.header("Location"), Some("http://example.com/new"));
    assert!(surfaced.raise_for_status().is_ok());

    let followed = client
        .receive(TransportOutcome::Received {
            status_code: 200,
            url: "http://example.com/new".to_string(),
            headers: Vec::new(),
            body: Some(Bytes::from_static(b"done")),
        })
        .unwrap();
    assert_eq!(followed.status_code(), 200);
    assert_eq!(followed.url(), "http://example.com/new");
    assert_eq!(followed.content().unwrap(), b"done");
}

#[test]
fn transport_failures_are_classified_in_order() {
    let kind = |timed_out, connect, redirect| {
        classify_transport_failure(&TransportFailure {
            timed_out,
            connect,
            redirect,
            detail: "boom".to_string(),
        })
        .kind()
    };
    assert_eq!(kind(true, true, true), ErrorKind::Timeout);
    assert_eq!(kind(true, true, false), ErrorKind::Timeout);
    assert_eq!(kind(true, false, true), ErrorKind::Timeout);
    assert_eq!(kind(true, false, false), ErrorKind::Timeout);
    assert_eq!(kind(false, true, true), ErrorKind::ConnectTimeout);
    assert_eq!(kind(false, true, false), ErrorKind::ConnectTimeout);
    assert_eq!(kind(false, false, true), ErrorKind::TooManyRedirects);
    assert_eq!(kind(false, false, false), ErrorKind::ConnectionError);
}

#[test]
fn transport_failure_messages_carry_the_detail() {
    let message = |timed_out, connect, redirect| {
        let err = classify_transport_failure(&TransportFailure {
            timed_out,
            connect,
            redirect,
            detail: "boom".to_string(),
        });
        assert_eq!(err.status_code(), None);
        err.message().to_string()
    };
    assert_eq!(message(true, false, false), "Request timed out: boom");
    assert_eq!(message(false, true, false), "Connection timeout: boom");
    assert_eq!(message(false, false, true), "Too many redirects: boom");
    assert_eq!(message(false, false, false), "Connection error: boom");
}

#[test]
fn failed_outcomes_become_errors() {
    let client = Client::new();
    let err = client
        .receive(TransportOutcome::Failed(TransportFailure {
            timed_out: false,
            connect: true,
            redirect: false,
            detail: "refused".to_string(),
        }))
        .unwrap_err();
    assert_eq!(err.kind(), ErrorKind::ConnectTimeout);
    assert!(err.kind().is_timeout());
    assert_eq!(err.message(), "Connection timeout: refused");

    let err = client.receive(TransportOutcome::NotBuilt("no backend".to_string())).unwrap_err();
    assert_eq!(err.kind(), ErrorKind::ConstructionError);
    assert_eq!(err.message(), "Failed to create client: no backend");
}

#[test]
fn timeout_family_has_three_members() {
    let family = [ErrorKind::Timeout, ErrorKind::ConnectTimeout, ErrorKind::ReadTimeout];
    let others = [
        ErrorKind::InvalidMethod,
        ErrorKind::ConstructionError,
        ErrorKind::TooManyRedirects,
        ErrorKind::ConnectionError,
        ErrorKind::HTTPError,
        ErrorKind::InvalidEncoding,
        ErrorKind::EncodeError,
        ErrorKind::DecodeError,
        ErrorKind::BodyUnavailable,
    ];
    assert!(family.iter().all(|kind| kind.is_timeout()));
    assert!(others.iter().all(|kind| !kind.is_timeout()));
}
