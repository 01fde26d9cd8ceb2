use echo_relay::dispatch::{is_upgrade_request, process_request, DispatchOutcome};
use echo_relay::logging::{
    BodyLogger, ConnectionContext, ContextFactory, HttpLogLevel, LogEvent, OnRequestLogger,
    OnResponseLogger,
};
use echo_relay::message::{Header, HttpRequest, HttpVersion};
use echo_relay::service::{make_service, EchoService, SpanMaker};

fn header(name: &str, value: &str) -> Header {
    Header { name: name.as_bytes().to_vec(), value: value.as_bytes().to_vec() }
}

fn request(headers: Vec<Header>, body: &[u8]) -> HttpRequest {
    HttpRequest {
        method: b"GET".to_vec(),
        target: b"/".to_vec(),
        version: HttpVersion::Http11,
        headers,
        body: body.to_vec(),
    }
}

fn ctx(id: u64) -> ConnectionContext {
    ConnectionContext { client_addr: b"127.0.0.1".to_vec(), id, created_micros: 0 }
}

#[test]
fn plain_get_with_header_is_echoed() {
    let req = request(vec![header("X-Test", "1")], b"");
    let out = process_request(req);
    match out {
        DispatchOutcome::Plain(resp) => {
            assert_eq!(resp.status, 200);
            assert_eq!(resp.version, HttpVersion::Http11);
            assert_eq!(resp.headers.len(), 1);
            assert_eq!(resp.headers[0].name, b"X-Test".to_vec());
            assert_eq!(resp.headers[0].value, b"1".to_vec());
            assert!(resp.body.is_empty());
        },
        _ => panic!("a request without upgrade headers must be served as plain HTTP"),
    }
}

#[test]
fn echo_preserves_version_headers_and_body() {
    let req = HttpRequest {
        method: b"POST".to_vec(),
        target: b"/data".to_vec(),
        version: HttpVersion::Http10,
        headers: vec![header("Content-Type", "text/plain"), header("X-Two", "2")],
        body: b"hello body".to_vec(),
    };
    match process_request(req) {
        DispatchOutcome::Plain(resp) => {
            assert_eq!(resp.status, 200);
            assert_eq!(resp.version, HttpVersion::Http10);
            assert_eq!(resp.headers.len(), 2);
            assert_eq!(resp.headers[0].name, b"Content-Type".to_vec());
            assert_eq!(resp.headers[0].value, b"text/plain".to_vec());
            assert_eq!(resp.headers[1].name, b"X-Two".to_vec());
            assert_eq!(resp.headers[1].value, b"2".to_vec());
            assert_eq!(resp.body, b"hello body".to_vec());
        },
        _ => panic!("expected the plain path"),
    }
}

#[test]
fn upgrade_detection_reads_token_lists() {
    let plain = request(vec![header("X-Test", "1")], b"");
    assert!(!is_upgrade_request(&plain));

    let upgrade = request(
        vec![header("Connection", "Upgrade"), header("Upgrade", "websocket")],
        b"",
    );
    assert!(is_upgrade_request(&upgrade));

    let mixed = request(
        vec![header("connection", "keep-alive ,  upgrade"), header("UPGRADE", "WebSocket")],
        b"",
    );
    assert!(is_upgrade_request(&mixed));

    let connection_only = request(vec![header("Connection", "Upgrade")], b"");
    assert!(!is_upgrade_request(&connection_only));

    let wrong_protocol = request(
        vec![header("Connection", "Upgrade"), header("Upgrade", "h2c")],
        b"",
    );
    assert!(!is_upgrade_request(&wrong_protocol));
}

fn upgrade_request(extra: Vec<Header>) -> HttpRequest {
    let mut headers = vec![header("Connection", "Upgrade"), header("Upgrade", "websocket")];
    headers.extend(extra);
    request(headers, b"")
}

#[test]
fn successful_handshake_returns_rfc_accept_key() {
    let req = upgrade_request(vec![
        header("Sec-WebSocket-Key", "dGhlIHNhbXBsZSBub25jZQ=="),
        header("Sec-WebSocket-Version", "13"),
    ]);
    match process_request(req) {
        DispatchOutcome::Upgraded(resp) => {
            assert_eq!(resp.status, 101);
            assert!(resp.body.is_empty());
            assert_eq!(resp.headers.len(), 3);
            assert_eq!(resp.headers[0].name, b"connection".to_vec());
            assert_eq!(resp.headers[0].value, b"upgrade".to_vec());
            assert_eq!(resp.headers[1].name, b"upgrade".to_vec());
            assert_eq!(resp.headers[1].value, b"websocket".to_vec());
            assert_eq!(resp.headers[2].name, b"sec-websocket-accept".to_vec());
            assert_eq!(resp.headers[2].value, b"s3pPLMBiTxaQ9kYGzzhZRbK+xOo=".to_vec());
        },
        _ => panic!("a well-formed upgrade request must be upgraded"),
    }
}

#[test]
fn missing_key_yields_400_with_description() {
    let req = upgrade_request(vec![header("Sec-WebSocket-Version", "13")]);
    match process_request(req) {
        DispatchOutcome::Rejected(resp) => {
            assert_eq!(resp.status, 400);
            assert_eq!(resp.body, b"Sec-WebSocket-Key header is missing".to_vec());
            assert!(resp.headers.is_empty());
        },
        _ => panic!("an upgrade attempt without a key must be rejected"),
    }
}

#[test]
fn wrong_version_yields_400_with_description() {
    let req = upgrade_request(vec![
        header("Sec-WebSocket-Key", "dGhlIHNhbXBsZSBub25jZQ=="),
        header("Sec-WebSocket-Version", "8"),
    ]);
    match process_request(req) {
        DispatchOutcome::Rejected(resp) => {
            assert_eq!(resp.status, 400);
            assert_eq!(resp.body, b"Sec-Websocket-Version must be 13".to_vec());
        },
        _ => panic!("a wrong version must be rejected"),
    }
}

#[test]
fn absent_version_yields_400() {
    let req = upgrade_request(vec![header("Sec-WebSocket-Key", "dGhlIHNhbXBsZSBub25jZQ==")]);
    match process_request(req) {
        DispatchOutcome::Rejected(resp) => {
            assert_eq!(resp.status, 400);
            assert_eq!(resp.body, b"Sec-Websocket-Version must be 13".to_vec());
        },
        _ => panic!("an absent version must be rejected"),
    }
}

fn event_names(evs: &[LogEvent]) -> Vec<&'static str> {
    evs.iter()
        .map(|e| match e {
            LogEvent::RequestUri { .. } => "request_uri",
            LogEvent::RequestHeaders { .. } => "request_headers",
            LogEvent::ResponseStatus { .. } => "response_status",
            LogEvent::ResponseHeaders { .. } => "response_headers",
            LogEvent::ResponseLatency { .. } => "response_latency",
            LogEvent::BodyChunk { .. } => "body_chunk",
        })
        .collect()
}

#[test]
fn verbosity_tiers_emit_supersets() {
    let req = request(vec![header("X-Test", "1")], b"payload");
    let levels = [
        HttpLogLevel::Off,
        HttpLogLevel::Uri,
        HttpLogLevel::UriHeaders,
        HttpLogLevel::UriHeadersBody,
    ];
    let mut previous: Vec<&'static str> = Vec::new();
    for level in levels {
        let svc = make_service(level, false, ctx(0));
        let chunk_evs = svc.body_logger.on_body_chunk(b"payload");
        let req_copy = request(vec![header("X-Test", "1")], b"payload");
        let (_, evs) = svc.handle(req_copy, 5);
        let mut names = event_names(&evs);
        names.extend(event_names(&chunk_evs));
        for name in &previous {
            assert!(names.contains(name), "a higher tier must keep every lower tier's event");
        }
        previous = names;
    }
}

#[test]
fn uri_tier_emits_uri_status_and_latency() {
    let logger = OnRequestLogger::new(HttpLogLevel::Uri);
    let req = request(vec![header("X-Test", "1")], b"");
    let evs = logger.on_request(&req);
    assert_eq!(event_names(&evs), vec!["request_uri"]);

    let resp_logger = OnResponseLogger::new(HttpLogLevel::Uri);
    match process_request(req) {
        DispatchOutcome::Plain(resp) => {
            let evs = resp_logger.on_response(&resp, 42);
            assert_eq!(event_names(&evs), vec!["response_status", "response_latency"]);
            match &evs[1] {
                LogEvent::ResponseLatency { micros } => assert_eq!(*micros, 42),
                _ => panic!("latency must come last"),
            }
        },
        _ => panic!("expected the plain path"),
    }
}

#[test]
fn off_tier_emits_nothing() {
    let req = request(vec![header("X-Test", "1")], b"chunk");
    let svc = make_service(HttpLogLevel::Off, false, ctx(0));
    assert!(svc.body_logger.on_body_chunk(b"chunk").is_empty());
    let (_, evs) = svc.handle(req, 7);
    assert!(evs.is_empty());
}

#[test]
fn body_chunks_appear_only_at_the_top_tier() {
    let lower = BodyLogger::new(HttpLogLevel::UriHeaders);
    assert!(lower.on_body_chunk(b"chunk").is_empty());
    let top = BodyLogger::new(HttpLogLevel::UriHeadersBody);
    let evs = top.on_body_chunk(b"chunk");
    assert_eq!(evs.len(), 1);
    match &evs[0] {
        LogEvent::BodyChunk { chunk } => assert_eq!(chunk, &b"chunk".to_vec()),
        _ => panic!("expected the chunk's contents"),
    }
}

#[test]
fn context_factory_ids_increase() {
    let mut factory = ContextFactory::new();
    let a = factory.make(b"10.0.0.1".to_vec(), 100);
    let b = factory.make(b"10.0.0.2".to_vec(), 200);
    assert_eq!(a.id, 0);
    assert_eq!(b.id, 1);
    assert_eq!(a.client_addr, b"10.0.0.1".to_vec());
    assert_eq!(a.created_micros, 100);
}

#[test]
fn span_maker_tags_with_address_and_id() {
    let maker = SpanMaker::new(b"192.168.0.9".to_vec(), 7);
    let span = maker.make_span();
    assert_eq!(span.client_addr, b"192.168.0.9".to_vec());
    assert_eq!(span.id, 7);
}

#[test]
fn middleware_does_not_alter_the_outcome() {
    let svc = make_service(HttpLogLevel::UriHeadersBody, true, ctx(3));
    let req = request(vec![header("X-Test", "1")], b"abc");
    let (out, _) = svc.handle(req, 9);
    match out {
        DispatchOutcome::Plain(resp) => {
            assert_eq!(resp.status, 200);
            assert_eq!(resp.body, b"abc".to_vec());
        },
        _ => panic!("the logging layer must not change how a request is served"),
    }
}

#[test]
fn echo_service_serves_like_the_dispatcher() {
    let svc = EchoService::new(true, ctx(1));
    assert!(svc.ws_logger.enabled);
    let req = request(vec![], b"x");
    match svc.call(req) {
        DispatchOutcome::Plain(resp) => assert_eq!(resp.body, b"x".to_vec()),
        _ => panic!("expected the plain path"),
    }
}

#[test]
fn any_header_of_the_name_may_carry_the_token() {
    let req = request(
        vec![
            header("Connection", "keep-alive"),
            header("Connection", "Upgrade"),
            header("Upgrade", "websocket"),
        ],
        b"",
    );
    assert!(is_upgrade_request(&req));
}

#[test]
fn first_key_header_wins() {
    let req = upgrade_request(vec![
        header("Sec-WebSocket-Key", "dGhlIHNhbXBsZSBub25jZQ=="),
        header("Sec-WebSocket-Key", "c2Vjb25kIGtleSBpZ25vcmVk"),
        header("Sec-WebSocket-Version", "13"),
    ]);
    match process_request(req) {
        DispatchOutcome::Upgraded(resp) => {
            assert_eq!(resp.headers[2].value, b"s3pPLMBiTxaQ9kYGzzhZRbK+xOo=".to_vec());
        },
        _ => panic!("expected an upgrade"),
    }
}
