use voice_pipeline::bridge::{
    bridge_request_json, bridge_timeout_error, bridge_timeout_secs, build_bridge_script,
    build_callback_url, callback_path, correlate_callback, fresh_request_id,
    handle_callback_request, parse_bridge_callback, BridgeCallback, BridgeExchange, BridgeRequest,
    CallbackOutcome, CallbackResponse,
};
use voice_pipeline::httpmsg::{render_response, HttpParseError, HttpRequest, RequestReader};
use voice_pipeline::transcription::TranscriptionError;

fn read_request(raw: &[u8]) -> Result<HttpRequest, HttpParseError> {
    let mut reader = RequestReader::new();
    assert!(reader.append_chunk(raw));
    reader.finish()
}

const ENCODED_OK_PAYLOAD: &str = "%7B%22requestId%22%3A%22abc%22%2C%22ok%22%3Atrue%2C%22status%22%3A200%2C%22body%22%3A%22hi%22%7D";

#[test]
fn matching_callback_resolves_the_call() {
    let raw = format!(
        "GET {}?requestId=abc&payload={} HTTP/1.1\r\nHost: localhost\r\n\r\n",
        callback_path(),
        ENCODED_OK_PAYLOAD
    );
    let request = read_request(raw.as_bytes()).expect("request should parse");
    let outcome = handle_callback_request("abc", request).expect("request should be handled");

    match outcome {
        CallbackOutcome::Resolved(callback) => {
            assert_eq!(callback.request_id, "abc");
            assert!(callback.ok);
            assert_eq!(callback.status, Some(200));
            assert_eq!(callback.body.as_deref(), Some("hi"));
            assert!(callback.error.is_none());
        }
        _ => panic!("a matching callback must resolve the call"),
    }
}

#[test]
fn mismatched_callback_never_resolves() {
    let raw = format!(
        "GET {}?requestId=abc&payload={} HTTP/1.1\r\nHost: localhost\r\n\r\n",
        callback_path(),
        ENCODED_OK_PAYLOAD
    );
    let request = read_request(raw.as_bytes()).expect("request should parse");
    let outcome = handle_callback_request("other-id", request).expect("should be handled");
    assert!(matches!(outcome, CallbackOutcome::Superseded));
}

#[test]
fn correlation_accepts_exactly_the_outstanding_id() {
    let callback = BridgeCallback {
        request_id: "abc".to_string(),
        ok: true,
        status: Some(200),
        body: None,
        error: None,
    };
    assert!(correlate_callback("abc", callback).is_some());

    let callback = BridgeCallback {
        request_id: "abd".to_string(),
        ok: true,
        status: Some(200),
        body: None,
        error: None,
    };
    assert!(correlate_callback("abc", callback).is_none());
}

#[test]
fn wrong_method_path_and_empty_payload_are_ignored() {
    let raw = format!("PUT {}?payload=x HTTP/1.1\r\n\r\n", callback_path());
    let request = read_request(raw.as_bytes()).expect("request should parse");
    assert!(matches!(
        handle_callback_request("abc", request).unwrap(),
        CallbackOutcome::WrongMethod
    ));

    let raw = "GET /elsewhere?payload=x HTTP/1.1\r\n\r\n";
    let request = read_request(raw.as_bytes()).expect("request should parse");
    assert!(matches!(
        handle_callback_request("abc", request).unwrap(),
        CallbackOutcome::WrongPath
    ));

    let raw = format!("GET {} HTTP/1.1\r\n\r\n", callback_path());
    let request = read_request(raw.as_bytes()).expect("request should parse");
    assert!(matches!(
        handle_callback_request("abc", request).unwrap(),
        CallbackOutcome::MissingPayload
    ));
}

#[test]
fn malformed_payload_fails_the_call() {
    let raw = format!("GET {}?payload=notjson HTTP/1.1\r\n\r\n", callback_path());
    let request = read_request(raw.as_bytes()).expect("request should parse");
    let error = handle_callback_request("abc", request).expect_err("bad JSON must fail the call");
    assert!(matches!(error, TranscriptionError::InvalidResponse(_)));

    // Valid JSON without the callback shape fails the call too: here the
    // requestId is a number, not a string.
    let raw = format!(
        "GET {}?payload=%7B%22requestId%22%3A5%2C%22ok%22%3Atrue%7D HTTP/1.1\r\n\r\n",
        callback_path()
    );
    let request = read_request(raw.as_bytes()).expect("request should parse");
    let error =
        handle_callback_request("abc", request).expect_err("a misshapen payload must fail");
    assert!(matches!(error, TranscriptionError::InvalidResponse(_)));
}

#[test]
fn post_body_payload_is_accepted() {
    let payload = r#"{"requestId":"abc","ok":false,"error":"boom"}"#;
    let raw = format!(
        "POST {} HTTP/1.1\r\nContent-Length: {}\r\n\r\n{}",
        callback_path(),
        payload.len(),
        payload
    );
    let request = read_request(raw.as_bytes()).expect("request should parse");
    match handle_callback_request("abc", request).unwrap() {
        CallbackOutcome::Resolved(callback) => {
            assert!(!callback.ok);
            assert_eq!(callback.error.as_deref(), Some("boom"));
            assert!(callback.status.is_none());
        }
        _ => panic!("a matching POST callback must resolve the call"),
    }
}

#[test]
fn exchange_resolves_at_most_once_and_only_on_match() {
    let mut exchange = BridgeExchange::new("abc".to_string());
    assert!(!exchange.is_resolved());

    let stale = format!(
        "GET {}?payload=%7B%22requestId%22%3A%22old%22%2C%22ok%22%3Atrue%7D HTTP/1.1\r\n\r\n",
        callback_path()
    );
    let request = read_request(stale.as_bytes()).expect("request should parse");
    let response = exchange.on_request(request).expect("stale callback is absorbed");
    assert_eq!(response, CallbackResponse::Ignored);
    assert!(!exchange.is_resolved());

    let good = format!("GET {}?payload={} HTTP/1.1\r\n\r\n", callback_path(), ENCODED_OK_PAYLOAD);
    let request = read_request(good.as_bytes()).expect("request should parse");
    let response = exchange.on_request(request).expect("matching callback resolves");
    assert_eq!(response, CallbackResponse::Accepted);
    assert!(exchange.is_resolved());

    let resolved = exchange.take_resolved().expect("the result is kept");
    assert_eq!(resolved.request_id, "abc");
    assert_eq!(resolved.status, Some(200));
}

#[test]
fn timeouts_fail_with_a_network_error_and_respect_the_floor() {
    assert_eq!(bridge_timeout_secs(10), 180);
    assert_eq!(bridge_timeout_secs(180), 180);
    assert_eq!(bridge_timeout_secs(300), 300);

    let error = bridge_timeout_error();
    assert_eq!(
        error,
        TranscriptionError::Network(
            "Timed out waiting for ChatGPT webview transcription response".to_string()
        )
    );
}

#[test]
fn callback_urls_embed_port_and_request_id() {
    assert_eq!(
        build_callback_url(8080, "abc-123"),
        "http://127.0.0.1:8080/voice/chatgpt-transcribe-callback?requestId=abc-123"
    );
}

#[test]
fn request_ids_have_uuid_shape() {
    let a = fresh_request_id();
    let b = fresh_request_id();
    assert_eq!(a.len(), 36);
    assert_ne!(a, b);
}

#[test]
fn script_payload_json_is_escaped_and_ordered() {
    let request = BridgeRequest {
        request_id: "id-1".to_string(),
        endpoint: "https://chatgpt.com/backend-api/transcribe".to_string(),
        callback_url: "http://127.0.0.1:9/voice/chatgpt-transcribe-callback?requestId=id-1"
            .to_string(),
        audio_base64: "AQID".to_string(),
        access_token: "tok\"en\n".to_string(),
        account_id: "acct".to_string(),
    };
    let json = bridge_request_json(&request);
    assert_eq!(
        json,
        "{\"requestId\":\"id-1\",\"endpoint\":\"https://chatgpt.com/backend-api/transcribe\",\"callbackUrl\":\"http://127.0.0.1:9/voice/chatgpt-transcribe-callback?requestId=id-1\",\"audioBase64\":\"AQID\",\"accessToken\":\"tok\\\"en\\n\",\"accountId\":\"acct\"}"
    );

    // The payload parses back as JSON and round-trips the escaped token.
    let parsed: serde_json::Value = serde_json::from_str(&json).expect("payload must be JSON");
    assert_eq!(parsed["accessToken"], "tok\"en\n");

    let script = build_bridge_script(&request);
    assert!(script.starts_with("(async () => {\n  const payload = {\"requestId\":\"id-1\""));
    assert!(script.contains("atob(payload.audioBase64)"));
    assert!(script.ends_with("})();"));
}

#[test]
fn bridge_callbacks_parse_with_optional_members() {
    let callback =
        parse_bridge_callback(r#"{"requestId":"x","ok":true,"status":204,"body":null}"#)
            .expect("payload should parse");
    assert_eq!(callback.request_id, "x");
    assert!(callback.ok);
    assert_eq!(callback.status, Some(204));
    assert!(callback.body.is_none());
    assert!(callback.error.is_none());

    assert!(parse_bridge_callback(r#"{"ok":true}"#).is_none());
    assert!(parse_bridge_callback(r#"{"requestId":"x"}"#).is_none());
    assert!(parse_bridge_callback(r#"{"requestId":"x","ok":true,"status":70000}"#).is_none());
    assert!(parse_bridge_callback("[]").is_none());
}

#[test]
fn listener_responses_have_the_fixed_shape() {
    assert_eq!(
        render_response("204 No Content", ""),
        "HTTP/1.1 204 No Content\r\nContent-Type: text/plain; charset=utf-8\r\nAccess-Control-Allow-Origin: *\r\nAccess-Control-Allow-Headers: content-type\r\nContent-Length: 0\r\nConnection: close\r\n\r\n"
    );
    assert_eq!(
        render_response("202 Accepted", "Ignored"),
        "HTTP/1.1 202 Accepted\r\nContent-Type: text/plain; charset=utf-8\r\nAccess-Control-Allow-Origin: *\r\nAccess-Control-Allow-Headers: content-type\r\nContent-Length: 7\r\nConnection: close\r\n\r\nIgnored"
    );
}

#[test]
fn reader_frames_headers_and_bounded_bodies() {
    let mut reader = RequestReader::new();
    assert!(reader.append_chunk(b"GET / HTTP/1.1\r\nContent-Length: 5\r\n"));
    assert!(!reader.header_complete());
    assert!(reader.append_chunk(b"\r\nab"));
    assert!(reader.header_complete());
    assert!(!reader.body_complete());
    assert!(reader.append_chunk(b"cdefgh"));
    assert!(reader.body_complete());
    let request = reader.finish().expect("framed request should parse");
    assert_eq!(request.method, b"GET".to_vec());
    assert_eq!(request.target, b"/".to_vec());
    assert_eq!(request.body, b"abcde".to_vec());
}

#[test]
fn reader_rejects_oversized_and_headerless_input() {
    let mut reader = RequestReader::new();
    let big = vec![b'a'; 256 * 1024 + 1];
    assert!(!reader.append_chunk(&big));

    let mut reader = RequestReader::new();
    assert!(reader.append_chunk(b"garbage without any terminator"));
    assert_eq!(reader.finish().unwrap_err(), HttpParseError::MissingHeaders);

    let mut reader = RequestReader::new();
    assert!(reader.append_chunk(b"   \r\n\r\n"));
    assert_eq!(reader.finish().unwrap_err(), HttpParseError::BadRequestLine);
}
