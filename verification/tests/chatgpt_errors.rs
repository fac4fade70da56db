use voice_pipeline::chatgpt::{
    classify_status, classify_transport, default_endpoint, encode_base64, map_bridge_http_error,
    map_http_failure, parse_chatgpt_error_message, transcription_from_body,
    ChatGptTranscriptionConfig, ErrorKind,
};
use voice_pipeline::transcription::TranscriptionError;

#[test]
fn status_to_error_kind_mapping_is_exact() {
    assert_eq!(classify_status(401), ErrorKind::Authentication);
    assert_eq!(classify_status(403), ErrorKind::Authentication);
    assert_eq!(classify_status(429), ErrorKind::RateLimited);
    assert_eq!(classify_status(408), ErrorKind::Network);
    assert_eq!(classify_status(500), ErrorKind::Network);
    assert_eq!(classify_status(503), ErrorKind::Network);
    assert_eq!(classify_status(599), ErrorKind::Network);
    assert_eq!(classify_status(400), ErrorKind::Provider);
    assert_eq!(classify_status(404), ErrorKind::Provider);
    assert_eq!(classify_status(418), ErrorKind::Provider);
    assert_eq!(classify_status(499), ErrorKind::Provider);
}

#[test]
fn unauthorized_body_maps_to_authentication_with_backend_message() {
    let body = r#"{"error":{"message":"Token invalid"}}"#;
    let error = map_bridge_http_error(Some(401), Some(body), None);
    assert_eq!(error, TranscriptionError::Authentication("Token invalid".to_string()));

    let error = map_http_failure(401, body);
    assert_eq!(error, TranscriptionError::Authentication("Token invalid".to_string()));
}

#[test]
fn backend_error_messages_are_found_in_all_shapes() {
    assert_eq!(
        parse_chatgpt_error_message(r#"{"error":{"message":"deep"}}"#),
        Some("deep".to_string())
    );
    assert_eq!(parse_chatgpt_error_message(r#"{"error":"flat"}"#), Some("flat".to_string()));
    assert_eq!(parse_chatgpt_error_message(r#"{"message":"top"}"#), Some("top".to_string()));
    assert_eq!(parse_chatgpt_error_message("not json at all"), None);
    // A JSON body whose members are blank or unrecognized falls back to a
    // raw excerpt.
    assert_eq!(
        parse_chatgpt_error_message(r#"{"error":{"message":"   "}}"#),
        Some(r#"{"error":{"message":"   "}}"#.to_string())
    );
    assert_eq!(parse_chatgpt_error_message(r#"{"code":7}"#), Some(r#"{"code":7}"#.to_string()));
}

#[test]
fn bridge_transport_errors_win_over_status_mapping() {
    let error = map_bridge_http_error(Some(401), Some("{}"), Some("  fetch blew up "));
    assert_eq!(error, TranscriptionError::Network("fetch blew up".to_string()));

    // A blank error string is ignored and the status decides.
    let error = map_bridge_http_error(Some(429), None, Some("   "));
    assert!(matches!(error, TranscriptionError::RateLimited(_)));

    // Without a status the failure is backend-reported.
    let error = map_bridge_http_error(None, None, None);
    assert_eq!(
        error,
        TranscriptionError::Provider("ChatGPT request failed in webview bridge".to_string())
    );
}

#[test]
fn fallback_messages_carry_the_status_code() {
    // An empty body yields no backend message, so the status is named.
    let error = map_http_failure(500, "");
    assert_eq!(
        error,
        TranscriptionError::Network("ChatGPT request failed with status 500".to_string())
    );
    // A JSON body without a message is quoted verbatim.
    let error = map_http_failure(500, "{}");
    assert_eq!(error, TranscriptionError::Network("{}".to_string()));
}

#[test]
fn transport_failures_split_into_network_and_provider() {
    let error = classify_transport(true, false, "timed out".to_string());
    assert_eq!(error, TranscriptionError::Network("timed out".to_string()));
    let error = classify_transport(false, true, "refused".to_string());
    assert_eq!(error, TranscriptionError::Network("refused".to_string()));
    let error = classify_transport(false, false, "odd".to_string());
    assert_eq!(error, TranscriptionError::Provider("odd".to_string()));
}

#[test]
fn successful_bodies_yield_normalized_transcripts() {
    let result = transcription_from_body(r#"{"text":"  hello   world "}"#)
        .expect("a well-formed body should parse");
    assert_eq!(result.text, "hello world");
    assert!(result.language.is_none());
    assert!(result.duration_millis.is_none());
    assert!(result.confidence_permille.is_none());

    let error = transcription_from_body("not json").expect_err("malformed body must fail");
    assert!(matches!(error, TranscriptionError::InvalidResponse(_)));
    let error = transcription_from_body(r#"{"nope":1}"#).expect_err("missing text must fail");
    assert!(matches!(error, TranscriptionError::InvalidResponse(_)));
}

#[test]
fn audio_bytes_encode_to_standard_base64() {
    assert_eq!(encode_base64(&vec![1, 2, 3]), "AQID");
    assert_eq!(encode_base64(&Vec::new()), "");
    assert_eq!(encode_base64(&vec![255]), "/w==");
}

#[test]
fn config_overrides_fall_back_to_defaults() {
    let config = ChatGptTranscriptionConfig::from_overrides(None, None);
    assert_eq!(config.endpoint, default_endpoint());
    assert_eq!(config.request_timeout_secs, 180);

    let config = ChatGptTranscriptionConfig::from_overrides(
        Some("  https://example.test/transcribe  ".to_string()),
        Some(" 30 ".to_string()),
    );
    assert_eq!(config.endpoint, "https://example.test/transcribe");
    assert_eq!(config.request_timeout_secs, 30);

    let config = ChatGptTranscriptionConfig::from_overrides(
        Some("   ".to_string()),
        Some("0".to_string()),
    );
    assert_eq!(config.endpoint, default_endpoint());
    assert_eq!(config.request_timeout_secs, 1);

    let config =
        ChatGptTranscriptionConfig::from_overrides(None, Some("not-a-number".to_string()));
    assert_eq!(config.request_timeout_secs, 180);

    let config = ChatGptTranscriptionConfig::from_overrides(None, Some("+30".to_string()));
    assert_eq!(config.request_timeout_secs, 30);
}

#[test]
fn default_config_points_at_the_backend() {
    let config = ChatGptTranscriptionConfig::default();
    assert_eq!(config.endpoint, "https://chatgpt.com/backend-api/transcribe");
    assert_eq!(config.request_timeout_secs, 180);
}
