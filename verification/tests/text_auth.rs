use voice_pipeline::auth::{
    apply_refresh, evaluate_credentials, needs_refresh, refresh_failure_error, AuthEvaluation,
    ChatGptCredentials, RefreshedTokens,
};
use voice_pipeline::text::{
    normalize_optional_string, normalize_transcript_text, parse_u64, trim_str,
    truncate_response_body, u64_to_string,
};
use voice_pipeline::transcription::TranscriptionError;

#[test]
fn normalization_trims_and_collapses_whitespace() {
    assert_eq!(normalize_transcript_text("  hello   world "), "hello world");
    assert_eq!(normalize_transcript_text(""), "");
    assert_eq!(normalize_transcript_text("   \t \n"), "");
    assert_eq!(normalize_transcript_text("one"), "one");
    assert_eq!(normalize_transcript_text("\t a \n b \r\n c "), "a b c");
}

#[test]
fn trimming_behaves_like_the_standard_trim() {
    assert_eq!(trim_str("  x  "), "x");
    assert_eq!(trim_str(""), "");
    assert_eq!(trim_str(" \t\r\n"), "");
}

#[test]
fn optional_strings_are_dropped_when_blank() {
    assert_eq!(normalize_optional_string(None), None);
    assert_eq!(normalize_optional_string(Some("   ".to_string())), None);
    assert_eq!(normalize_optional_string(Some(" en ".to_string())), Some("en".to_string()));
}

#[test]
fn long_bodies_are_truncated_to_an_excerpt() {
    let short = truncate_response_body("  brief  ");
    assert_eq!(short, "brief");

    let long_input: String = "x".repeat(400);
    let truncated = truncate_response_body(&long_input);
    assert_eq!(truncated.chars().count(), 303);
    assert!(truncated.ends_with("..."));
    assert!(truncated.starts_with("xxx"));
}

#[test]
fn decimal_parsing_is_exact() {
    assert_eq!(parse_u64("0"), Some(0));
    assert_eq!(parse_u64("180"), Some(180));
    assert_eq!(parse_u64("18446744073709551615"), Some(u64::MAX));
    assert_eq!(parse_u64("18446744073709551616"), None);
    assert_eq!(parse_u64(""), None);
    assert_eq!(parse_u64("12x"), None);
    assert_eq!(parse_u64(" 5"), None);
    // One leading plus sign is allowed, as in std's unsigned parsing.
    assert_eq!(parse_u64("+5"), Some(5));
    assert_eq!(parse_u64("+"), None);
    assert_eq!(parse_u64("++5"), None);
    assert_eq!(parse_u64("-5"), None);
}

#[test]
fn decimal_formatting_is_exact() {
    assert_eq!(u64_to_string(0), "0");
    assert_eq!(u64_to_string(7), "7");
    assert_eq!(u64_to_string(65535), "65535");
    assert_eq!(u64_to_string(u64::MAX), "18446744073709551615");
}

fn credentials(expires_at: u64) -> ChatGptCredentials {
    ChatGptCredentials {
        access_token: "access".to_string(),
        refresh_token: "refresh".to_string(),
        expires_at,
        account_id: "acct_123".to_string(),
    }
}

#[test]
fn token_refresh_triggers_exactly_at_the_margin() {
    let now: u64 = 1_000_000;

    // One second beyond the margin: the stored token is used as-is.
    assert!(!needs_refresh(now + 61, now));
    match evaluate_credentials(true, Some(credentials(now + 61)), now) {
        Ok(AuthEvaluation::UseCurrent(context)) => {
            assert_eq!(context.access_token, "access");
            assert_eq!(context.account_id, "acct_123");
        }
        _ => panic!("a fresh token should be used as-is"),
    }

    // Inside the margin: refresh first.
    assert!(needs_refresh(now + 59, now));
    match evaluate_credentials(true, Some(credentials(now + 59)), now) {
        Ok(AuthEvaluation::RefreshWith(token)) => assert_eq!(token, "refresh"),
        _ => panic!("a stale token should be refreshed"),
    }

    // Exactly at the margin counts as expiring.
    assert!(needs_refresh(now + 60, now));
}

#[test]
fn missing_or_mismatched_login_fails_with_authentication() {
    let now: u64 = 50;
    match evaluate_credentials(false, Some(credentials(now + 600)), now) {
        Err(TranscriptionError::Authentication(_)) => {}
        _ => panic!("a non-oauth login method must fail with Authentication"),
    }
    match evaluate_credentials(true, None, now) {
        Err(TranscriptionError::Authentication(_)) => {}
        _ => panic!("absent credentials must fail with Authentication"),
    }
}

#[test]
fn refresh_responses_rotate_only_supplied_fields() {
    let current = credentials(10);
    let (stored, context) = apply_refresh(
        current,
        RefreshedTokens {
            access_token: "new-access".to_string(),
            refresh_token: None,
            expires_at: 99,
            account_id: None,
        },
    );
    assert_eq!(stored.access_token, "new-access");
    assert_eq!(stored.refresh_token, "refresh");
    assert_eq!(stored.account_id, "acct_123");
    assert_eq!(stored.expires_at, 99);
    assert_eq!(context.access_token, "new-access");
    assert_eq!(context.account_id, "acct_123");

    let current = credentials(10);
    let (stored, context) = apply_refresh(
        current,
        RefreshedTokens {
            access_token: "new-access".to_string(),
            refresh_token: Some("new-refresh".to_string()),
            expires_at: 99,
            account_id: Some("acct_456".to_string()),
        },
    );
    assert_eq!(stored.refresh_token, "new-refresh");
    assert_eq!(stored.account_id, "acct_456");
    assert_eq!(context.account_id, "acct_456");
}

#[test]
fn refresh_failures_surface_as_authentication() {
    let error = refresh_failure_error("connection reset".to_string());
    assert_eq!(error, TranscriptionError::Authentication("connection reset".to_string()));
}
