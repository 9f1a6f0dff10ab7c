use boomai::error::ProviderErrorKind;
use boomai::http::{
    bearer, completions_url, network_failure, read_completion, status_error_kind, status_failure,
};
use boomai::model_request::FinishReason;

#[test]
fn statuses_map_to_error_kinds() {
    assert_eq!(status_error_kind(401), ProviderErrorKind::AuthInvalid);
    assert_eq!(status_error_kind(403), ProviderErrorKind::AuthInvalid);
    assert_eq!(status_error_kind(404), ProviderErrorKind::ModelNotFound);
    assert_eq!(status_error_kind(429), ProviderErrorKind::RateLimited { retry_after_ms: None });
    assert_eq!(status_error_kind(500), ProviderErrorKind::ServiceUnavailable);
    assert_eq!(status_error_kind(599), ProviderErrorKind::ServiceUnavailable);
    assert_eq!(status_error_kind(400), ProviderErrorKind::BadRequest);
    assert_eq!(status_error_kind(600), ProviderErrorKind::BadRequest);
}

#[test]
fn failed_status_keeps_body_out_of_the_safe_message() {
    let e = status_failure("http://h", "m", 401, "401 Unauthorized", "key SECRET-KEY-1 rejected");
    assert_eq!(e.kind, ProviderErrorKind::AuthInvalid);
    assert_eq!(e.user_message, "API request failed");
    assert_eq!(e.internal_detail.as_deref(), Some("HTTP 401 Unauthorized: key SECRET-KEY-1 rejected"));
    assert!(!e.sanitized().user_message.contains("SECRET-KEY-1"));
    let n = network_failure("http://h", "m", true);
    assert_eq!(n.kind, ProviderErrorKind::NetworkUnavailable);
    assert_eq!(n.user_message, "Failed to read response from provider");
    assert_eq!(network_failure("http://h", "m", false).user_message, "Failed to send request to provider");
}

#[test]
fn urls_and_headers() {
    assert_eq!(completions_url("http://localhost:11434/v1//"), "http://localhost:11434/v1/chat/completions");
    assert_eq!(completions_url("http://x"), "http://x/chat/completions");
    assert_eq!(bearer(&Some("abc".to_string())), Some("Bearer abc".to_string()));
    assert_eq!(bearer(&Some(String::new())), None);
    assert_eq!(bearer(&None), None);
}

#[test]
fn completion_bodies_are_read() {
    let ok = read_completion(
        "http://h",
        "m",
        r#"{"choices":[{"message":{"content":"hi"},"finish_reason":"length"}]}"#,
    )
    .unwrap();
    assert_eq!(ok.0, "hi");
    assert!(matches!(ok.1, FinishReason::Length));
    let other = read_completion("http://h", "m", r#"{"choices":[{"message":{"content":"x"}}]}"#).unwrap();
    assert!(matches!(other.1, FinishReason::Stop));
    let missing = read_completion("http://h", "m", r#"{"choices":[]}"#).unwrap_err();
    assert_eq!(missing.kind, ProviderErrorKind::BadRequest);
    assert_eq!(missing.user_message, "Invalid response format: missing content");
    let bad = read_completion("http://h", "m", "not json").unwrap_err();
    assert_eq!(bad.user_message, "Invalid response format from provider");
    assert_eq!(bad.provider_id.0, "http://h");
}
