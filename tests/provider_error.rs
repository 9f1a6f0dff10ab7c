use boomai::error::{ProviderError, ProviderErrorKind, ProviderId, SanitizedErrorKind};
use boomai::types::ModelId;

#[test]
fn test_error_mapping_http_codes() {
    assert_eq!(ProviderErrorKind::AuthInvalid.sanitized(), SanitizedErrorKind::Authentication);
    assert_eq!(ProviderErrorKind::AuthMissing.sanitized(), SanitizedErrorKind::Authentication);

    assert_eq!(ProviderErrorKind::NetworkUnavailable.sanitized(), SanitizedErrorKind::Network);
    assert_eq!(ProviderErrorKind::DnsFailure.sanitized(), SanitizedErrorKind::Network);
    assert_eq!(ProviderErrorKind::TlsFailure.sanitized(), SanitizedErrorKind::Network);

    assert_eq!(ProviderErrorKind::ServiceUnavailable.sanitized(), SanitizedErrorKind::Service);
    assert_eq!(
        ProviderErrorKind::RateLimited { retry_after_ms: None }.sanitized(),
        SanitizedErrorKind::Service
    );

    assert_eq!(ProviderErrorKind::ModelNotFound.sanitized(), SanitizedErrorKind::Configuration);

    assert_eq!(ProviderErrorKind::Timeout.sanitized(), SanitizedErrorKind::Timeout);
}

#[test]
fn test_error_sanitization() {
    let error = ProviderError::new(
        ProviderErrorKind::AuthInvalid,
        ProviderId("openai".to_string()),
        Some(ModelId("gpt-4".to_string())),
        "Authentication failed",
    )
    .with_internal_detail("API key sk-1234567890abcdef is invalid");

    let sanitized = error.sanitized();

    assert!(!sanitized.user_message.contains("sk-1234567890abcdef"));
    assert_eq!(sanitized.kind, SanitizedErrorKind::Authentication);
    assert_eq!(sanitized.provider_id.0, "openai");
    assert_eq!(sanitized.model_id.as_ref().expect("model_id should be present").0, "gpt-4");
}

#[test]
fn test_error_creation() {
    let error = ProviderError::new(
        ProviderErrorKind::Timeout,
        ProviderId("test".to_string()),
        None,
        "Request timed out",
    );

    assert_eq!(error.kind, ProviderErrorKind::Timeout);
    assert_eq!(error.provider_id.0, "test");
    assert_eq!(error.user_message, "Request timed out");
    assert!(error.model_id.is_none());
}

#[test]
fn test_error_with_internal_detail() {
    let error = ProviderError::new(
        ProviderErrorKind::NetworkUnavailable,
        ProviderId("test".to_string()),
        None,
        "Network error",
    )
    .with_internal_detail("Connection refused on port 8080");

    assert_eq!(error.internal_detail, Some("Connection refused on port 8080".to_string()));
    let sanitized = error.sanitized();
    assert!(!sanitized.user_message.contains("port 8080"));
}

#[test]
fn test_context_too_large_error() {
    let error = ProviderErrorKind::ContextTooLarge { max: 4096, got: 8192 };
    assert_eq!(error.sanitized(), SanitizedErrorKind::Request);

    match error {
        ProviderErrorKind::ContextTooLarge { max, got } => {
            assert_eq!(max, 4096);
            assert_eq!(got, 8192);
        }
        other => panic!("Expected ContextTooLarge, got {:?}", other),
    }
}

#[test]
fn test_rate_limited_error() {
    let error = ProviderErrorKind::RateLimited { retry_after_ms: Some(5000) };
    assert_eq!(error.sanitized(), SanitizedErrorKind::Service);

    match error {
        ProviderErrorKind::RateLimited { retry_after_ms } => {
            assert_eq!(retry_after_ms, Some(5000));
        }
        other => panic!("Expected RateLimited, got {:?}", other),
    }
}

#[test]
fn sanitized_projection_drops_secret_detail_for_every_kind() {
    let kinds = vec![
        ProviderErrorKind::Timeout,
        ProviderErrorKind::Cancelled,
        ProviderErrorKind::AuthMissing,
        ProviderErrorKind::AuthInvalid,
        ProviderErrorKind::ModelNotFound,
        ProviderErrorKind::RateLimited { retry_after_ms: Some(10) },
        ProviderErrorKind::NetworkUnavailable,
        ProviderErrorKind::DnsFailure,
        ProviderErrorKind::TlsFailure,
        ProviderErrorKind::ProxyAuthRequired,
        ProviderErrorKind::ServiceUnavailable,
        ProviderErrorKind::BadRequest,
        ProviderErrorKind::ContextTooLarge { max: 1, got: 2 },
        ProviderErrorKind::UnsupportedFeature("tools"),
        ProviderErrorKind::Internal("limiter"),
    ];
    for kind in kinds {
        let plain = ProviderError::new(kind.clone(), ProviderId("p".to_string()), None, "safe text");
        let secret = ProviderError::new(kind.clone(), ProviderId("p".to_string()), None, "safe text")
            .with_internal_detail("SECRET-TOKEN-42 at http://10.0.0.1");
        let a = plain.sanitized();
        let b = secret.sanitized();
        assert_eq!(a.kind, b.kind);
        assert_eq!(a.kind, kind.sanitized());
        assert_eq!(a.user_message, b.user_message);
        assert!(!b.user_message.contains("SECRET-TOKEN-42"));
        assert!(!b.user_message.contains("10.0.0.1"));
    }
}

#[test]
fn remaining_kinds_map_to_their_categories() {
    assert_eq!(ProviderErrorKind::Cancelled.sanitized(), SanitizedErrorKind::Request);
    assert_eq!(ProviderErrorKind::BadRequest.sanitized(), SanitizedErrorKind::Request);
    assert_eq!(ProviderErrorKind::ProxyAuthRequired.sanitized(), SanitizedErrorKind::Network);
    assert_eq!(ProviderErrorKind::UnsupportedFeature("x").sanitized(), SanitizedErrorKind::Unsupported);
    assert_eq!(ProviderErrorKind::Internal("x").sanitized(), SanitizedErrorKind::Internal);
}

#[test]
fn error_with_source_keeps_the_rest() {
    let error = ProviderError::new(
        ProviderErrorKind::BadRequest,
        ProviderId("x".to_string()),
        Some(ModelId("m".to_string())),
        "bad",
    )
    .with_source(anyhow::Error::msg("root cause"));
    assert!(error.source.is_some());
    assert_eq!(error.user_message, "bad");
    assert_eq!(error.sanitized().model_id.unwrap().0, "m");
}
