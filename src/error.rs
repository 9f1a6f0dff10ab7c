//! The structured failure of a provider call and its UI-safe projection.
//!
//! A `ProviderError` carries a message that is always safe to show, an
//! optional diagnostic detail and an optional wrapped cause. Only the
//! sanitized projection crosses a trust boundary: it keeps the coarse kind,
//! the identifiers and the safe message, and nothing else.
use vstd::prelude::*;
use crate::text::has_sub;
use crate::types::ModelId;

verus! {

#[verifier::external_type_specification]
#[verifier::external_body]
pub struct ExAnyhowError(anyhow::Error);

/// Every way a provider call can fail.
#[derive(Debug, Clone, PartialEq, Eq)]
pub enum ProviderErrorKind {
    Timeout,
    Cancelled,
    AuthMissing,
    AuthInvalid,
    ModelNotFound,
    RateLimited { retry_after_ms: Option<u64> },
    NetworkUnavailable,
    DnsFailure,
    TlsFailure,
    ProxyAuthRequired,
    ServiceUnavailable,
    BadRequest,
    ContextTooLarge { max: usize, got: usize },
    UnsupportedFeature(&'static str),
    Internal(&'static str),
}

/// The coarse, UI-safe category of a failure.
#[derive(Debug, Clone, Copy, PartialEq, Eq, Structural)]
pub enum SanitizedErrorKind {
    Timeout,
    Authentication,
    Authorization,
    Configuration,
    Network,
    Service,
    Request,
    Unsupported,
    Internal,
}

/// The category that each kind of failure is shown as.
pub open spec fn coarse(k: ProviderErrorKind) -> SanitizedErrorKind {
    match k {
        ProviderErrorKind::Timeout => SanitizedErrorKind::Timeout,
        ProviderErrorKind::Cancelled => SanitizedErrorKind::Request,
        ProviderErrorKind::AuthMissing => SanitizedErrorKind::Authentication,
        ProviderErrorKind::AuthInvalid => SanitizedErrorKind::Authentication,
        ProviderErrorKind::ModelNotFound => SanitizedErrorKind::Configuration,
        ProviderErrorKind::RateLimited { .. } => SanitizedErrorKind::Service,
        ProviderErrorKind::NetworkUnavailable => SanitizedErrorKind::Network,
        ProviderErrorKind::DnsFailure => SanitizedErrorKind::Network,
        ProviderErrorKind::TlsFailure => SanitizedErrorKind::Network,
        ProviderErrorKind::ProxyAuthRequired => SanitizedErrorKind::Network,
        ProviderErrorKind::ServiceUnavailable => SanitizedErrorKind::Service,
        ProviderErrorKind::BadRequest => SanitizedErrorKind::Request,
        ProviderErrorKind::ContextTooLarge { .. } => SanitizedErrorKind::Request,
        ProviderErrorKind::UnsupportedFeature(_) => SanitizedErrorKind::Unsupported,
        ProviderErrorKind::Internal(_) => SanitizedErrorKind::Internal,
    }
}

impl ProviderErrorKind {
    pub fn sanitized(&self) -> (r: SanitizedErrorKind)
        ensures
            r == coarse(*self),
    {
        match self {
            ProviderErrorKind::Timeout => SanitizedErrorKind::Timeout,
            ProviderErrorKind::Cancelled => SanitizedErrorKind::Request,
            ProviderErrorKind::AuthMissing | ProviderErrorKind::AuthInvalid => {
                SanitizedErrorKind::Authentication
            },
            ProviderErrorKind::ModelNotFound => SanitizedErrorKind::Configuration,
            ProviderErrorKind::RateLimited { .. } => SanitizedErrorKind::Service,
            ProviderErrorKind::NetworkUnavailable
            | ProviderErrorKind::DnsFailure
            | ProviderErrorKind::TlsFailure
            | ProviderErrorKind::ProxyAuthRequired => SanitizedErrorKind::Network,
            ProviderErrorKind::ServiceUnavailable => SanitizedErrorKind::Service,
            ProviderErrorKind::BadRequest => SanitizedErrorKind::Request,
            ProviderErrorKind::ContextTooLarge { .. } => SanitizedErrorKind::Request,
            ProviderErrorKind::UnsupportedFeature(_) => SanitizedErrorKind::Unsupported,
            ProviderErrorKind::Internal(_) => SanitizedErrorKind::Internal,
        }
    }
}

/// Identifier of a provider, for internal use.
#[derive(Debug, Clone, PartialEq, Eq, Hash)]
pub struct ProviderId(pub String);

/// Provider identifier as shown to a client.
#[derive(Debug, Clone)]
pub struct SanitizedProviderId(pub String);

/// Model identifier as shown to a client.
#[derive(Debug, Clone)]
pub struct SanitizedModelId(pub String);

/// A failed provider call.
#[derive(Debug)]
pub struct ProviderError {
    pub kind: ProviderErrorKind,
    pub provider_id: ProviderId,
    pub model_id: Option<ModelId>,
    /// Safe to display.
    pub user_message: String,
    /// For diagnostics only.
    pub internal_detail: Option<String>,
    /// Never surfaced.
    pub source: Option<anyhow::Error>,
}

/// The UI-safe projection of a `ProviderError`.
#[derive(Debug, Clone)]
pub struct SanitizedProviderError {
    pub kind: SanitizedErrorKind,
    pub provider_id: SanitizedProviderId,
    pub model_id: Option<SanitizedModelId>,
    pub user_message: String,
}

/// The model identifier text of an optional model identifier.
pub open spec fn model_text(m: Option<ModelId>) -> Option<Seq<char>> {
    match m {
        Some(id) => Some(id.0@),
        None => None,
    }
}

/// The model identifier text of an optional sanitized model identifier.
pub open spec fn sanitized_model_text(m: Option<SanitizedModelId>) -> Option<Seq<char>> {
    match m {
        Some(id) => Some(id.0@),
        None => None,
    }
}

/// What a client may see of a failure: its category, provider, model and safe message.
pub type ErrorProjection = (SanitizedErrorKind, Seq<char>, Option<Seq<char>>, Seq<char>);

/// The projection of a failure that `ProviderError::sanitized` produces.
pub open spec fn projection(e: ProviderError) -> ErrorProjection {
    (coarse(e.kind), e.provider_id.0@, model_text(e.model_id), e.user_message@)
}

/// The content of a sanitized error.
pub open spec fn sanitized_content(s: SanitizedProviderError) -> ErrorProjection {
    (s.kind, s.provider_id.0@, sanitized_model_text(s.model_id), s.user_message@)
}

impl ProviderError {
    pub fn new(
        kind: ProviderErrorKind,
        provider_id: ProviderId,
        model_id: Option<ModelId>,
        user_message: &str,
    ) -> (r: ProviderError)
        ensures
            r.kind == kind,
            r.provider_id == provider_id,
            r.model_id == model_id,
            r.user_message@ == user_message@,
            r.internal_detail is None,
            r.source is None,
    {
        ProviderError {
            kind,
            provider_id,
            model_id,
            user_message: user_message.to_owned(),
            internal_detail: None,
            source: None,
        }
    }

    /// Attaches a diagnostic detail.
    pub fn with_internal_detail(self, detail: &str) -> (r: ProviderError)
        ensures
            r.internal_detail is Some && r.internal_detail->0@ == detail@,
            r.kind == self.kind,
            r.provider_id == self.provider_id,
            r.model_id == self.model_id,
            r.user_message == self.user_message,
            r.source == self.source,
    {
        ProviderError { internal_detail: Some(detail.to_owned()), ..self }
    }

    /// Attaches the underlying cause.
    pub fn with_source(self, source: anyhow::Error) -> (r: ProviderError)
        ensures
            r.source == Some(source),
            r.kind == self.kind,
            r.provider_id == self.provider_id,
            r.model_id == self.model_id,
            r.user_message == self.user_message,
            r.internal_detail == self.internal_detail,
    {
        ProviderError { source: Some(source), ..self }
    }

    /// The projection that may cross a trust boundary.
    pub fn sanitized(&self) -> (r: SanitizedProviderError)
        ensures
            sanitized_content(r) == projection(*self),
    {
        let model_id = match &self.model_id {
            Some(id) => Some(SanitizedModelId(id.as_str().to_owned())),
            None => None,
        };
        SanitizedProviderError {
            kind: self.kind.sanitized(),
            provider_id: SanitizedProviderId(self.provider_id.0.clone()),
            model_id,
            user_message: self.user_message.clone(),
        }
    }
}

/// The category shown for a failure depends on its kind alone; the whole
/// projection ignores the diagnostic detail and the wrapped cause; and every
/// piece of text in the projected message occurs in the safe message, so
/// nothing that occurs only in the diagnostic detail can leak through it.
pub proof fn lemma_projection_ignores_detail(e1: ProviderError, e2: ProviderError, p: Seq<char>)
    ensures
        e1.kind == e2.kind ==> projection(e1).0 == projection(e2).0,
        e1.kind == e2.kind && e1.provider_id == e2.provider_id && e1.model_id == e2.model_id
            && e1.user_message == e2.user_message ==> projection(e1) == projection(e2),
        has_sub(projection(e1).3, p) ==> has_sub(e1.user_message@, p),
{
}

} // verus!
