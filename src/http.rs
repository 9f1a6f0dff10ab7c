//! The decisions around one chat-completions call to an HTTP backend: where
//! it goes, how it is authorized, how a failed status is classified and how
//! the reply body is read. The call itself is made outside.
use vstd::prelude::*;
use crate::error::{ProviderError, ProviderErrorKind, ProviderId};
use crate::model_request::FinishReason;
use crate::text::{strip_trailing, trim_end_matches};
use crate::types::ModelId;
use crate::voting::opt_view;

verus! {

/// The message content and finish reason of the first choice of a
/// chat-completions reply, when the text is JSON (each one only when it is a string).
pub uninterp spec fn completion_fields(text: Seq<char>) -> Option<(Option<Seq<char>>, Option<Seq<char>>)>;

/// Relies on `serde_json::from_str` into `serde_json::Value` and on indexing
/// that value, which yields `Null` for a missing member.
#[verifier::external_body]
fn parse_completion_fields(text: &str) -> (r: Option<(Option<String>, Option<String>)>)
    ensures
        match r {
            Some(fields) => completion_fields(text@) == Some(
                (opt_view(fields.0), opt_view(fields.1)),
            ),
            None => completion_fields(text@) is None,
        },
{
    let data: serde_json::Value = serde_json::from_str(text).ok()?;
    let choice = &data["choices"][0];
    Some((
        choice["message"]["content"].as_str().map(|s| s.to_string()),
        choice["finish_reason"].as_str().map(|s| s.to_string()),
    ))
}

/// The error kind of a failed HTTP status.
pub open spec fn status_kind(status: u16) -> ProviderErrorKind {
    if status == 401 || status == 403 {
        ProviderErrorKind::AuthInvalid
    } else if status == 404 {
        ProviderErrorKind::ModelNotFound
    } else if status == 429 {
        ProviderErrorKind::RateLimited { retry_after_ms: None }
    } else if 500 <= status && status <= 599 {
        ProviderErrorKind::ServiceUnavailable
    } else {
        ProviderErrorKind::BadRequest
    }
}

pub fn status_error_kind(status: u16) -> (r: ProviderErrorKind)
    ensures
        r == status_kind(status),
{
    if status == 401 || status == 403 {
        ProviderErrorKind::AuthInvalid
    } else if status == 404 {
        ProviderErrorKind::ModelNotFound
    } else if status == 429 {
        ProviderErrorKind::RateLimited { retry_after_ms: None }
    } else if 500 <= status && status <= 599 {
        ProviderErrorKind::ServiceUnavailable
    } else {
        ProviderErrorKind::BadRequest
    }
}

fn backend_error(kind: ProviderErrorKind, base_url: &str, model: &str, message: &str) -> (r:
    ProviderError)
    ensures
        r.kind == kind,
        r.provider_id.0@ == base_url@,
        r.model_id is Some && (r.model_id->0).0@ == model@,
        r.user_message@ == message@,
        r.internal_detail is None,
        r.source is None,
{
    ProviderError::new(
        kind,
        ProviderId(base_url.to_owned()),
        Some(ModelId(model.to_owned())),
        message,
    )
}

/// The failure for a reply with a non-success status; `status_line` is the
/// status as the client prints it, `body` what the backend sent.
pub fn status_failure(base_url: &str, model: &str, status: u16, status_line: &str, body: &str) -> (r:
    ProviderError)
    ensures
        r.kind == status_kind(status),
        r.provider_id.0@ == base_url@,
        r.model_id is Some && (r.model_id->0).0@ == model@,
        r.user_message@ == "API request failed"@,
        r.internal_detail is Some && r.internal_detail->0@ == "HTTP "@ + status_line@ + ": "@
            + body@,
        r.source is None,
{
    let detail = String::from_str("HTTP ").concat(status_line).concat(": ").concat(body);
    backend_error(status_error_kind(status), base_url, model, "API request failed")
        .with_internal_detail(detail.as_str())
}

/// The failure for a request that could not be sent (`reading` false) or
/// whose reply could not be read (`reading` true).
pub fn network_failure(base_url: &str, model: &str, reading: bool) -> (r: ProviderError)
    ensures
        r.kind == ProviderErrorKind::NetworkUnavailable,
        r.provider_id.0@ == base_url@,
        r.model_id is Some && (r.model_id->0).0@ == model@,
        r.user_message@ == if reading {
            "Failed to read response from provider"@
        } else {
            "Failed to send request to provider"@
        },
        r.internal_detail is None,
        r.source is None,
{
    if reading {
        backend_error(
            ProviderErrorKind::NetworkUnavailable,
            base_url,
            model,
            "Failed to read response from provider",
        )
    } else {
        backend_error(
            ProviderErrorKind::NetworkUnavailable,
            base_url,
            model,
            "Failed to send request to provider",
        )
    }
}

/// The chat-completions endpoint under a base URL.
pub fn completions_url(base_url: &str) -> (r: String)
    ensures
        r@ == strip_trailing(base_url@, "/"@) + "/chat/completions"@,
{
    String::from_str(trim_end_matches(base_url, "/")).concat("/chat/completions")
}

/// The authorization header value for an API key, when there is a non-empty one.
pub fn bearer(api_key: &Option<String>) -> (r: Option<String>)
    ensures
        match api_key {
            Some(k) => if k@.len() > 0 {
                r is Some && r->0@ == "Bearer "@ + k@
            } else {
                r is None
            },
            None => r is None,
        },
{
    match api_key {
        Some(k) => {
            if k.as_str().is_empty() {
                None
            } else {
                Some(String::from_str("Bearer ").concat(k.as_str()))
            }
        },
        None => None,
    }
}

/// Which finish reason a reply names; an unknown or missing one counts as a stop.
pub open spec fn finish_of(name: Option<Seq<char>>) -> FinishReason {
    match name {
        Some(n) => if n == "length"@ {
            FinishReason::Length
        } else if n == "tool_calls"@ {
            FinishReason::ToolCalls
        } else if n == "content_filter"@ {
            FinishReason::ContentFilter
        } else {
            FinishReason::Stop
        },
        None => FinishReason::Stop,
    }
}

pub fn finish_reason_of(name: &Option<String>) -> (r: FinishReason)
    ensures
        r == finish_of(opt_view(*name)),
{
    match name {
        Some(n) => {
            if *n == String::from_str("length") {
                FinishReason::Length
            } else if *n == String::from_str("tool_calls") {
                FinishReason::ToolCalls
            } else if *n == String::from_str("content_filter") {
                FinishReason::ContentFilter
            } else {
                FinishReason::Stop
            }
        },
        None => FinishReason::Stop,
    }
}

/// Reads the content and finish reason out of a reply body.
pub fn read_completion(base_url: &str, model: &str, body: &str) -> (r: Result<
    (String, FinishReason),
    ProviderError,
>)
    ensures
        match completion_fields(body@) {
            None => r is Err && r->Err_0.kind == ProviderErrorKind::BadRequest
                && r->Err_0.user_message@ == "Invalid response format from provider"@,
            Some((None, _)) => r is Err && r->Err_0.kind == ProviderErrorKind::BadRequest
                && r->Err_0.user_message@ == "Invalid response format: missing content"@,
            Some((Some(c), f)) => r is Ok && (r->Ok_0).0@ == c && r->Ok_0.1 == finish_of(f),
        },
        r is Err ==> r->Err_0.provider_id.0@ == base_url@ && r->Err_0.model_id is Some
            && (r->Err_0.model_id->0).0@ == model@,
{
    match parse_completion_fields(body) {
        None => Err(
            backend_error(
                ProviderErrorKind::BadRequest,
                base_url,
                model,
                "Invalid response format from provider",
            ),
        ),
        Some((content, finish)) => match content {
            None => Err(
                backend_error(
                    ProviderErrorKind::BadRequest,
                    base_url,
                    model,
                    "Invalid response format: missing content",
                ),
            ),
            Some(c) => {
                let reason = finish_reason_of(&finish);
                Ok((c, reason))
            },
        },
    }
}

} // verus!
