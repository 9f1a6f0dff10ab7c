//! What a text-generation backend returns, and the routing hints of a request.
use vstd::prelude::*;
use crate::types::ModelId;

verus! {

#[derive(Debug, Clone, Copy, PartialEq, Eq, Structural)]
pub enum RequestPriority {
    Interactive,
    Background,
}

#[derive(Debug, Clone, Copy, PartialEq, Eq, Structural)]
pub enum TruncationPolicy {
    ErrorIfTooLarge,
    AutoTrimOldest,
    SummarizeThenTrim { max_depth: usize },
}

#[derive(Debug, Clone, Copy, PartialEq, Eq, Structural)]
pub enum ResponseFormatType {
    Text,
    Json,
}

#[derive(Debug, Clone)]
pub enum FinishReason {
    Stop,
    Length,
    ToolCalls,
    ContentFilter,
    Error(String),
}

#[derive(Debug, Clone, Copy, PartialEq, Eq, Structural)]
pub struct Usage {
    pub prompt_tokens: usize,
    pub completion_tokens: usize,
    pub total_tokens: usize,
}

#[derive(Debug, Clone)]
pub struct ToolFunction {
    pub name: String,
    /// A JSON document.
    pub arguments: String,
}

#[derive(Debug, Clone)]
pub struct ToolCall {
    pub id: String,
    pub function: ToolFunction,
}

#[derive(Debug, Clone, Copy, PartialEq, Eq, Structural)]
pub enum WarningKind {
    ContextTruncated,
    TokenLimitApproached,
    UnsupportedFeature,
    Performance,
}

#[derive(Debug, Clone)]
pub struct ResponseWarning {
    pub kind: WarningKind,
    pub message: String,
}

/// A normalized backend response.
#[derive(Debug, Clone)]
pub struct ModelResponse {
    pub content: String,
    pub tool_calls: Vec<ToolCall>,
    pub finish_reason: FinishReason,
    pub usage: Usage,
    pub model_id: ModelId,
    pub latency_ms: u64,
    pub warnings: Vec<ResponseWarning>,
}

} // verus!
