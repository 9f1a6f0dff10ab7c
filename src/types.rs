//! Shared data of the orchestrator: messages, identifiers, execution
//! policies and status tags, and model endpoint configuration.
use vstd::prelude::*;
use crate::text::{starts, trim_of, starts_with, trim};

verus! {

#[derive(Debug, Clone, Copy, PartialEq, Eq, Structural)]
pub enum Role {
    User,
    Assistant,
    System,
}

#[derive(Debug, Clone)]
pub struct Message {
    pub role: Role,
    pub content: String,
}

/// Identifier of a model.
#[derive(Debug, Clone, PartialEq, Eq, Hash)]
pub struct ModelId(pub String);

/// Identifier of an auxiliary tool server.
#[derive(Debug, Clone, PartialEq, Eq, Hash)]
pub struct ServerId(pub String);

/// Name of a tool.
#[derive(Debug, Clone, PartialEq, Eq, Hash)]
pub struct ToolName(pub String);

impl ModelId {
    pub fn as_str(&self) -> (r: &str)
        ensures
            r@ == self.0@,
    {
        self.0.as_str()
    }
}

impl ServerId {
    pub fn as_str(&self) -> (r: &str)
        ensures
            r@ == self.0@,
    {
        self.0.as_str()
    }
}

impl ToolName {
    pub fn as_str(&self) -> (r: &str)
        ensures
            r@ == self.0@,
    {
        self.0.as_str()
    }
}

/// How a top-level request is fulfilled; chosen once per request.
#[derive(Debug, Clone)]
pub enum ExecutionPolicy {
    DecomposeAndExecute,
    InternalStub { tool_name: String, args: String },
    SingleProbe { prompt: String },
    MakerRace { prompt: String, n: usize, k: usize },
}

/// Progress and outcome tag reported with a response.
#[derive(Debug, Clone)]
pub enum ExecutionStatus {
    Classifying,
    Decomposing,
    Voting { round: u32 },
    ToolCall { tool: ToolName },
    Solved,
    Error,
    Processing,
    Done,
    Failed,
}

#[derive(Debug, Clone)]
pub struct ChatRequest {
    pub messages: Vec<Message>,
}

/// The status a response carries when none is given.
pub fn default_status() -> (r: ExecutionStatus)
    ensures
        r is Done,
{
    ExecutionStatus::Done
}

/// Why a model endpoint configuration is refused.
#[derive(Debug, Clone, Copy, PartialEq, Eq, Structural)]
pub enum ConfigError {
    MissingBaseUrl,
    MissingModel,
    EmptyBaseUrl,
    InvalidScheme,
    EmptyModel,
}

/// The message shown for each configuration error.
pub open spec fn config_message(e: ConfigError) -> Seq<char> {
    match e {
        ConfigError::MissingBaseUrl => "base_url is required for ModelConfig"@,
        ConfigError::MissingModel => "model is required for ModelConfig"@,
        ConfigError::EmptyBaseUrl => "base_url cannot be empty"@,
        ConfigError::InvalidScheme => "base_url must be a valid HTTP/HTTPS URL"@,
        ConfigError::EmptyModel => "model name cannot be empty"@,
    }
}

impl ConfigError {
    /// A message that can be shown to the user.
    pub fn message(&self) -> (r: String)
        ensures
            r@ == config_message(*self),
    {
        match self {
            ConfigError::MissingBaseUrl => String::from_str("base_url is required for ModelConfig"),
            ConfigError::MissingModel => String::from_str("model is required for ModelConfig"),
            ConfigError::EmptyBaseUrl => String::from_str("base_url cannot be empty"),
            ConfigError::InvalidScheme => String::from_str(
                "base_url must be a valid HTTP/HTTPS URL",
            ),
            ConfigError::EmptyModel => String::from_str("model name cannot be empty"),
        }
    }
}

/// Where and how to reach a model endpoint.
#[derive(Debug, Clone)]
pub struct ModelConfig {
    pub base_url: String,
    pub api_key: Option<String>,
    pub model: String,
}

/// The verdict on a configuration: the first rule it breaks, if any.
pub open spec fn config_check(base_url: Seq<char>, model: Seq<char>) -> Result<(), ConfigError> {
    if trim_of(base_url).len() == 0 {
        Err(ConfigError::EmptyBaseUrl)
    } else if !starts(base_url, "http://"@) && !starts(base_url, "https://"@) {
        Err(ConfigError::InvalidScheme)
    } else if trim_of(model).len() == 0 {
        Err(ConfigError::EmptyModel)
    } else {
        Ok(())
    }
}

impl ModelConfig {
    pub fn builder() -> (r: ModelConfigBuilder)
        ensures
            r.base_url is None,
            r.api_key is None,
            r.model is None,
    {
        ModelConfigBuilder { base_url: None, api_key: None, model: None }
    }

    pub fn validate(&self) -> (r: Result<(), ConfigError>)
        ensures
            r == config_check(self.base_url@, self.model@),
    {
        if trim(self.base_url.as_str()).is_empty() {
            return Err(ConfigError::EmptyBaseUrl);
        }
        if !starts_with(self.base_url.as_str(), "http://") && !starts_with(
            self.base_url.as_str(),
            "https://",
        ) {
            return Err(ConfigError::InvalidScheme);
        }
        if trim(self.model.as_str()).is_empty() {
            return Err(ConfigError::EmptyModel);
        }
        Ok(())
    }
}

/// Collects the parts of a `ModelConfig`.
#[derive(Debug, Clone)]
pub struct ModelConfigBuilder {
    pub base_url: Option<String>,
    pub api_key: Option<String>,
    pub model: Option<String>,
}

impl ModelConfigBuilder {
    pub fn base_url(self, base_url: &str) -> (r: ModelConfigBuilder)
        ensures
            r.base_url is Some && r.base_url->0@ == base_url@,
            r.api_key == self.api_key,
            r.model == self.model,
    {
        ModelConfigBuilder { base_url: Some(base_url.to_owned()), ..self }
    }

    pub fn api_key(self, api_key: &str) -> (r: ModelConfigBuilder)
        ensures
            r.api_key is Some && r.api_key->0@ == api_key@,
            r.base_url == self.base_url,
            r.model == self.model,
    {
        ModelConfigBuilder { api_key: Some(api_key.to_owned()), ..self }
    }

    pub fn model(self, model: &str) -> (r: ModelConfigBuilder)
        ensures
            r.model is Some && r.model->0@ == model@,
            r.base_url == self.base_url,
            r.api_key == self.api_key,
    {
        ModelConfigBuilder { model: Some(model.to_owned()), ..self }
    }

    /// The configuration, once both the base URL and the model are set.
    pub fn build(self) -> (r: Result<ModelConfig, ConfigError>)
        ensures
            self.base_url is None ==> r == Err::<ModelConfig, ConfigError>(
                ConfigError::MissingBaseUrl,
            ),
            self.base_url is Some && self.model is None ==> r == Err::<ModelConfig, ConfigError>(
                ConfigError::MissingModel,
            ),
            self.base_url is Some && self.model is Some ==> r is Ok && r->Ok_0.base_url
                == self.base_url->0 && r->Ok_0.model == self.model->0 && r->Ok_0.api_key
                == self.api_key,
    {
        match self.base_url {
            None => Err(ConfigError::MissingBaseUrl),
            Some(base_url) => match self.model {
                None => Err(ConfigError::MissingModel),
                Some(model) => Ok(ModelConfig { base_url, api_key: self.api_key, model }),
            },
        }
    }
}

/// Whether a planned step is deterministic or needs a model.
#[derive(Debug, Clone, Copy, PartialEq, Eq, Structural)]
pub enum StepType {
    Deterministic,
    Probabilistic,
}

/// The subject of a planned step.
#[derive(Debug, Clone, Copy, PartialEq, Eq, Structural)]
pub enum StepKind {
    Math,
    Time,
    Creative,
    Other,
}

/// A step of a structured plan.
#[derive(Debug, Clone)]
pub struct PlanStep {
    pub id: usize,
    pub description: String,
    pub step_type: StepType,
    pub context_keys: Vec<String>,
    pub kind: StepKind,
}

/// The record of one agent action.
#[derive(Debug, Clone)]
pub struct AgentStep {
    pub agent_type: String,
    pub input_context: String,
    pub votes_drawn: u32,
    pub result_action: String,
    pub decision_made: bool,
}

/// A model installed on this host.
#[derive(Debug, Clone)]
pub struct InstalledLocalModel {
    pub model_id: ModelId,
    pub install_path: String,
    pub is_running: bool,
    pub port: u16,
    pub runtime_type: String,
}

/// How an auxiliary tool server is reached.
#[derive(Debug, Clone)]
pub enum McpTransport {
    /// A local process spoken to over its standard streams.
    Stdio { command: String, args: Vec<String>, env: Vec<(String, String)> },
    /// A remote streaming endpoint.
    Sse { url: String, api_key: Option<String> },
}

/// Description of an auxiliary tool server.
#[derive(Debug, Clone)]
pub struct McpManifest {
    pub name: String,
    pub description: String,
    pub logo: Option<String>,
    pub required_env_vars: Vec<String>,
}

/// An installed auxiliary tool server.
#[derive(Debug, Clone)]
pub struct InstalledMod {
    pub id: String,
    pub manifest: McpManifest,
    pub transport: McpTransport,
    pub enabled: bool,
}

/// A backend that answers with the text of the last message it received.
pub struct DummyProvider;

impl DummyProvider {
    /// Its answer to a conversation.
    pub fn reply(&self, messages: &Vec<Message>) -> (r: String)
        ensures
            messages.len() == 0 ==> r@ == "(dummy) I received: "@ + "no message"@,
            messages.len() > 0 ==> r@ == "(dummy) I received: "@ + messages[messages.len()
                - 1].content@,
    {
        let n = messages.len();
        let head = String::from_str("(dummy) I received: ");
        if n == 0 {
            head.concat("no message")
        } else {
            head.concat(messages[n - 1].content.as_str())
        }
    }
}

} // verus!
