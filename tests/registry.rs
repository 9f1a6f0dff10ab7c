use boomai::error::{ProviderErrorKind, ProviderId};
use boomai::registry::{ProviderRegistry, ProviderType};
use boomai::system::{get_recommendation, CpuTier, EngineType, MemoryTier, NetworkStatus, SystemProfile};
use boomai::types::{default_status, ConfigError, DummyProvider, ExecutionStatus, Message, ModelConfig, ModelId, Role};
use boomai::visibility::Sanitizer;

fn pid(s: &str) -> ProviderId {
    ProviderId(s.to_string())
}

fn mid(s: &str) -> ModelId {
    ModelId(s.to_string())
}

#[test]
fn first_registered_provider_becomes_default() {
    let mut reg: ProviderRegistry<&'static str> = ProviderRegistry::new();
    assert!(reg.is_empty());
    assert!(reg.get_default_runner().is_none());
    reg.register_provider(pid("fail"), "runner-a", mid("m1"), ProviderType::Remote);
    reg.register_provider(pid("work"), "runner-b", mid("m2"), ProviderType::Local);
    assert_eq!(reg.get_default_runner(), Some(&"runner-a"));
    assert_eq!(reg.get_runner(&pid("work")), Some(&"runner-b"));
    assert_eq!(reg.get_runner(&pid("none")), None);
    assert!(!reg.is_empty());
}

#[test]
fn set_default_only_to_registered_provider() {
    let mut reg: ProviderRegistry<u32> = ProviderRegistry::new();
    reg.register_provider(pid("a"), 1, mid("m"), ProviderType::Mock);
    reg.register_provider(pid("b"), 2, mid("m"), ProviderType::Mock);
    reg.set_default(pid("missing"));
    assert_eq!(reg.get_default_runner(), Some(&1));
    reg.set_default(pid("b"));
    assert_eq!(reg.get_default_runner(), Some(&2));
}

#[test]
fn registering_same_id_replaces_entry() {
    let mut reg: ProviderRegistry<u32> = ProviderRegistry::new();
    reg.register_provider(pid("a"), 1, mid("m1"), ProviderType::Mock);
    reg.register_provider(pid("a"), 9, mid("m2"), ProviderType::Local);
    let list = reg.list_providers();
    assert_eq!(list.len(), 1);
    assert_eq!(list[0].0 .0, "a");
    assert_eq!(list[0].1 .0, "m2");
    assert_eq!(list[0].2, ProviderType::Local);
    assert_eq!(reg.get_default_runner(), Some(&9));
}

#[test]
fn empty_registry_reports_missing_default() {
    let reg: ProviderRegistry<u32> = ProviderRegistry::new();
    let err = reg.default_runner_or_error().unwrap_err();
    assert_eq!(err.kind, ProviderErrorKind::Internal("no_default_provider"));
    assert_eq!(err.provider_id.0, "registry");
    assert_eq!(err.user_message, "No default provider configured");
    let mut reg = reg;
    reg.register_provider(pid("x"), 5, mid("m"), ProviderType::Remote);
    assert_eq!(reg.default_runner_or_error().ok(), Some(&5));
}

fn profile(os: &str, arch: &str, gb: u64, cores: usize) -> SystemProfile {
    SystemProfile {
        os_name: os.to_string(),
        os_version: "1".to_string(),
        cpu_brand: "cpu".to_string(),
        cpu_cores: cores,
        total_memory_gb: gb,
        used_memory_gb: 1,
        architecture: arch.to_string(),
    }
}

#[test]
fn recommendations_by_memory() {
    let r = get_recommendation(&profile("Linux", "x86_64", 64, 8));
    assert_eq!(r.recommended_engine, EngineType::Local);
    assert_eq!(r.recommended_model.as_deref(), Some("qwen3:32b"));
    assert!(r.reason.contains("(64GB RAM)"));
    let r = get_recommendation(&profile("MacOS", "aarch64", 4, 8));
    assert_eq!(r.recommended_model.as_deref(), Some("qwen3:32b"));
    let r = get_recommendation(&profile("Linux", "x86_64", 16, 8));
    assert_eq!(r.recommended_model.as_deref(), Some("gpt-oss:20b"));
    let r = get_recommendation(&profile("Linux", "x86_64", 8, 8));
    assert_eq!(r.recommended_model.as_deref(), Some("tinyllama"));
    let r = get_recommendation(&profile("Linux", "x86_64", 4, 2));
    assert_eq!(r.recommended_engine, EngineType::Cloud);
    assert_eq!(r.recommended_model, None);
    assert_eq!(
        r.reason,
        "Your system has limited resources (4GB RAM). Cloud API is recommended for best performance."
    );
}

#[test]
fn profile_projection_uses_tiers() {
    let s = Sanitizer::for_ui(&profile("Linux", "x86_64", 7, 3));
    assert_eq!(s.memory_tier, MemoryTier::Low);
    assert_eq!(s.cpu_tier, CpuTier::Basic);
    assert_eq!(s.network_status, NetworkStatus::Online);
    assert_eq!(s.os_name, "Linux");
    let s = Sanitizer::for_ui(&profile("Linux", "x86_64", 32, 9));
    assert_eq!(s.memory_tier, MemoryTier::Medium);
    assert_eq!(s.cpu_tier, CpuTier::High);
    let s = Sanitizer::for_ui(&profile("Linux", "x86_64", 33, 4));
    assert_eq!(s.memory_tier, MemoryTier::High);
    assert_eq!(s.cpu_tier, CpuTier::Good);
    assert!(!Sanitizer::diagnostics_enabled());
}

#[test]
fn model_config_validation_and_building() {
    let ok = ModelConfig::builder().base_url("https://api.example.com").model("gpt").build().unwrap();
    assert_eq!(ok.validate(), Ok(()));
    assert_eq!(ok.api_key, None);
    let keyed = ModelConfig::builder().api_key("k").base_url("http://x").model("m").build().unwrap();
    assert_eq!(keyed.api_key.as_deref(), Some("k"));
    assert_eq!(ModelConfig::builder().model("m").build().unwrap_err(), ConfigError::MissingBaseUrl);
    assert_eq!(ModelConfig::builder().base_url("http://x").build().unwrap_err(), ConfigError::MissingModel);
    let c = ModelConfig { base_url: "  ".to_string(), api_key: None, model: "m".to_string() };
    assert_eq!(c.validate(), Err(ConfigError::EmptyBaseUrl));
    let c = ModelConfig { base_url: "ftp://x".to_string(), api_key: None, model: "m".to_string() };
    assert_eq!(c.validate(), Err(ConfigError::InvalidScheme));
    let c = ModelConfig { base_url: "http://x".to_string(), api_key: None, model: " ".to_string() };
    assert_eq!(c.validate(), Err(ConfigError::EmptyModel));
    assert_eq!(ConfigError::EmptyModel.message(), "model name cannot be empty");
}

#[test]
fn identifiers_and_status() {
    assert_eq!(mid("llama").as_str(), "llama");
    assert!(matches!(default_status(), ExecutionStatus::Done));
    assert_eq!(boomai::hello(), "Hello from Boomai Core!");
}

#[test]
fn dummy_provider_echoes_last_message() {
    let msgs = vec![
        Message { role: Role::System, content: "sys".to_string() },
        Message { role: Role::User, content: "hi there".to_string() },
    ];
    assert_eq!(DummyProvider.reply(&msgs), "(dummy) I received: hi there");
    assert_eq!(DummyProvider.reply(&Vec::new()), "(dummy) I received: no message");
}
