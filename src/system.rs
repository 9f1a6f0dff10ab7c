//! The host's hardware profile, the engine recommended for it, and the
//! coarse projection of the profile that may be shown to a client.
use vstd::prelude::*;
use crate::text::{decimal, has_sub, lower_of, contains, lowercase};
use crate::visibility::Sanitizable;

verus! {

#[derive(Debug, Clone)]
pub struct SystemProfile {
    pub os_name: String,
    pub os_version: String,
    pub cpu_brand: String,
    pub cpu_cores: usize,
    pub total_memory_gb: u64,
    pub used_memory_gb: u64,
    pub architecture: String,
}

#[derive(Debug, Clone, Copy, PartialEq, Eq, Structural)]
pub enum EngineType {
    Local,
    Cloud,
}

#[derive(Debug, Clone)]
pub struct EngineRecommendation {
    pub recommended_engine: EngineType,
    pub recommended_model: Option<String>,
    pub reason: String,
}

#[derive(Debug, Clone, Copy, PartialEq, Eq, Structural)]
pub enum MemoryTier {
    Low,
    Medium,
    High,
}

#[derive(Debug, Clone, Copy, PartialEq, Eq, Structural)]
pub enum CpuTier {
    Basic,
    Good,
    High,
}

#[derive(Debug, Clone, Copy, PartialEq, Eq, Structural)]
pub enum NetworkStatus {
    Online,
    Restricted,
    Offline,
}

/// The profile as shown to a client: names and tiers, no exact figures.
#[derive(Debug, Clone)]
pub struct SanitizedSystemProfile {
    pub os_name: String,
    pub architecture: String,
    pub memory_tier: MemoryTier,
    pub cpu_tier: CpuTier,
    pub network_status: NetworkStatus,
}

/// Relies on `ToString` for `u64`: its decimal notation.
#[verifier::external_body]
fn u64_text(n: u64) -> (r: String)
    ensures
        r@ == decimal(n as nat),
{
    n.to_string()
}

pub const MODEL_LARGE: &'static str = "qwen3:32b";
pub const MODEL_MEDIUM: &'static str = "gpt-oss:20b";
pub const MODEL_SMALL: &'static str = "tinyllama";

pub const REASON_LARGE_HEAD: &'static str = "Your system has excellent specs (";
pub const REASON_LARGE_TAIL: &'static str = "GB RAM). Qwen3-32B is recommended for superior reasoning, math, and coding performance.";
pub const REASON_MEDIUM_HEAD: &'static str = "Your system has good specs (";
pub const REASON_MEDIUM_TAIL: &'static str = "GB RAM). GPT-OSS-20B provides excellent reasoning and agentic capabilities.";
pub const REASON_SMALL_HEAD: &'static str = "Your system has basic specs (";
pub const REASON_SMALL_TAIL: &'static str = "GB RAM). TinyLlama works well for testing and simple tasks.";
pub const REASON_CLOUD_HEAD: &'static str = "Your system has limited resources (";
pub const REASON_CLOUD_TAIL: &'static str = "GB RAM). Cloud API is recommended for best performance.";

/// The tier of a model that a host can run locally: 3 for the largest,
/// 0 when the cloud is recommended instead.
pub open spec fn local_tier(os_name: Seq<char>, architecture: Seq<char>, memory_gb: nat) -> nat {
    if (has_sub(lower_of(os_name), "macos"@) && architecture == "aarch64"@) || memory_gb >= 64 {
        3
    } else if memory_gb >= 16 {
        2
    } else if memory_gb >= 8 {
        1
    } else {
        0
    }
}

/// The recommended model of each tier.
pub open spec fn tier_model(tier: nat) -> Option<Seq<char>> {
    if tier == 3 {
        Some(MODEL_LARGE@)
    } else if tier == 2 {
        Some(MODEL_MEDIUM@)
    } else if tier == 1 {
        Some(MODEL_SMALL@)
    } else {
        None
    }
}

/// The explanation given for each tier.
pub open spec fn tier_reason(tier: nat, memory_gb: nat) -> Seq<char> {
    let (head, tail) = if tier == 3 {
        (REASON_LARGE_HEAD@, REASON_LARGE_TAIL@)
    } else if tier == 2 {
        (REASON_MEDIUM_HEAD@, REASON_MEDIUM_TAIL@)
    } else if tier == 1 {
        (REASON_SMALL_HEAD@, REASON_SMALL_TAIL@)
    } else {
        (REASON_CLOUD_HEAD@, REASON_CLOUD_TAIL@)
    };
    head + decimal(memory_gb) + tail
}

fn reason(head: &str, memory_gb: u64, tail: &str) -> (r: String)
    ensures
        r@ == head@ + decimal(memory_gb as nat) + tail@,
{
    let figure = u64_text(memory_gb);
    String::from_str(head).concat(figure.as_str()).concat(tail)
}

pub fn get_recommendation(profile: &SystemProfile) -> (r: EngineRecommendation)
    ensures
        ({
            let tier = local_tier(
                profile.os_name@,
                profile.architecture@,
                profile.total_memory_gb as nat,
            );
            &&& r.recommended_engine == if tier > 0 {
                EngineType::Local
            } else {
                EngineType::Cloud
            }
            &&& match r.recommended_model {
                Some(m) => tier_model(tier) == Some(m@),
                None => tier_model(tier) is None,
            }
            &&& r.reason@ == tier_reason(tier, profile.total_memory_gb as nat)
        }),
{
    let os = lowercase(profile.os_name.as_str());
    let aarch64 = String::from_str("aarch64");
    let is_apple_silicon = contains(os.as_str(), "macos") && profile.architecture == aarch64;
    let gb = profile.total_memory_gb;
    if is_apple_silicon || gb >= 64 {
        EngineRecommendation {
            recommended_engine: EngineType::Local,
            recommended_model: Some(String::from_str(MODEL_LARGE)),
            reason: reason(REASON_LARGE_HEAD, gb, REASON_LARGE_TAIL),
        }
    } else if gb >= 16 {
        EngineRecommendation {
            recommended_engine: EngineType::Local,
            recommended_model: Some(String::from_str(MODEL_MEDIUM)),
            reason: reason(REASON_MEDIUM_HEAD, gb, REASON_MEDIUM_TAIL),
        }
    } else if gb >= 8 {
        EngineRecommendation {
            recommended_engine: EngineType::Local,
            recommended_model: Some(String::from_str(MODEL_SMALL)),
            reason: reason(REASON_SMALL_HEAD, gb, REASON_SMALL_TAIL),
        }
    } else {
        EngineRecommendation {
            recommended_engine: EngineType::Cloud,
            recommended_model: None,
            reason: reason(REASON_CLOUD_HEAD, gb, REASON_CLOUD_TAIL),
        }
    }
}

/// The memory tier of a host.
pub open spec fn memory_tier(gb: u64) -> MemoryTier {
    if gb <= 7 {
        MemoryTier::Low
    } else if gb <= 32 {
        MemoryTier::Medium
    } else {
        MemoryTier::High
    }
}

/// The processor tier of a host.
pub open spec fn cpu_tier(cores: usize) -> CpuTier {
    if cores <= 3 {
        CpuTier::Basic
    } else if cores <= 8 {
        CpuTier::Good
    } else {
        CpuTier::High
    }
}

impl Sanitizable for SystemProfile {
    type Sanitized = SanitizedSystemProfile;

    open spec fn sanitized_spec(&self) -> SanitizedSystemProfile {
        SanitizedSystemProfile {
            os_name: self.os_name,
            architecture: self.architecture,
            memory_tier: memory_tier(self.total_memory_gb),
            cpu_tier: cpu_tier(self.cpu_cores),
            network_status: NetworkStatus::Online,
        }
    }

    fn sanitized(&self) -> (r: SanitizedSystemProfile) {
        let memory_tier = if self.total_memory_gb <= 7 {
            MemoryTier::Low
        } else if self.total_memory_gb <= 32 {
            MemoryTier::Medium
        } else {
            MemoryTier::High
        };
        let cpu_tier = if self.cpu_cores <= 3 {
            CpuTier::Basic
        } else if self.cpu_cores <= 8 {
            CpuTier::Good
        } else {
            CpuTier::High
        };
        SanitizedSystemProfile {
            os_name: self.os_name.clone(),
            architecture: self.architecture.clone(),
            memory_tier,
            cpu_tier,
            network_status: NetworkStatus::Online,
        }
    }
}

} // verus!
