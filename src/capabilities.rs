//! Capability and trust vocabulary for tool requests. No gating is built on
//! it yet: every tool request is denied.
use vstd::prelude::*;

verus! {

#[derive(Debug, Clone, Copy, PartialEq, Eq, Hash, Structural)]
pub enum Capability {
    FsRead,
    FsWrite,
    FsDelete,
    NetHttp,
    InternalStub,
    McpCall,
    RestrictedCommand,
    CreateRun,
    SpawnAgent,
}

/// Who asks for a capability.
#[derive(Debug, Clone, PartialEq, Eq, Hash)]
pub enum CapabilityCaller {
    Orchestrator,
    ActorAgent { agent_id: String },
    ReaderAgent,
    Tool { name: String },
}

/// How far the data behind a request can be trusted.
#[derive(Debug, Clone, Copy, PartialEq, Eq, Hash, Structural)]
pub enum TaintLevel {
    Trusted,
    UserProvided,
    RetrievedUntrusted,
}

/// Identity of this client towards a tool server.
#[derive(Debug, Clone)]
pub struct McpClientInfo {
    pub name: String,
    pub version: String,
}

/// Identity a tool server reports.
#[derive(Debug, Clone)]
pub struct McpServerInfo {
    pub name: String,
    pub version: String,
}

/// Identifier of a JSON-RPC exchange.
#[derive(Debug, Clone)]
pub enum JsonRpcId {
    String(String),
    Number(i64),
    Null,
}

} // verus!
