use vstd::prelude::*;

verus! {

/// Failures surfaced to callers. Each variant carries the underlying cause as text.
pub enum UnifiedRagError {
    /// A command against the cache store failed.
    Redis(String),
    /// No connection could be checked out of the cache store's pool (retryable).
    RedisPool(String),
    /// The vector index refused or failed a call.
    Qdrant(String),
    /// The embedding provider failed.
    OpenAI(String),
    /// A required setting is missing or malformed.
    Configuration(String),
    /// A key that had to exist was absent.
    CacheMiss(String),
    /// A search produced no usable answer.
    SearchError(String),
    /// A record could not be encoded or decoded.
    Serialization(String),
    /// A tool call carried unusable arguments.
    ToolError(String),
    /// The protocol session is not usable.
    InvalidSession(String),
}

} // verus!
