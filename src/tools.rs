use vstd::prelude::*;
use crate::config::DEFAULT_THRESHOLD_BITS;
use crate::error::UnifiedRagError;
use crate::models::{Memory, MemoryMetadata, SearchRequest, StoreRequest, StoreResult, Timestamp, DEFAULT_LIMIT};

verus! {

/// Arguments of the search tool.
#[derive(Clone, Debug)]
pub struct RagSearchParams {
    pub query: String,
    pub limit: usize,
    /// Bit pattern of an f32 similarity threshold.
    pub threshold: u32,
    pub category_filter: Option<String>,
    pub tags_filter: Option<Vec<String>>,
    pub instance_filter: Option<Vec<String>>,
    pub hybrid_mode: bool,
}

/// Arguments of the store tool.
#[derive(Clone, Debug)]
pub struct RagStoreParams {
    pub content: String,
    pub category: Option<String>,
    pub tags: Vec<String>,
    /// On a scale of 1 to 10.
    pub importance: Option<i32>,
    pub chain_id: Option<String>,
    /// Text of the parent memory's UUID.
    pub parent_id: Option<String>,
    pub framework: Option<String>,
}

/// Importance of a memory stored without one: the middle of the 1 to 10 scale.
pub const DEFAULT_IMPORTANCE: i32 = 5;

/// Result count of a search that names no limit.
pub fn default_limit() -> (r: usize)
    ensures
        r == DEFAULT_LIMIT,
{
    DEFAULT_LIMIT
}

/// Similarity threshold of a search that names none, as the bit pattern of `0.7f32`.
pub fn default_threshold() -> (r: u32)
    ensures
        r == DEFAULT_THRESHOLD_BITS,
{
    DEFAULT_THRESHOLD_BITS
}

/// Searches are hybrid unless the caller says otherwise.
pub fn default_hybrid() -> (r: bool)
    ensures
        r,
{
    true
}

impl RagSearchParams {
    /// The search request that the tool's arguments describe.
    pub fn into_request(self) -> (r: SearchRequest)
        ensures
            r.query == self.query,
            r.limit == Some(self.limit),
            r.threshold == Some(self.threshold),
            r.category_filter == self.category_filter,
            r.tags_filter == self.tags_filter,
            r.instance_filter == self.instance_filter,
            r.hybrid_mode == self.hybrid_mode,
    {
        SearchRequest {
            query: self.query,
            limit: Some(self.limit),
            threshold: Some(self.threshold),
            category_filter: self.category_filter,
            tags_filter: self.tags_filter,
            instance_filter: self.instance_filter,
            hybrid_mode: self.hybrid_mode,
        }
    }
}

/// The 128-bit value of the UUID written in a text, if the text is one.
pub uninterp spec fn parsed_uuid(s: Seq<char>) -> Option<u128>;

/// Relies on `uuid::Uuid::parse_str` (simple, hyphenated, braced and URN forms),
/// whose outcome depends on the text alone, and on `Uuid::as_u128`.
#[verifier::external_body]
fn parse_uuid(s: &str) -> (r: Option<u128>)
    ensures
        r == parsed_uuid(s@),
{
    uuid::Uuid::parse_str(s).ok().map(|u| u.as_u128())
}

/// The parent reference of a store request, read as a UUID.
pub open spec fn parent_of(p: Option<String>) -> Option<Option<u128>> {
    match p {
        Some(s) => match parsed_uuid(s@) {
            Some(v) => Some(Some(v)),
            None => None,
        },
        None => Some(None),
    }
}

/// Where a memory stored through the store tool comes from.
pub open spec fn store_source() -> Seq<char> {
    "rag_store"@
}

impl RagStoreParams {
    /// The store request that the tool's arguments describe. Fails when a parent
    /// is named that is not a UUID.
    pub fn into_store_request(self) -> (r: Result<StoreRequest, UnifiedRagError>)
        ensures
            parent_of(self.parent_id) is None <==> r is Err,
            r matches Err(e) ==> e is ToolError,
            r matches Ok(q) ==> {
                &&& q.content == self.content
                &&& q.category == self.category
                &&& q.tags == self.tags
                &&& q.importance == self.importance
                &&& q.chain_id == self.chain_id
                &&& Some(q.parent_id) == parent_of(self.parent_id)
                &&& q.framework == self.framework
            },
    {
        let parent_id = match &self.parent_id {
            Some(p) => match parse_uuid(p.as_str()) {
                Some(v) => Some(v),
                None => {
                    return Err(UnifiedRagError::ToolError(String::from_str("parent_id is not a UUID")));
                },
            },
            None => None,
        };
        Ok(StoreRequest {
            content: self.content,
            category: self.category,
            tags: self.tags,
            importance: self.importance,
            chain_id: self.chain_id,
            parent_id,
            framework: self.framework,
        })
    }
}

impl StoreRequest {
    /// The memory that the request describes, with the given identity, owner and
    /// creation time, no embedding yet and no accesses.
    pub fn into_memory(self, id: u128, instance_id: String, now: Timestamp) -> (m: Memory)
        ensures
            m.id == id,
            m.instance_id == instance_id,
            m.content == self.content,
            m.embedding is None,
            m.metadata.category == self.category,
            m.metadata.tags == self.tags,
            m.metadata.importance == match self.importance {
                Some(i) => i,
                None => DEFAULT_IMPORTANCE,
            },
            m.metadata.chain_id == self.chain_id,
            m.metadata.parent_id == self.parent_id,
            m.metadata.framework == self.framework,
            m.metadata.source@ == store_source(),
            m.created_at == now,
            m.updated_at == now,
            m.access_count == 0,
            m.relevance_score == 0,
    {
        let importance = match self.importance {
            Some(i) => i,
            None => DEFAULT_IMPORTANCE,
        };
        Memory {
            id,
            instance_id,
            content: self.content,
            embedding: None,
            metadata: MemoryMetadata {
                category: self.category,
                tags: self.tags,
                importance,
                chain_id: self.chain_id,
                parent_id: self.parent_id,
                framework: self.framework,
                source: String::from_str("rag_store"),
            },
            created_at: now,
            updated_at: now,
            access_count: 0,
            relevance_score: 0,
        }
    }
}

/// The outcome of a dual write, which is not transactional: each store reports
/// on its own, and the operation fails only when neither holds the memory. A
/// result with one flag down tells the caller that the stores have diverged.
pub fn store_outcome(
    memory_id: u128,
    cached: Result<(), UnifiedRagError>,
    indexed: Result<(), UnifiedRagError>,
    embedding_generated: bool,
) -> (r: Result<StoreResult, UnifiedRagError>)
    ensures
        r is Err <==> (cached is Err && indexed is Err),
        r matches Err(e) ==> cached == Err::<(), UnifiedRagError>(e),
        r matches Ok(s) ==> {
            &&& s.memory_id == memory_id
            &&& s.cached == cached is Ok
            &&& s.indexed == indexed is Ok
            &&& s.embedding_generated == embedding_generated
        },
{
    match (cached, indexed) {
        (Err(e), Err(_)) => Err(e),
        (c, i) => Ok(
            StoreResult { memory_id, cached: c.is_ok(), indexed: i.is_ok(), embedding_generated },
        ),
    }
}

} // verus!
