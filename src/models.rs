use vstd::prelude::*;

verus! {

/// A point in time in UTC: whole seconds since the Unix epoch and the nanoseconds past them.
#[derive(Clone, Copy, Debug, PartialEq, Eq, Structural)]
pub struct Timestamp {
    pub secs: i64,
    pub nanos: u32,
}

/// Descriptive attributes of a memory.
#[derive(Clone, Debug)]
pub struct MemoryMetadata {
    pub category: Option<String>,
    /// Ordered as given; set semantics are enforced by the tag index, not here.
    pub tags: Vec<String>,
    pub importance: i32,
    /// Groups memories into an ordered sequence.
    pub chain_id: Option<String>,
    /// Identifier of the parent memory, as the 128-bit value of its UUID.
    pub parent_id: Option<u128>,
    pub framework: Option<String>,
    pub source: String,
}

/// The unit of stored knowledge.
///
/// Identifiers are the 128-bit values of UUIDs. Floating-point quantities are
/// carried as IEEE-754 single-precision bit patterns.
#[derive(Clone, Debug)]
pub struct Memory {
    pub id: u128,
    pub instance_id: String,
    pub content: String,
    pub embedding: Option<Vec<u32>>,
    pub metadata: MemoryMetadata,
    pub created_at: Timestamp,
    pub updated_at: Timestamp,
    pub access_count: u64,
    /// Populated on search results only.
    pub relevance_score: u32,
}

/// A query with its filters.
#[derive(Clone, Debug)]
pub struct SearchRequest {
    pub query: String,
    pub limit: Option<usize>,
    /// Bit pattern of an f32 similarity threshold; accepted but not applied to scoring.
    pub threshold: Option<u32>,
    pub category_filter: Option<String>,
    /// Match-any over the memory's tags.
    pub tags_filter: Option<Vec<String>>,
    /// Allow-list over the memory's owning instance.
    pub instance_filter: Option<Vec<String>>,
    /// Consult the cache before the vector index.
    pub hybrid_mode: bool,
}

/// The answer of the vector index to a request.
#[derive(Clone, Debug)]
pub struct SearchResult {
    pub memories: Vec<Memory>,
    pub search_id: u128,
    pub query_embedding: Option<Vec<u32>>,
    pub cache_hits: usize,
    pub total_results: usize,
    pub search_time_ms: u64,
}

/// What a caller hands in to store a memory.
#[derive(Clone, Debug)]
pub struct StoreRequest {
    pub content: String,
    pub category: Option<String>,
    pub tags: Vec<String>,
    pub importance: Option<i32>,
    pub chain_id: Option<String>,
    pub parent_id: Option<u128>,
    pub framework: Option<String>,
}

/// How a store operation went in each of the two stores.
#[derive(Clone, Debug)]
pub struct StoreResult {
    pub memory_id: u128,
    pub cached: bool,
    pub indexed: bool,
    pub embedding_generated: bool,
}

/// Result count used when a request names no limit.
pub const DEFAULT_LIMIT: usize = 20;

pub open spec fn opt_view(o: Option<String>) -> Option<Seq<char>> {
    match o {
        Some(s) => Some(s@),
        None => None,
    }
}

pub open spec fn strings_view(v: Seq<String>) -> Seq<Seq<char>> {
    v.map_values(|s: String| s@)
}

pub open spec fn opt_strings_view(o: Option<Vec<String>>) -> Option<Seq<Seq<char>>> {
    match o {
        Some(v) => Some(strings_view(v@)),
        None => None,
    }
}

/// The tags of a memory as character sequences.
pub open spec fn tags_of(m: Memory) -> Seq<Seq<char>> {
    strings_view(m.metadata.tags@)
}

/// The result count a request asks for.
pub open spec fn limit_of(r: SearchRequest) -> usize {
    match r.limit {
        Some(n) => n,
        None => DEFAULT_LIMIT,
    }
}

/// Copies a list of strings, keeping the order.
pub fn clone_strings(v: &Vec<String>) -> (r: Vec<String>)
    ensures
        strings_view(r@) == strings_view(v@),
{
    let mut r: Vec<String> = Vec::new();
    let mut i: usize = 0;
    while i < v.len()
        invariant
            i <= v.len(),
            r@.len() == i,
            forall|j: int| 0 <= j < i ==> r@[j]@ == v@[j]@,
        decreases v.len() - i,
    {
        let c = v[i].clone();
        r.push(c);
        i = i + 1;
    }
    assert(strings_view(r@) =~= strings_view(v@));
    r
}

} // verus!
