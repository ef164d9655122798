use vstd::prelude::*;
use crate::cache::contains_str;
use crate::keys::{id_text, uuid_text};
use crate::models::{clone_strings, limit_of, strings_view, Memory, SearchRequest, SearchResult};

verus! {

/// Dimensionality of the vectors of the collection.
pub const VECTOR_DIMENSION: u64 = 1536;

/// A condition on a payload field of the vector index.
#[derive(Clone, Debug)]
pub enum FieldCondition {
    /// The field equals the value.
    Equals { field: String, value: String },
    /// The field holds at least one of the values.
    AnyOf { field: String, values: Vec<String> },
}

pub ghost enum ConditionView {
    Equals { field: Seq<char>, value: Seq<char> },
    AnyOf { field: Seq<char>, values: Seq<Seq<char>> },
}

impl View for FieldCondition {
    type V = ConditionView;

    open spec fn view(&self) -> ConditionView {
        match self {
            FieldCondition::Equals { field, value } => ConditionView::Equals { field: field@, value: value@ },
            FieldCondition::AnyOf { field, values } => ConditionView::AnyOf {
                field: field@,
                values: strings_view(values@),
            },
        }
    }
}

/// A nearest-neighbour query: at most `limit` points, each meeting every condition.
pub struct VectorQuery {
    pub limit: u64,
    pub conditions: Vec<FieldCondition>,
}

pub open spec fn conditions_view(v: Seq<FieldCondition>) -> Seq<ConditionView> {
    v.map_values(|c: FieldCondition| c@)
}

/// The filter conditions of a request: the category as an equality and the tags
/// as one match-any, each present only when the request filters on it.
pub open spec fn conditions_of(r: SearchRequest) -> Seq<ConditionView> {
    (match r.category_filter {
        Some(c) => seq![ConditionView::Equals { field: "metadata.category"@, value: c@ }],
        None => Seq::empty(),
    }) + (match r.tags_filter {
        Some(ts) => seq![ConditionView::AnyOf { field: "metadata.tags"@, values: strings_view(ts@) }],
        None => Seq::empty(),
    })
}

/// The nearest-neighbour query that answers a request.
pub fn vector_query(r: &SearchRequest) -> (q: VectorQuery)
    ensures
        q.limit == limit_of(*r) as u64,
        conditions_view(q.conditions@) == conditions_of(*r),
{
    let mut conditions: Vec<FieldCondition> = Vec::new();
    if let Some(c) = &r.category_filter {
        conditions.push(
            FieldCondition::Equals { field: String::from_str("metadata.category"), value: c.clone() },
        );
    }
    if let Some(ts) = &r.tags_filter {
        conditions.push(
            FieldCondition::AnyOf { field: String::from_str("metadata.tags"), values: clone_strings(ts) },
        );
    }
    assert(conditions_view(conditions@) =~= conditions_of(*r));
    let limit = match r.limit {
        Some(n) => n,
        None => crate::models::DEFAULT_LIMIT,
    };
    VectorQuery { limit: limit as u64, conditions }
}

/// The result of a vector search: the memories in the order the index ranked
/// them, no cache hits, and the query's embedding.
pub fn search_result(memories: Vec<Memory>, search_id: u128, query_embedding: Vec<u32>, search_time_ms: u64) -> (r:
    SearchResult)
    ensures
        r.memories@ == memories@,
        r.search_id == search_id,
        r.query_embedding == Some(query_embedding),
        r.cache_hits == 0,
        r.total_results == memories@.len(),
        r.search_time_ms == search_time_ms,
{
    let total_results = memories.len();
    SearchResult {
        memories,
        search_id,
        query_embedding: Some(query_embedding),
        cache_hits: 0,
        total_results,
        search_time_ms,
    }
}

/// A point to write to the vector index: keyed by the memory's id, with the
/// whole memory as payload.
pub struct IndexPoint {
    pub id: String,
    pub vector: Vec<u32>,
    pub memory: Memory,
}

/// Whether indexing `m` needs an embedding from the provider.
pub fn needs_embedding(m: &Memory) -> (b: bool)
    ensures
        b == (m.embedding is None),
{
    m.embedding.is_none()
}

/// The point that indexes `m`: its own embedding when it has one, else `generated`.
pub fn index_point(m: Memory, generated: Option<Vec<u32>>) -> (r: Option<IndexPoint>)
    ensures
        match r {
            Some(p) => p.id@ == uuid_text(m.id) && p.memory == m && p.vector@ == match m.embedding {
                Some(e) => e@,
                None => generated->0@,
            },
            None => m.embedding is None && generated is None,
        },
{
    let vector = match &m.embedding {
        Some(e) => {
            let v = e.clone();
            assert(v@ =~= e@);
            v
        },
        None => match generated {
            Some(g) => g,
            None => {
                return None;
            },
        },
    };
    Some(IndexPoint { id: id_text(m.id), vector, memory: m })
}

/// Whether a collection of that name has to be created.
pub fn needs_collection(existing: &Vec<String>, name: &String) -> (b: bool)
    ensures
        b == !strings_view(existing@).contains(name@),
{
    !contains_str(existing, name)
}

} // verus!
