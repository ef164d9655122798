use vstd::prelude::*;
use crate::error::UnifiedRagError;
use crate::models::{limit_of, Memory, SearchRequest, SearchResult};
use crate::search::conditions_of;

verus! {

/// What a search returns to the caller: cache-sourced memories, or the vector
/// index's result. The two are never merged.
pub enum SearchAnswer {
    Cached(Vec<Memory>),
    Indexed(SearchResult),
}

/// Whether the request consults the cache layer before the vector index.
pub open spec fn cache_first_of(r: SearchRequest) -> bool {
    r.hybrid_mode
}

/// The answer that a cache scan settles: its memories, when it succeeded with at least one.
pub open spec fn cached_answer_of(cache: Result<Vec<Memory>, UnifiedRagError>) -> Option<Vec<Memory>> {
    match cache {
        Ok(v) => if v@.len() > 0 {
            Some(v)
        } else {
            None
        },
        Err(_) => None,
    }
}

/// The answer that the vector index settles: its result, or its failure.
pub open spec fn index_answer_of(index: Result<SearchResult, UnifiedRagError>) -> Result<SearchAnswer, UnifiedRagError> {
    match index {
        Ok(x) => Ok(SearchAnswer::Indexed(x)),
        Err(e) => Err(e),
    }
}

/// The whole waterfall: with hybrid mode, a cache scan that found something
/// answers; otherwise (no hybrid mode, an empty scan, a failed scan) the vector
/// index answers. `cache` is consulted only in hybrid mode.
pub open spec fn hybrid_answer(
    r: SearchRequest,
    cache: Result<Vec<Memory>, UnifiedRagError>,
    index: Result<SearchResult, UnifiedRagError>,
) -> Result<SearchAnswer, UnifiedRagError> {
    if cache_first_of(r) && cached_answer_of(cache) is Some {
        Ok(SearchAnswer::Cached(cached_answer_of(cache)->0))
    } else {
        index_answer_of(index)
    }
}

/// Whether the cache layer is asked first.
pub fn cache_first(r: &SearchRequest) -> (b: bool)
    ensures
        b == cache_first_of(*r),
{
    r.hybrid_mode
}

/// Reads the outcome of the cache scan: `Some` answers the request, `None`
/// falls back to the vector index.
pub fn after_cache(cache: Result<Vec<Memory>, UnifiedRagError>) -> (r: Option<Vec<Memory>>)
    ensures
        r == cached_answer_of(cache),
{
    match cache {
        Ok(v) => if v.len() > 0 {
            Some(v)
        } else {
            None
        },
        Err(_) => None,
    }
}

/// Reads the outcome of the vector search.
pub fn after_index(index: Result<SearchResult, UnifiedRagError>) -> (r: Result<SearchAnswer, UnifiedRagError>)
    ensures
        r == index_answer_of(index),
{
    match index {
        Ok(x) => Ok(SearchAnswer::Indexed(x)),
        Err(e) => Err(e),
    }
}

/// A hybrid request whose cache scan brings nothing (empty or failed) is answered
/// exactly as the same request without hybrid mode, and sends the same query to
/// the vector index.
pub proof fn lemma_cache_miss_is_direct_search(
    hybrid: SearchRequest,
    direct: SearchRequest,
    cache: Result<Vec<Memory>, UnifiedRagError>,
    index: Result<SearchResult, UnifiedRagError>,
)
    requires
        hybrid.hybrid_mode,
        !direct.hybrid_mode,
        hybrid == (SearchRequest { hybrid_mode: true, ..direct }),
        cache matches Ok(v) ==> v@.len() == 0,
    ensures
        hybrid_answer(hybrid, cache, index) == hybrid_answer(direct, cache, index),
        conditions_of(hybrid) == conditions_of(direct),
        limit_of(hybrid) == limit_of(direct),
{
}

} // verus!
