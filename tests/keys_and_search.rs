use unified_rag::coordinator::{after_cache, after_index, cache_first, SearchAnswer};
use unified_rag::error::UnifiedRagError;
use unified_rag::fingerprint::{request_text, result_cache_key};
use unified_rag::keys::{query_cache_key, strip_prefix, KeySpace};
use unified_rag::models::{Memory, MemoryMetadata, SearchRequest, Timestamp};
use unified_rag::search::{index_point, needs_collection, needs_embedding, search_result, vector_query, FieldCondition};

fn memory(id: u128, content: &str, category: Option<&str>, tags: &[&str]) -> Memory {
    Memory {
        id,
        instance_id: "CC".to_string(),
        content: content.to_string(),
        embedding: None,
        metadata: MemoryMetadata {
            category: category.map(|c| c.to_string()),
            tags: tags.iter().map(|t| t.to_string()).collect(),
            importance: 5,
            chain_id: None,
            parent_id: None,
            framework: None,
            source: "test".to_string(),
        },
        created_at: Timestamp { secs: 0, nanos: 0 },
        updated_at: Timestamp { secs: 0, nanos: 0 },
        access_count: 0,
        relevance_score: 0,
    }
}

fn request(hybrid: bool) -> SearchRequest {
    SearchRequest {
        query: "outage".to_string(),
        limit: None,
        threshold: None,
        category_filter: Some("ops".to_string()),
        tags_filter: None,
        instance_filter: None,
        hybrid_mode: hybrid,
    }
}

#[test]
fn key_names_follow_namespace() {
    let k = KeySpace::new("CC");
    assert_eq!(k.thought_key("42"), "CC:Thoughts:42");
    assert_eq!(k.metadata_key("42"), "CC:thought_meta:42");
    assert_eq!(k.tag_key("t"), "CC:tags:t");
    assert_eq!(k.chain_key("c"), "CC:chains:c");
    assert_eq!(k.cache_key("h"), "um:cache:h");
    assert_eq!(k.thought_pattern(), "CC:Thoughts:*");
}

#[test]
fn embedding_key_uses_md5_of_content() {
    let k = KeySpace::new("CC");
    assert_eq!(k.embedding_key(""), "um:embedding:d41d8cd98f00b204e9800998ecf8427e");
    assert_eq!(k.embedding_key("abc"), "um:embedding:900150983cd24fb0d6963f7d28e17f72");
}

#[test]
fn query_cache_key_hashes_text() {
    let k = KeySpace::new("CC");
    assert_eq!(query_cache_key(&k, "abc"), "um:cache:900150983cd24fb0d6963f7d28e17f72");
}

#[test]
fn thought_id_extraction() {
    let k = KeySpace::new("CC");
    assert_eq!(k.thought_id_of("CC:Thoughts:abc"), Some("abc".to_string()));
    assert_eq!(k.thought_id_of("DD:Thoughts:abc"), None);
    assert_eq!(k.thought_id_of("CC:Thoughts"), None);
    assert_eq!(strip_prefix("abc", ""), Some("abc".to_string()));
}

#[test]
fn identical_requests_share_cache_key() {
    let k = KeySpace::new("CC");
    let a = request(true);
    let b = request(true);
    assert_eq!(result_cache_key(&k, &a), result_cache_key(&k, &b));
    let mut c = request(true);
    c.tags_filter = Some(vec!["x".to_string()]);
    assert_ne!(result_cache_key(&k, &a), result_cache_key(&k, &c));
    let mut d = request(true);
    d.limit = Some(20);
    assert_ne!(result_cache_key(&k, &a), result_cache_key(&k, &d));
    assert!(result_cache_key(&k, &a).starts_with("um:cache:"));
    assert_eq!(result_cache_key(&k, &a).len(), 9 + 32);
}

#[test]
fn request_text_lists_every_field() {
    let r = SearchRequest {
        query: "ab".to_string(),
        limit: Some(17),
        threshold: None,
        category_filter: None,
        tags_filter: Some(vec!["t".to_string()]),
        instance_filter: None,
        hybrid_mode: false,
    };
    assert_eq!(
        request_text(&r),
        "2000000000000000ab+1100000000000000-\
         -+10000000000000001000000000000000t-0"
    );
}

#[test]
fn vector_query_translates_filters() {
    let mut r = request(true);
    r.tags_filter = Some(vec!["a".to_string(), "b".to_string()]);
    r.limit = Some(5);
    let q = vector_query(&r);
    assert_eq!(q.limit, 5);
    assert_eq!(q.conditions.len(), 2);
    assert!(matches!(&q.conditions[0], FieldCondition::Equals { field, value }
        if field == "metadata.category" && value == "ops"));
    assert!(matches!(&q.conditions[1], FieldCondition::AnyOf { field, values }
        if field == "metadata.tags" && values == &vec!["a".to_string(), "b".to_string()]));
    let plain = SearchRequest { category_filter: None, tags_filter: None, limit: None, ..request(false) };
    let q = vector_query(&plain);
    assert_eq!(q.limit, 20);
    assert!(q.conditions.is_empty());
}

#[test]
fn search_result_counts_and_has_no_cache_hits() {
    let r = search_result(vec![memory(1, "a", None, &[]), memory(2, "b", None, &[])], 77, vec![1, 2], 12);
    assert_eq!(r.total_results, 2);
    assert_eq!(r.cache_hits, 0);
    assert_eq!(r.search_id, 77);
    assert_eq!(r.query_embedding, Some(vec![1, 2]));
    assert_eq!(r.search_time_ms, 12);
}

#[test]
fn index_point_uses_stored_or_generated_embedding() {
    let mut m = memory(0xa1a2a3a4b1b2c1c2d1d2d3d4d5d6d7d8, "a", None, &[]);
    assert!(needs_embedding(&m));
    assert!(index_point(m.clone(), None).is_none());
    let p = index_point(m.clone(), Some(vec![9])).unwrap();
    assert_eq!(p.id, "a1a2a3a4-b1b2-c1c2-d1d2-d3d4d5d6d7d8");
    assert_eq!(p.vector, vec![9]);
    m.embedding = Some(vec![3, 4]);
    assert!(!needs_embedding(&m));
    let p = index_point(m, Some(vec![9])).unwrap();
    assert_eq!(p.vector, vec![3, 4]);
}

#[test]
fn collection_created_only_when_missing() {
    let names = vec!["a".to_string(), "unified_rag".to_string()];
    assert!(!needs_collection(&names, &"unified_rag".to_string()));
    assert!(needs_collection(&names, &"other".to_string()));
}

#[test]
fn hybrid_miss_answers_like_direct_search() {
    let hybrid = request(true);
    let direct = request(false);
    assert!(cache_first(&hybrid));
    assert!(!cache_first(&direct));
    assert!(after_cache(Ok(vec![])).is_none());
    assert!(after_cache(Err(UnifiedRagError::Redis("down".to_string()))).is_none());
    let qh = vector_query(&hybrid);
    let qd = vector_query(&direct);
    assert_eq!(qh.limit, qd.limit);
    assert_eq!(qh.conditions.len(), qd.conditions.len());
    let from_index = |id| after_index(Ok(search_result(vec![memory(id, "a", None, &[])], 1, vec![], 0)));
    match (from_index(3), from_index(3)) {
        (Ok(SearchAnswer::Indexed(a)), Ok(SearchAnswer::Indexed(b))) => {
            assert_eq!(a.memories[0].id, b.memories[0].id);
            assert_eq!(a.total_results, b.total_results);
        }
        _ => panic!("expected indexed answers"),
    }
}

#[test]
fn cache_hit_answers_from_cache() {
    let got = after_cache(Ok(vec![memory(1, "a", None, &[])])).unwrap();
    assert_eq!(got.len(), 1);
}

#[test]
fn search_failure_is_reported() {
    match after_index(Err(UnifiedRagError::Qdrant("unreachable".to_string()))) {
        Err(UnifiedRagError::Qdrant(m)) => assert_eq!(m, "unreachable"),
        _ => panic!("expected the index error"),
    }
}

#[test]
fn stored_memory_found_by_semantic_fallback() {
    // Store "outage postmortem" (ops, incident), then search hybrid before any cached entry exists.
    let m = memory(11, "outage postmortem", Some("ops"), &["incident"]);
    let r = request(true);
    assert!(cache_first(&r));
    assert!(after_cache(Ok(vec![])).is_none());
    let q = vector_query(&r);
    assert!(matches!(&q.conditions[0], FieldCondition::Equals { value, .. } if value == "ops"));
    let answer = after_index(Ok(search_result(vec![m], 5, vec![0; 4], 3))).ok().unwrap();
    match answer {
        SearchAnswer::Indexed(res) => {
            assert!(res.total_results >= 1);
            assert_eq!(res.memories[0].content, "outage postmortem");
        }
        SearchAnswer::Cached(_) => panic!("expected semantic search"),
    }
}

#[test]
fn record_id_is_hyphenated_uuid() {
    let m = memory(0x550e8400e29b41d4a716446655440000, "a", None, &[]);
    assert_eq!(unified_rag::keys::record_id(&m), "550e8400-e29b-41d4-a716-446655440000");
}
