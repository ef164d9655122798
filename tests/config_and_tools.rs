use unified_rag::config::{Config, EnvSettings};
use unified_rag::error::UnifiedRagError;
use unified_rag::stats::{add_page, used_memory, CacheStats};
use unified_rag::text::{parse_u16, parse_u64};
use unified_rag::tools::{default_hybrid, default_limit, default_threshold, store_outcome, RagSearchParams, RagStoreParams};
use unified_rag::models::Timestamp;

fn env() -> EnvSettings {
    EnvSettings {
        redis_host: None,
        redis_port: None,
        redis_password: None,
        qdrant_host: None,
        qdrant_port: None,
        qdrant_collection: None,
        openai_api_key: Some("test-key".to_string()),
        instance_id: None,
    }
}

#[test]
fn config_defaults() {
    let c = Config::from_settings(env()).ok().unwrap();
    assert_eq!(c.redis.host, "127.0.0.1");
    assert_eq!(c.redis.port, 6379);
    assert_eq!(c.redis.pool_size, 10);
    assert_eq!(c.qdrant.port, 6333);
    assert_eq!(c.qdrant.collection_name, "unified_rag");
    assert_eq!(c.openai.model, "text-embedding-3-small");
    assert_eq!(c.instance_id, "CC");
    assert_eq!(c.cache_ttl_seconds, 3600);
    assert_eq!(c.max_results, 20);
    assert_eq!(f32::from_bits(c.similarity_threshold), 0.7f32);
}

#[test]
fn config_reads_given_values() {
    let mut e = env();
    e.redis_port = Some("7000".to_string());
    e.qdrant_port = Some("not a port".to_string());
    e.instance_id = Some("XY".to_string());
    e.redis_password = Some("pw".to_string());
    let c = Config::from_settings(e).ok().unwrap();
    assert_eq!(c.redis.port, 7000);
    assert_eq!(c.qdrant.port, 6333);
    assert_eq!(c.instance_id, "XY");
    assert_eq!(c.redis.password, Some("pw".to_string()));
}

#[test]
fn config_requires_api_key() {
    let mut e = env();
    e.openai_api_key = None;
    assert!(matches!(Config::from_settings(e), Err(UnifiedRagError::Configuration(m)) if m == "OPENAI_API_KEY not set"));
}

#[test]
fn decimal_parsing() {
    assert_eq!(parse_u64("0"), Some(0));
    assert_eq!(parse_u64("+12"), Some(12));
    assert_eq!(parse_u64("18446744073709551615"), Some(u64::MAX));
    assert_eq!(parse_u64("18446744073709551616"), None);
    assert_eq!(parse_u64(""), None);
    assert_eq!(parse_u64("+"), None);
    assert_eq!(parse_u64("-1"), None);
    assert_eq!(parse_u64("1a"), None);
    assert_eq!(parse_u16("65535"), Some(65535));
    assert_eq!(parse_u16("65536"), None);
}

#[test]
fn used_memory_from_report() {
    let info = "# Memory\r\nused_memory:1048576\r\nused_memory_human:1.00M\r\n";
    assert_eq!(used_memory(info), 1048576);
    assert_eq!(used_memory("used_memory:12"), 12);
    assert_eq!(used_memory("x_used_memory:5\nused_memory:7:8\n"), 7);
    assert_eq!(used_memory("used_memory:abc\nused_memory:9\n"), 0);
    assert_eq!(used_memory("nothing here"), 0);
}

#[test]
fn stats_from_scan() {
    let total = add_page(add_page(0, 100), 3);
    assert_eq!(total, 103);
    assert_eq!(add_page(u64::MAX - 1, 5), u64::MAX);
    let s: CacheStats = CacheStats::from_scan(total, "used_memory:2048\n");
    assert_eq!(s.total_keys, 103);
    assert_eq!(s.memory_usage_bytes, 2048);
    assert_eq!(f32::from_bits(s.hit_rate), 0.0);
}

#[test]
fn tool_defaults() {
    assert_eq!(default_limit(), 20);
    assert!(default_hybrid());
    assert_eq!(f32::from_bits(default_threshold()), 0.7f32);
}

#[test]
fn search_params_become_request() {
    let p = RagSearchParams {
        query: "outage".to_string(),
        limit: 5,
        threshold: default_threshold(),
        category_filter: Some("ops".to_string()),
        tags_filter: None,
        instance_filter: Some(vec!["CC".to_string()]),
        hybrid_mode: true,
    };
    let r = p.into_request();
    assert_eq!(r.limit, Some(5));
    assert_eq!(r.query, "outage");
    assert_eq!(r.category_filter, Some("ops".to_string()));
    assert!(r.hybrid_mode);
}

fn store_params(parent: Option<&str>) -> RagStoreParams {
    RagStoreParams {
        content: "outage postmortem".to_string(),
        category: Some("ops".to_string()),
        tags: vec!["incident".to_string()],
        importance: None,
        chain_id: None,
        parent_id: parent.map(|p| p.to_string()),
        framework: None,
    }
}

#[test]
fn store_params_become_memory() {
    let now = Timestamp { secs: 100, nanos: 1 };
    let m = store_params(Some("a1a2a3a4-b1b2-c1c2-d1d2-d3d4d5d6d7d8"))
        .into_store_request()
        .ok()
        .unwrap()
        .into_memory(7, "CC".to_string(), now);
    assert_eq!(m.id, 7);
    assert_eq!(m.metadata.parent_id, Some(0xa1a2a3a4b1b2c1c2d1d2d3d4d5d6d7d8));
    assert_eq!(m.metadata.importance, 5);
    assert_eq!(m.metadata.source, "rag_store");
    assert_eq!(m.created_at, now);
    assert_eq!(m.content, "outage postmortem");
    let m = store_params(None).into_store_request().ok().unwrap().into_memory(8, "CC".to_string(), now);
    assert_eq!(m.metadata.parent_id, None);
}

#[test]
fn store_params_reject_bad_parent() {
    let r = store_params(Some("not-a-uuid")).into_store_request();
    assert!(matches!(r, Err(UnifiedRagError::ToolError(_))));
}

#[test]
fn dual_write_outcome() {
    let ok = store_outcome(1, Ok(()), Ok(()), true).ok().unwrap();
    assert!(ok.cached && ok.indexed && ok.embedding_generated);
    let half = store_outcome(1, Ok(()), Err(UnifiedRagError::Qdrant("x".to_string())), false).ok().unwrap();
    assert!(half.cached && !half.indexed);
    let none = store_outcome(1, Err(UnifiedRagError::Redis("a".to_string())), Err(UnifiedRagError::Qdrant("b".to_string())), false);
    assert!(matches!(none, Err(UnifiedRagError::Redis(m)) if m == "a"));
}
