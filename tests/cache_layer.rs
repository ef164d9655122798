use unified_rag::cache::{after_lookup, contains_str, matches_filters, CacheLayer, CachedScan, LookupStep};
use unified_rag::models::{Memory, MemoryMetadata, SearchRequest, Timestamp};
use unified_rag::store::{FieldValue, StoreCommand};

fn memory(id: u128, content: &str, category: Option<&str>, tags: &[&str], chain: Option<&str>) -> Memory {
    Memory {
        id,
        instance_id: "CC".to_string(),
        content: content.to_string(),
        embedding: None,
        metadata: MemoryMetadata {
            category: category.map(|c| c.to_string()),
            tags: tags.iter().map(|t| t.to_string()).collect(),
            importance: 7,
            chain_id: chain.map(|c| c.to_string()),
            parent_id: None,
            framework: None,
            source: "test".to_string(),
        },
        created_at: Timestamp { secs: 1_700_000_000, nanos: 5 },
        updated_at: Timestamp { secs: 1_700_000_000, nanos: 5 },
        access_count: 0,
        relevance_score: 0,
    }
}

fn request() -> SearchRequest {
    SearchRequest {
        query: "q".to_string(),
        limit: None,
        threshold: None,
        category_filter: None,
        tags_filter: None,
        instance_filter: None,
        hybrid_mode: true,
    }
}

fn put_key(c: &StoreCommand) -> Option<(String, String, Option<u64>)> {
    match c {
        StoreCommand::Put { key, value, ttl_seconds } => Some((key.clone(), value.clone(), *ttl_seconds)),
        _ => None,
    }
}

#[test]
fn set_plan_writes_record_metadata_tags_and_chain() {
    let cache = CacheLayer::new("CC");
    let m = memory(1, "hello", Some("ops"), &["a", "b"], Some("c1"));
    let plan = cache.set_plan("m1", &m, "{json}", None);
    assert_eq!(plan.len(), 5);
    assert_eq!(put_key(&plan[0]), Some(("CC:Thoughts:m1".to_string(), "{json}".to_string(), None)));
    match &plan[1] {
        StoreCommand::WriteHash { key, fields } => {
            assert_eq!(key, "CC:thought_meta:m1");
            assert_eq!(fields.len(), 8);
            assert_eq!(fields[7].name, "access_count");
            assert!(matches!(fields[7].value, FieldValue::Int(0)));
            assert!(matches!(&fields[3].value, FieldValue::Text(c) if c == "ops"));
            assert!(matches!(fields[6].value, FieldValue::Time(Timestamp { secs: 1_700_000_000, nanos: 5 })));
        }
        other => panic!("unexpected {:?}", other),
    }
    assert!(matches!(&plan[2], StoreCommand::SetAdd { key, member } if key == "CC:tags:a" && member == "m1"));
    assert!(matches!(&plan[3], StoreCommand::SetAdd { key, member } if key == "CC:tags:b" && member == "m1"));
    assert!(matches!(&plan[4], StoreCommand::ListPush { key, member } if key == "CC:chains:c1" && member == "m1"));
}

#[test]
fn set_plan_keeps_ttl_and_skips_absent_chain() {
    let cache = CacheLayer::new("X");
    let m = memory(1, "hello", None, &[], None);
    let plan = cache.set_plan("id", &m, "rec", Some(60));
    assert_eq!(plan.len(), 2);
    assert_eq!(put_key(&plan[0]), Some(("X:Thoughts:id".to_string(), "rec".to_string(), Some(60))));
    match &plan[1] {
        StoreCommand::WriteHash { fields, .. } => assert!(matches!(fields[3].value, FieldValue::Null)),
        other => panic!("unexpected {:?}", other),
    }
}

#[test]
fn stored_record_is_written_verbatim_and_reads_only_touch_metadata() {
    let cache = CacheLayer::new("CC");
    let m = memory(9, "outage postmortem", Some("ops"), &["incident"], None);
    let plan = cache.set_plan("m9", &m, "{\"content\":\"outage postmortem\"}", None);
    assert_eq!(put_key(&plan[0]).unwrap().1, "{\"content\":\"outage postmortem\"}");
    let access = cache.access_plan("m9", Timestamp { secs: 10, nanos: 0 });
    assert_eq!(access.len(), 2);
    assert!(matches!(&access[0], StoreCommand::HashIncrement { key, field, by: 1 }
        if key == "CC:thought_meta:m9" && field == "access_count"));
    assert!(matches!(&access[1], StoreCommand::HashSetField { key, field, value: FieldValue::Time(Timestamp { secs: 10, nanos: 0 }) }
        if key == "CC:thought_meta:m9" && field == "last_accessed"));
}

#[test]
fn invalidate_removes_id_from_both_tag_sets() {
    let cache = CacheLayer::new("CC");
    let m = memory(2, "x", None, &["a", "b"], Some("ch"));
    let plan = cache.invalidate_plan("m2", Some(&m));
    assert_eq!(plan.len(), 5);
    assert!(matches!(&plan[0], StoreCommand::SetRemove { key, member } if key == "CC:tags:a" && member == "m2"));
    assert!(matches!(&plan[1], StoreCommand::SetRemove { key, member } if key == "CC:tags:b" && member == "m2"));
    assert!(matches!(&plan[2], StoreCommand::ListRemove { key, member } if key == "CC:chains:ch" && member == "m2"));
    assert!(matches!(&plan[3], StoreCommand::Delete { key } if key == "CC:Thoughts:m2"));
    assert!(matches!(&plan[4], StoreCommand::Delete { key } if key == "CC:thought_meta:m2"));
}

#[test]
fn invalidate_missing_id_only_deletes() {
    let cache = CacheLayer::new("CC");
    let plan = cache.invalidate_plan("nope", None);
    assert_eq!(plan.len(), 2);
    assert!(matches!(&plan[0], StoreCommand::Delete { key } if key == "CC:Thoughts:nope"));
    assert!(matches!(&plan[1], StoreCommand::Delete { key } if key == "CC:thought_meta:nope"));
}

#[test]
fn chain_pushes_follow_store_order() {
    let cache = CacheLayer::new("CC");
    let mut pushed = Vec::new();
    for id in ["m1", "m2", "m3"] {
        let m = memory(3, "x", None, &[], Some("chain"));
        for c in cache.set_plan(id, &m, "r", None) {
            if let StoreCommand::ListPush { key, member } = c {
                assert_eq!(key, "CC:chains:chain");
                pushed.push(member);
            }
        }
    }
    assert_eq!(pushed, vec!["m1".to_string(), "m2".to_string(), "m3".to_string()]);
}

#[test]
fn filters_apply_category_tags_and_instance() {
    let m = memory(4, "x", Some("ops"), &["incident", "db"], None);
    let mut r = request();
    assert!(matches_filters(&r, &m));
    r.category_filter = Some("ops".to_string());
    assert!(matches_filters(&r, &m));
    r.category_filter = Some("dev".to_string());
    assert!(!matches_filters(&r, &m));
    r.category_filter = None;
    r.tags_filter = Some(vec!["zzz".to_string(), "db".to_string()]);
    assert!(matches_filters(&r, &m));
    r.tags_filter = Some(vec!["a".to_string()]);
    assert!(!matches_filters(&r, &m));
    r.tags_filter = Some(vec![]);
    assert!(!matches_filters(&r, &m));
    r.tags_filter = None;
    r.instance_filter = Some(vec!["CC".to_string()]);
    assert!(matches_filters(&r, &m));
    r.instance_filter = Some(vec!["OTHER".to_string()]);
    assert!(!matches_filters(&r, &m));
    let no_category = memory(5, "x", None, &[], None);
    r.instance_filter = None;
    r.category_filter = Some("ops".to_string());
    assert!(!matches_filters(&r, &no_category));
}

#[test]
fn invalidated_tag_excluded_by_tag_filter_scan() {
    let mut r = request();
    r.tags_filter = Some(vec!["a".to_string()]);
    let mut scan = CachedScan::new(&r);
    // After invalidation the record is gone: the scan only sees the remaining one.
    let remaining = memory(6, "other", None, &["b"], None);
    assert!(!scan.offer(&r, remaining));
    assert!(scan.results.is_empty());
}

#[test]
fn scan_stops_at_limit() {
    let mut r = request();
    r.limit = Some(2);
    let mut scan = CachedScan::new(&r);
    assert_eq!(scan.limit, 2);
    assert!(scan.offer(&r, memory(1, "a", None, &[], None)));
    assert!(!scan.is_done(7));
    assert!(scan.offer(&r, memory(2, "b", None, &[], None)));
    assert!(scan.is_full());
    assert!(scan.is_done(7));
    assert!(!scan.offer(&r, memory(3, "c", None, &[], None)));
    assert_eq!(scan.results.len(), 2);
    assert_eq!(scan.results[1].id, 2);
}

#[test]
fn scan_default_limit_and_cursor_end() {
    let r = request();
    let scan = CachedScan::new(&r);
    assert_eq!(scan.limit, 20);
    assert!(scan.is_done(0));
    assert!(!scan.is_done(3));
}

#[test]
fn cache_fill_only_for_nonempty_results() {
    let cache = CacheLayer::new("CC");
    assert!(cache.cache_fill_plan("um:cache:k", &vec![], "[]").is_empty());
    let plan = cache.cache_fill_plan("um:cache:k", &vec![memory(1, "a", None, &[], None)], "[x]");
    assert_eq!(plan.len(), 1);
    assert_eq!(put_key(&plan[0]), Some(("um:cache:k".to_string(), "[x]".to_string(), Some(3600))));
}

#[test]
fn cached_lookup_answers_without_scan() {
    let v = vec![memory(1, "a", None, &[], None)];
    match after_lookup(Some(v)) {
        LookupStep::Answer(got) => assert_eq!(got[0].id, 1),
        LookupStep::Scan => panic!("expected an answer"),
    }
    assert!(matches!(after_lookup(None), LookupStep::Scan));
}

#[test]
fn contains_str_finds_exact_match() {
    let v = vec!["ab".to_string(), "c".to_string()];
    assert!(contains_str(&v, &"c".to_string()));
    assert!(!contains_str(&v, &"a".to_string()));
}
