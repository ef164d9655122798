use vstd::prelude::*;
use crate::cache::{
    after_lookup_of, cache_fill_plan_of, LookupStep, access_plan_of, chain_push, chain_remove, invalidate_plan_of, set_plan_of, tag_adds, tag_removes,
};
use crate::keys::{chain_key_of, metadata_key_of, tag_key_of, thought_key_of};
use crate::fingerprint::{request_text_of, result_cache_key_of, same_request};
use crate::models::{opt_view, tags_of, Memory, SearchRequest, Timestamp};
use crate::store::{apply, apply_all, lemma_apply_all_append, list_at, set_at, CommandView, StoreState};

verus! {

pub open spec fn writes_strings(c: CommandView) -> bool {
    c is Put || c is Delete
}

pub open spec fn writes_lists(c: CommandView) -> bool {
    c is ListPush || c is ListRemove || c is Delete
}

/// Commands that write neither strings nor lists leave both untouched.
proof fn lemma_untouched(s: StoreState, cs: Seq<CommandView>)
    ensures
        (forall|i: int| 0 <= i < cs.len() ==> !writes_strings(#[trigger] cs[i])) ==> apply_all(s, cs).strings
            == s.strings,
        (forall|i: int| 0 <= i < cs.len() ==> !writes_lists(#[trigger] cs[i])) ==> apply_all(s, cs).lists
            == s.lists,
    decreases cs.len(),
{
    if cs.len() > 0 {
        lemma_untouched(s, cs.drop_last());
        if forall|i: int| 0 <= i < cs.len() ==> !writes_strings(#[trigger] cs[i]) {
            assert forall|i: int| 0 <= i < cs.drop_last().len() implies !writes_strings(
                #[trigger] cs.drop_last()[i],
            ) by {
                assert(cs.drop_last()[i] == cs[i]);
            }
            assert(!writes_strings(cs[cs.len() - 1]));
        }
        if forall|i: int| 0 <= i < cs.len() ==> !writes_lists(#[trigger] cs[i]) {
            assert forall|i: int| 0 <= i < cs.drop_last().len() implies !writes_lists(
                #[trigger] cs.drop_last()[i],
            ) by {
                assert(cs.drop_last()[i] == cs[i]);
            }
            assert(!writes_lists(cs[cs.len() - 1]));
        }
    }
}

/// Once `id` is absent from the set at `k`, commands that add nothing to sets keep it absent.
proof fn lemma_stays_out_of_set(s: StoreState, cs: Seq<CommandView>, k: Seq<char>, id: Seq<char>)
    requires
        !set_at(s, k).contains(id),
        forall|i: int| 0 <= i < cs.len() ==> !(#[trigger] cs[i] is SetAdd),
    ensures
        !set_at(apply_all(s, cs), k).contains(id),
    decreases cs.len(),
{
    if cs.len() > 0 {
        assert forall|i: int| 0 <= i < cs.drop_last().len() implies !(#[trigger] cs.drop_last()[i] is SetAdd) by {
            assert(cs.drop_last()[i] == cs[i]);
        }
        lemma_stays_out_of_set(s, cs.drop_last(), k, id);
        assert(!(cs[cs.len() - 1] is SetAdd));
    }
}

/// After the first `n` tag removals, `id` is in none of the sets of those tags.
proof fn lemma_tag_removes(s: StoreState, prefix: Seq<char>, id: Seq<char>, tags: Seq<Seq<char>>, n: int)
    requires
        0 <= n <= tags.len(),
    ensures
        forall|j: int|
            0 <= j < n ==> !#[trigger] set_at(
                apply_all(s, tag_removes(prefix, id, tags).take(n)),
                tag_key_of(prefix, tags[j]),
            ).contains(id),
    decreases n,
{
    if n > 0 {
        let cs = tag_removes(prefix, id, tags).take(n);
        let prev = tag_removes(prefix, id, tags).take(n - 1);
        assert(cs.drop_last() =~= prev);
        lemma_tag_removes(s, prefix, id, tags, n - 1);
        let s0 = apply_all(s, prev);
        assert forall|j: int| 0 <= j < n implies !#[trigger] set_at(apply_all(s, cs), tag_key_of(prefix, tags[j])).contains(
            id,
        ) by {
            let k = tag_key_of(prefix, tags[j]);
            if j < n - 1 {
                assert(!set_at(s0, k).contains(id));
                lemma_stays_out_of_set(s0, seq![cs.last()], k, id);
                assert(seq![cs.last()].drop_last() =~= Seq::<CommandView>::empty());
            }
        }
    }
}

/// A stored record reads back unchanged: after the writes that store `m` under
/// `id`, the record key holds exactly the serialized record, and the bookkeeping
/// that a read makes afterwards leaves every record as it was.
pub proof fn lemma_stored_record_reads_back(
    s: StoreState,
    prefix: Seq<char>,
    id: Seq<char>,
    m: Memory,
    record: Seq<char>,
    ttl: Option<u64>,
    now: Timestamp,
)
    ensures
        apply_all(s, set_plan_of(prefix, id, m, record, ttl)).strings.contains_key(thought_key_of(prefix, id)),
        apply_all(s, set_plan_of(prefix, id, m, record, ttl)).strings[thought_key_of(prefix, id)] == record,
        apply_all(apply_all(s, set_plan_of(prefix, id, m, record, ttl)), access_plan_of(prefix, id, now)).strings
            == apply_all(s, set_plan_of(prefix, id, m, record, ttl)).strings,
{
    let plan = set_plan_of(prefix, id, m, record, ttl);
    let head = plan.take(1);
    let rest = plan.skip(1);
    assert(plan =~= head + rest);
    lemma_apply_all_append(s, head, rest);
    assert(head.drop_last() =~= Seq::<CommandView>::empty());
    assert(apply_all(s, head.drop_last()) == s);
    assert(head.last() == plan[0]);
    let s1 = apply_all(s, head);
    assert(s1 == apply(s, plan[0]));
    assert(s1.strings == s.strings.insert(thought_key_of(prefix, id), record));
    assert forall|i: int| 0 <= i < rest.len() implies !writes_strings(#[trigger] rest[i]) by {
        assert(rest[i] == plan[i + 1]);
        if i + 1 >= 2 {
            let tags = tag_adds(prefix, id, tags_of(m));
            if i + 1 < 2 + tags.len() {
                assert(plan[i + 1] == tags[i - 1]);
            } else {
                let ch = chain_push(prefix, id, opt_view(m.metadata.chain_id));
                assert(plan[i + 1] == ch[i + 1 - 2 - tags.len()]);
            }
        }
    }
    lemma_untouched(s1, rest);
    let after = apply_all(s, plan);
    let a = access_plan_of(prefix, id, now);
    assert forall|i: int| 0 <= i < a.len() implies !writes_strings(#[trigger] a[i]) by {}
    lemma_untouched(after, a);
}

/// Invalidating a stored memory takes its id out of the set of every one of its
/// tags, and its record out of the store, so no later scan of the records can
/// return it.
pub proof fn lemma_invalidate_clears_tags(s: StoreState, prefix: Seq<char>, id: Seq<char>, m: Memory)
    ensures
        forall|t: Seq<char>|
            tags_of(m).contains(t) ==> !#[trigger] set_at(
                apply_all(s, invalidate_plan_of(prefix, id, Some(m))),
                tag_key_of(prefix, t),
            ).contains(id),
        !apply_all(s, invalidate_plan_of(prefix, id, Some(m))).strings.contains_key(thought_key_of(prefix, id)),
{
    let tags = tags_of(m);
    let removes = tag_removes(prefix, id, tags);
    let rest = chain_remove(prefix, id, opt_view(m.metadata.chain_id)) + seq![
        CommandView::Delete { key: thought_key_of(prefix, id) },
        CommandView::Delete { key: metadata_key_of(prefix, id) },
    ];
    let plan = invalidate_plan_of(prefix, id, Some(m));
    assert(plan =~= removes + rest);
    lemma_apply_all_append(s, removes, rest);
    lemma_tag_removes(s, prefix, id, tags, tags.len() as int);
    assert(removes.take(tags.len() as int) =~= removes);
    let s1 = apply_all(s, removes);
    assert forall|i: int| 0 <= i < rest.len() implies !(#[trigger] rest[i] is SetAdd) by {}
    assert forall|t: Seq<char>| tags.contains(t) implies !#[trigger] set_at(apply_all(s, plan), tag_key_of(prefix, t)).contains(
        id,
    ) by {
        let j = choose|j: int| 0 <= j < tags.len() && tags[j] == t;
        lemma_stays_out_of_set(s1, rest, tag_key_of(prefix, t), id);
    }
    let t = thought_key_of(prefix, id);
    let mk = metadata_key_of(prefix, id);
    assert(plan.last() == CommandView::Delete { key: mk });
    assert(plan.drop_last().last() == CommandView::Delete { key: t });
    let s_a = apply_all(s, plan.drop_last());
    assert(s_a == apply(apply_all(s, plan.drop_last().drop_last()), CommandView::Delete { key: t }));
    assert(!s_a.strings.contains_key(t));
    assert(apply_all(s, plan) == apply(s_a, CommandView::Delete { key: mk }));
}

/// Invalidating an id with no record writes nothing but the two deletions: every
/// tag set and chain list is as it was, and neither the record nor its metadata remains.
pub proof fn lemma_invalidate_missing_leaves_no_trace(s: StoreState, prefix: Seq<char>, id: Seq<char>)
    ensures
        forall|k: Seq<char>|
            k != thought_key_of(prefix, id) && k != metadata_key_of(prefix, id) ==> #[trigger] set_at(
                apply_all(s, invalidate_plan_of(prefix, id, None)),
                k,
            ) == set_at(s, k),
        forall|k: Seq<char>|
            k != thought_key_of(prefix, id) && k != metadata_key_of(prefix, id) ==> #[trigger] list_at(
                apply_all(s, invalidate_plan_of(prefix, id, None)),
                k,
            ) == list_at(s, k),
        !apply_all(s, invalidate_plan_of(prefix, id, None)).strings.contains_key(thought_key_of(prefix, id)),
        !apply_all(s, invalidate_plan_of(prefix, id, None)).hashes.contains_key(metadata_key_of(prefix, id)),
{
    let plan = invalidate_plan_of(prefix, id, None);
    let t = thought_key_of(prefix, id);
    let mk = metadata_key_of(prefix, id);
    assert(plan.drop_last().drop_last() =~= Seq::<CommandView>::empty());
    assert(plan.drop_last().last() == CommandView::Delete { key: t });
    assert(plan.last() == CommandView::Delete { key: mk });
    let s_a = apply(s, CommandView::Delete { key: t });
    assert(apply_all(s, plan.drop_last().drop_last()) == s);
    assert(apply_all(s, plan.drop_last()) == apply(apply_all(s, plan.drop_last().drop_last()), plan.drop_last().last()));
    assert(apply_all(s, plan.drop_last()) == s_a);
    let s_b = apply(s_a, CommandView::Delete { key: mk });
    assert(apply_all(s, plan) == s_b);
    assert forall|k: Seq<char>| k != t && k != mk implies #[trigger] set_at(s_b, k) == set_at(s, k) && list_at(
        s_b,
        k,
    ) == list_at(s, k) by {}
}

/// Storing a memory of chain `c` appends its id to the end of the chain list.
pub proof fn lemma_store_appends_to_chain(
    s: StoreState,
    prefix: Seq<char>,
    id: Seq<char>,
    m: Memory,
    record: Seq<char>,
    ttl: Option<u64>,
    c: Seq<char>,
)
    requires
        opt_view(m.metadata.chain_id) == Some(c),
    ensures
        list_at(apply_all(s, set_plan_of(prefix, id, m, record, ttl)), chain_key_of(prefix, c)) == list_at(
            s,
            chain_key_of(prefix, c),
        ).push(id),
{
    let plan = set_plan_of(prefix, id, m, record, ttl);
    let front = plan.drop_last();
    let tags = tag_adds(prefix, id, tags_of(m));
    assert(plan.len() == 3 + tags.len());
    assert forall|i: int| 0 <= i < front.len() implies !writes_lists(#[trigger] front[i]) by {
        assert(front[i] == plan[i]);
        if i >= 2 {
            assert(plan[i] == tags[i - 2]);
        }
    }
    lemma_untouched(s, front);
    assert(plan.last() == CommandView::ListPush { key: chain_key_of(prefix, c), member: id });
}

/// Three memories stored one after another on the same chain are listed by the
/// chain in the order in which they were stored.
pub proof fn lemma_chain_keeps_store_order(
    s: StoreState,
    prefix: Seq<char>,
    c: Seq<char>,
    ids: (Seq<char>, Seq<char>, Seq<char>),
    ms: (Memory, Memory, Memory),
    records: (Seq<char>, Seq<char>, Seq<char>),
    ttl: Option<u64>,
)
    requires
        opt_view(ms.0.metadata.chain_id) == Some(c),
        opt_view(ms.1.metadata.chain_id) == Some(c),
        opt_view(ms.2.metadata.chain_id) == Some(c),
    ensures
        ({
            let s1 = apply_all(s, set_plan_of(prefix, ids.0, ms.0, records.0, ttl));
            let s2 = apply_all(s1, set_plan_of(prefix, ids.1, ms.1, records.1, ttl));
            let s3 = apply_all(s2, set_plan_of(prefix, ids.2, ms.2, records.2, ttl));
            list_at(s3, chain_key_of(prefix, c)) == list_at(s, chain_key_of(prefix, c)) + seq![ids.0, ids.1, ids.2]
        }),
{
    let s1 = apply_all(s, set_plan_of(prefix, ids.0, ms.0, records.0, ttl));
    let s2 = apply_all(s1, set_plan_of(prefix, ids.1, ms.1, records.1, ttl));
    lemma_store_appends_to_chain(s, prefix, ids.0, ms.0, records.0, ttl, c);
    lemma_store_appends_to_chain(s1, prefix, ids.1, ms.1, records.1, ttl, c);
    lemma_store_appends_to_chain(s2, prefix, ids.2, ms.2, records.2, ttl, c);
    let k = chain_key_of(prefix, c);
    assert(list_at(s, k).push(ids.0).push(ids.1).push(ids.2) =~= list_at(s, k) + seq![ids.0, ids.1, ids.2]);
}

/// Two filtered searches with requests that agree in every field share one
/// result-cache key. Once the first has cached its non-empty results, that key
/// holds them, and reading them back answers the second search without a scan.
pub proof fn lemma_repeated_search_hits_cache(
    s: StoreState,
    first: SearchRequest,
    second: SearchRequest,
    results: Vec<Memory>,
    payload: Seq<char>,
)
    requires
        same_request(first, second),
        results@.len() > 0,
    ensures
        result_cache_key_of(first) == result_cache_key_of(second),
        apply_all(s, cache_fill_plan_of(result_cache_key_of(first), results@.len(), payload)).strings.contains_key(
            result_cache_key_of(second),
        ),
        apply_all(s, cache_fill_plan_of(result_cache_key_of(first), results@.len(), payload)).strings[result_cache_key_of(
            second,
        )] == payload,
        after_lookup_of(Some(results)) == LookupStep::Answer(results),
{
    assert(request_text_of(first) == request_text_of(second));
    let plan = cache_fill_plan_of(result_cache_key_of(first), results@.len(), payload);
    assert(plan.drop_last() =~= Seq::<CommandView>::empty());
    assert(apply_all(s, plan.drop_last()) == s);
}

} // verus!
