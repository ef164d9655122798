use vstd::prelude::*;
use crate::keys::{
    chain_key_of, metadata_key_of, tag_key_of, thought_key_of, KeySpace,
};
use crate::models::{
    limit_of, opt_view, strings_view, tags_of, Memory, SearchRequest, Timestamp, DEFAULT_LIMIT,
};
use crate::store::{CommandView, FieldValue, FieldView, HashField, StoreCommand, fields_view, plan_view};

verus! {

/// Seconds for which a cached result list is kept.
pub const RESULT_CACHE_TTL_SECONDS: u64 = 3600;

/// The fields of the access-metadata hash written when a memory is stored.
pub open spec fn metadata_fields_of(prefix: Seq<char>, id: Seq<char>, m: Memory) -> Seq<(Seq<char>, FieldView)> {
    seq![
        ("thought_id"@, FieldView::Text(id)),
        ("instance"@, FieldView::Text(prefix)),
        ("importance"@, FieldView::Int(m.metadata.importance as int)),
        ("category"@, match opt_view(m.metadata.category) {
            Some(c) => FieldView::Text(c),
            None => FieldView::Null,
        }),
        ("tags"@, FieldView::List(tags_of(m))),
        ("created_at"@, FieldView::Time(m.created_at)),
        ("last_accessed"@, FieldView::Time(m.created_at)),
        ("access_count"@, FieldView::Int(0)),
    ]
}

/// One set insertion of `id` per tag, in tag order.
pub open spec fn tag_adds(prefix: Seq<char>, id: Seq<char>, tags: Seq<Seq<char>>) -> Seq<CommandView> {
    Seq::new(tags.len(), |i: int| CommandView::SetAdd { key: tag_key_of(prefix, tags[i]), member: id })
}

/// One set removal of `id` per tag, in tag order.
pub open spec fn tag_removes(prefix: Seq<char>, id: Seq<char>, tags: Seq<Seq<char>>) -> Seq<CommandView> {
    Seq::new(tags.len(), |i: int| CommandView::SetRemove { key: tag_key_of(prefix, tags[i]), member: id })
}

/// The append of `id` to its chain, if the memory belongs to one.
pub open spec fn chain_push(prefix: Seq<char>, id: Seq<char>, chain: Option<Seq<char>>) -> Seq<CommandView> {
    match chain {
        Some(c) => seq![CommandView::ListPush { key: chain_key_of(prefix, c), member: id }],
        None => Seq::empty(),
    }
}

/// The removal of `id` from its chain, if the memory belongs to one.
pub open spec fn chain_remove(prefix: Seq<char>, id: Seq<char>, chain: Option<Seq<char>>) -> Seq<CommandView> {
    match chain {
        Some(c) => seq![CommandView::ListRemove { key: chain_key_of(prefix, c), member: id }],
        None => Seq::empty(),
    }
}

/// The writes that store a memory under `id`: the record, a fresh metadata hash,
/// the tag index and the chain list, in that order.
pub open spec fn set_plan_of(
    prefix: Seq<char>,
    id: Seq<char>,
    m: Memory,
    record: Seq<char>,
    ttl: Option<u64>,
) -> Seq<CommandView> {
    seq![
        CommandView::Put { key: thought_key_of(prefix, id), value: record, ttl_seconds: ttl },
        CommandView::WriteHash { key: metadata_key_of(prefix, id), fields: metadata_fields_of(prefix, id, m) },
    ] + tag_adds(prefix, id, tags_of(m)) + chain_push(prefix, id, opt_view(m.metadata.chain_id))
}

/// The best-effort bookkeeping that follows a successful read.
pub open spec fn access_plan_of(prefix: Seq<char>, id: Seq<char>, now: Timestamp) -> Seq<CommandView> {
    seq![
        CommandView::HashIncrement { key: metadata_key_of(prefix, id), field: "access_count"@, by: 1 },
        CommandView::HashSetField {
            key: metadata_key_of(prefix, id),
            field: "last_accessed"@,
            value: FieldView::Time(now),
        },
    ]
}

/// The writes that remove `id`: index cleanup for the record that was found (if
/// any), then deletion of the record and of its metadata hash.
pub open spec fn invalidate_plan_of(prefix: Seq<char>, id: Seq<char>, found: Option<Memory>) -> Seq<CommandView> {
    let cleanup = match found {
        Some(m) => tag_removes(prefix, id, tags_of(m)) + chain_remove(prefix, id, opt_view(m.metadata.chain_id)),
        None => Seq::empty(),
    };
    cleanup + seq![
        CommandView::Delete { key: thought_key_of(prefix, id) },
        CommandView::Delete { key: metadata_key_of(prefix, id) },
    ]
}

/// The write that caches `n` results, serialized as `payload`, for an hour; nothing when `n` is zero.
pub open spec fn cache_fill_plan_of(key: Seq<char>, n: nat, payload: Seq<char>) -> Seq<CommandView> {
    if n == 0 {
        Seq::empty()
    } else {
        seq![CommandView::Put { key, value: payload, ttl_seconds: Some(RESULT_CACHE_TTL_SECONDS) }]
    }
}

/// The next step of a filtered search after the result cache was read.
pub enum LookupStep {
    /// The cached list answers the request verbatim.
    Answer(Vec<Memory>),
    /// Nothing usable was cached: scan the records.
    Scan,
}

/// Decides on a read of the result cache, `decoded` being the cached list when
/// one was present and readable.
pub fn after_lookup(decoded: Option<Vec<Memory>>) -> (r: LookupStep)
    ensures
        r == after_lookup_of(decoded),
{
    match decoded {
        Some(v) => LookupStep::Answer(v),
        None => LookupStep::Scan,
    }
}

pub open spec fn after_lookup_of(decoded: Option<Vec<Memory>>) -> LookupStep {
    match decoded {
        Some(v) => LookupStep::Answer(v),
        None => LookupStep::Scan,
    }
}

/// Whether a memory passes the category (exact), tags (match-any) and instance
/// (allow-list) filters of a request; an absent filter lets everything through.
pub open spec fn filter_matches(r: SearchRequest, m: Memory) -> bool {
    &&& match r.category_filter {
        Some(c) => opt_view(m.metadata.category) == Some(c@),
        None => true,
    }
    &&& match r.tags_filter {
        Some(ts) => exists|i: int| 0 <= i < ts@.len() && tags_of(m).contains(#[trigger] ts@[i]@),
        None => true,
    }
    &&& match r.instance_filter {
        Some(is) => strings_view(is@).contains(m.instance_id@),
        None => true,
    }
}

/// Whether `s` is one of the strings of `v`.
pub fn contains_str(v: &Vec<String>, s: &String) -> (r: bool)
    ensures
        r == strings_view(v@).contains(s@),
{
    let mut i: usize = 0;
    while i < v.len()
        invariant
            i <= v.len(),
            forall|j: int| 0 <= j < i ==> v@[j]@ != s@,
        decreases v.len() - i,
    {
        if v[i] == *s {
            assert(strings_view(v@)[i as int] == s@);
            return true;
        }
        i = i + 1;
    }
    proof {
        if strings_view(v@).contains(s@) {
            let k = choose|k: int| 0 <= k < strings_view(v@).len() && strings_view(v@)[k] == s@;
            assert(v@[k]@ == s@);
        }
    }
    false
}

/// Whether `m` passes the filters of `r`.
pub fn matches_filters(r: &SearchRequest, m: &Memory) -> (b: bool)
    ensures
        b == filter_matches(*r, *m),
{
    if let Some(c) = &r.category_filter {
        match &m.metadata.category {
            Some(mc) => {
                if !(*mc == *c) {
                    return false;
                }
            },
            None => {
                return false;
            },
        }
    }
    if let Some(ts) = &r.tags_filter {
        let mut i: usize = 0;
        let mut any = false;
        while i < ts.len() && !any
            invariant
                i <= ts@.len(),
                any ==> 0 < i && tags_of(*m).contains(ts@[i - 1]@),
                !any ==> forall|j: int| 0 <= j < i ==> !tags_of(*m).contains(#[trigger] ts@[j]@),
            decreases ts.len() - i,
        {
            any = contains_str(&m.metadata.tags, &ts[i]);
            i = i + 1;
        }
        if !any {
            return false;
        }
    }
    if let Some(is) = &r.instance_filter {
        if !contains_str(is, &m.instance_id) {
            return false;
        }
    }
    true
}

/// The result list of a scan over stored records, filled up to the request's limit.
pub struct CachedScan {
    pub results: Vec<Memory>,
    pub limit: usize,
}

impl CachedScan {
    pub fn new(r: &SearchRequest) -> (s: CachedScan)
        ensures
            s.results@.len() == 0,
            s.limit == limit_of(*r),
    {
        let limit = match r.limit {
            Some(n) => n,
            None => DEFAULT_LIMIT,
        };
        CachedScan { results: Vec::new(), limit }
    }

    /// Whether the limit has been reached.
    pub fn is_full(&self) -> (b: bool)
        ensures
            b == (self.results@.len() >= self.limit),
    {
        self.results.len() >= self.limit
    }

    /// Takes a candidate read from the store when it passes the filters and the
    /// limit has not been reached yet. Returns whether it was taken.
    pub fn offer(&mut self, r: &SearchRequest, m: Memory) -> (taken: bool)
        ensures
            taken == (old(self).results@.len() < old(self).limit && filter_matches(*r, m)),
            final(self).limit == old(self).limit,
            final(self).results@ == if taken {
                old(self).results@.push(m)
            } else {
                old(self).results@
            },
    {
        if self.is_full() || !matches_filters(r, &m) {
            return false;
        }
        self.results.push(m);
        true
    }

    /// Whether the scan stops after a page that returned `next_cursor`:
    /// the enumeration is exhausted or the limit is reached.
    pub fn is_done(&self, next_cursor: u64) -> (b: bool)
        ensures
            b == (next_cursor == 0 || self.results@.len() >= self.limit),
    {
        next_cursor == 0 || self.is_full()
    }
}

/// The cache layer: the writes that each operation makes against the cache store,
/// under the key namespace of one instance.
pub struct CacheLayer {
    pub keys: KeySpace,
}

impl CacheLayer {
    pub fn new(instance_id: &str) -> (c: CacheLayer)
        ensures
            c.keys.prefix@ == instance_id@,
    {
        CacheLayer { keys: KeySpace::new(instance_id) }
    }

    fn text_field(name: &str, value: String) -> (f: HashField)
        ensures
            f.name@ == name@,
            f.value@ == FieldView::Text(value@),
    {
        HashField { name: String::from_str(name), value: FieldValue::Text(value) }
    }

    fn value_field(name: &str, value: FieldValue) -> (f: HashField)
        ensures
            f.name@ == name@,
            f.value == value,
    {
        HashField { name: String::from_str(name), value }
    }

    /// The access-metadata hash of a freshly stored memory.
    pub fn metadata_fields(&self, id: &str, m: &Memory) -> (r: Vec<HashField>)
        ensures
            fields_view(r@) == metadata_fields_of(self.keys.prefix@, id@, *m),
    {
        let mut v: Vec<HashField> = Vec::new();
        v.push(Self::text_field("thought_id", String::from_str(id)));
        v.push(Self::text_field("instance", self.keys.prefix.clone()));
        v.push(Self::value_field("importance", FieldValue::Int(m.metadata.importance as i64)));
        let category = match &m.metadata.category {
            Some(c) => FieldValue::Text(c.clone()),
            None => FieldValue::Null,
        };
        v.push(Self::value_field("category", category));
        v.push(Self::value_field("tags", FieldValue::List(crate::models::clone_strings(&m.metadata.tags))));
        v.push(Self::value_field("created_at", FieldValue::Time(m.created_at)));
        v.push(Self::value_field("last_accessed", FieldValue::Time(m.created_at)));
        v.push(Self::value_field("access_count", FieldValue::Int(0)));
        assert(fields_view(v@) =~= metadata_fields_of(self.keys.prefix@, id@, *m));
        v
    }

    /// The writes that store `memory` under `id`, its serialized form being `record`.
    pub fn set_plan(&self, id: &str, memory: &Memory, record: &str, ttl_seconds: Option<u64>) -> (r: Vec<
        StoreCommand,
    >)
        ensures
            plan_view(r@) == set_plan_of(self.keys.prefix@, id@, *memory, record@, ttl_seconds),
    {
        let ghost expected = set_plan_of(self.keys.prefix@, id@, *memory, record@, ttl_seconds);
        let ghost tags = tags_of(*memory);
        let mut plan: Vec<StoreCommand> = Vec::new();
        plan.push(
            StoreCommand::Put {
                key: self.keys.thought_key(id),
                value: String::from_str(record),
                ttl_seconds,
            },
        );
        plan.push(StoreCommand::WriteHash { key: self.keys.metadata_key(id), fields: self.metadata_fields(id, memory) });
        let n = memory.metadata.tags.len();
        let mut i: usize = 0;
        while i < n
            invariant
                n == tags.len(),
                tags == tags_of(*memory),
                i <= n,
                plan@.len() == 2 + i,
                expected == set_plan_of(self.keys.prefix@, id@, *memory, record@, ttl_seconds),
                forall|j: int| 0 <= j < plan@.len() ==> plan@[j]@ == expected[j],
            decreases n - i,
        {
            let tag = &memory.metadata.tags[i];
            plan.push(StoreCommand::SetAdd { key: self.keys.tag_key(tag.as_str()), member: String::from_str(id) });
            i = i + 1;
        }
        if let Some(c) = &memory.metadata.chain_id {
            plan.push(StoreCommand::ListPush { key: self.keys.chain_key(c.as_str()), member: String::from_str(id) });
        }
        assert(plan_view(plan@) =~= expected);
        plan
    }

    /// The bookkeeping writes after `id` was read at time `now`.
    pub fn access_plan(&self, id: &str, now: Timestamp) -> (r: Vec<StoreCommand>)
        ensures
            plan_view(r@) == access_plan_of(self.keys.prefix@, id@, now),
    {
        let mut plan: Vec<StoreCommand> = Vec::new();
        plan.push(
            StoreCommand::HashIncrement {
                key: self.keys.metadata_key(id),
                field: String::from_str("access_count"),
                by: 1,
            },
        );
        plan.push(
            StoreCommand::HashSetField {
                key: self.keys.metadata_key(id),
                field: String::from_str("last_accessed"),
                value: FieldValue::Time(now),
            },
        );
        assert(plan_view(plan@) =~= access_plan_of(self.keys.prefix@, id@, now));
        plan
    }

    /// The writes that remove `id`, given the record that a read found under it.
    pub fn invalidate_plan(&self, id: &str, found: Option<&Memory>) -> (r: Vec<StoreCommand>)
        ensures
            plan_view(r@) == invalidate_plan_of(
                self.keys.prefix@,
                id@,
                match found {
                    Some(m) => Some(*m),
                    None => None,
                },
            ),
    {
        let ghost fm = match found {
            Some(m) => Some(*m),
            None => None,
        };
        let ghost expected = invalidate_plan_of(self.keys.prefix@, id@, fm);
        let mut plan: Vec<StoreCommand> = Vec::new();
        if let Some(m) = found {
            let ghost tags = tags_of(*m);
            let n = m.metadata.tags.len();
            let mut i: usize = 0;
            while i < n
                invariant
                    n == tags.len(),
                    tags == tags_of(*m),
                    fm == Some(*m),
                    i <= n,
                    plan@.len() == i,
                    expected == invalidate_plan_of(self.keys.prefix@, id@, fm),
                    forall|j: int| 0 <= j < plan@.len() ==> plan@[j]@ == expected[j],
                decreases n - i,
            {
                let tag = &m.metadata.tags[i];
                plan.push(
                    StoreCommand::SetRemove { key: self.keys.tag_key(tag.as_str()), member: String::from_str(id) },
                );
                i = i + 1;
            }
            if let Some(c) = &m.metadata.chain_id {
                plan.push(
                    StoreCommand::ListRemove { key: self.keys.chain_key(c.as_str()), member: String::from_str(id) },
                );
            }
        }
        plan.push(StoreCommand::Delete { key: self.keys.thought_key(id) });
        plan.push(StoreCommand::Delete { key: self.keys.metadata_key(id) });
        assert(plan_view(plan@) =~= expected);
        plan
    }

    /// The write that caches a scan's results, serialized as `payload`, under
    /// `cache_key` for an hour; nothing when the scan found nothing.
    pub fn cache_fill_plan(&self, cache_key: &str, results: &Vec<Memory>, payload: &str) -> (r: Vec<StoreCommand>)
        ensures
            plan_view(r@) == cache_fill_plan_of(cache_key@, results@.len(), payload@),
    {
        let mut plan: Vec<StoreCommand> = Vec::new();
        if results.len() > 0 {
            plan.push(
                StoreCommand::Put {
                    key: String::from_str(cache_key),
                    value: String::from_str(payload),
                    ttl_seconds: Some(RESULT_CACHE_TTL_SECONDS),
                },
            );
        }
        assert(plan_view(plan@) =~= cache_fill_plan_of(cache_key@, results@.len(), payload@));
        plan
    }
}

} // verus!
