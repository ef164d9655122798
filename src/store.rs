use vstd::prelude::*;
use crate::models::{strings_view, Timestamp};

verus! {

/// A value of an access-metadata hash field.
#[derive(Clone, Debug)]
pub enum FieldValue {
    Text(String),
    Int(i64),
    Time(Timestamp),
    List(Vec<String>),
    Null,
}

pub ghost enum FieldView {
    Text(Seq<char>),
    Int(int),
    Time(Timestamp),
    List(Seq<Seq<char>>),
    Null,
}

impl View for FieldValue {
    type V = FieldView;

    open spec fn view(&self) -> FieldView {
        match self {
            FieldValue::Text(s) => FieldView::Text(s@),
            FieldValue::Int(n) => FieldView::Int(*n as int),
            FieldValue::Time(t) => FieldView::Time(*t),
            FieldValue::List(v) => FieldView::List(strings_view(v@)),
            FieldValue::Null => FieldView::Null,
        }
    }
}

/// One named field of a hash.
#[derive(Clone, Debug)]
pub struct HashField {
    pub name: String,
    pub value: FieldValue,
}

/// One write against the cache store. A plan is a list of them, run in order;
/// each command succeeds or fails on its own.
#[derive(Clone, Debug)]
pub enum StoreCommand {
    /// Write a string value, with an expiry in seconds if one is given.
    Put { key: String, value: String, ttl_seconds: Option<u64> },
    /// Replace a hash by exactly these fields.
    WriteHash { key: String, fields: Vec<HashField> },
    /// Add to an integer field of a hash.
    HashIncrement { key: String, field: String, by: i64 },
    /// Write one field of a hash.
    HashSetField { key: String, field: String, value: FieldValue },
    /// Add a member to a set.
    SetAdd { key: String, member: String },
    /// Remove a member from a set.
    SetRemove { key: String, member: String },
    /// Append to the end of a list.
    ListPush { key: String, member: String },
    /// Remove every occurrence of a member from a list.
    ListRemove { key: String, member: String },
    /// Remove a key, whatever it holds.
    Delete { key: String },
}

pub ghost enum CommandView {
    Put { key: Seq<char>, value: Seq<char>, ttl_seconds: Option<u64> },
    WriteHash { key: Seq<char>, fields: Seq<(Seq<char>, FieldView)> },
    HashIncrement { key: Seq<char>, field: Seq<char>, by: int },
    HashSetField { key: Seq<char>, field: Seq<char>, value: FieldView },
    SetAdd { key: Seq<char>, member: Seq<char> },
    SetRemove { key: Seq<char>, member: Seq<char> },
    ListPush { key: Seq<char>, member: Seq<char> },
    ListRemove { key: Seq<char>, member: Seq<char> },
    Delete { key: Seq<char> },
}

pub open spec fn fields_view(v: Seq<HashField>) -> Seq<(Seq<char>, FieldView)> {
    v.map_values(|f: HashField| (f.name@, f.value@))
}

impl View for StoreCommand {
    type V = CommandView;

    open spec fn view(&self) -> CommandView {
        match self {
            StoreCommand::Put { key, value, ttl_seconds } => CommandView::Put {
                key: key@,
                value: value@,
                ttl_seconds: *ttl_seconds,
            },
            StoreCommand::WriteHash { key, fields } => CommandView::WriteHash {
                key: key@,
                fields: fields_view(fields@),
            },
            StoreCommand::HashIncrement { key, field, by } => CommandView::HashIncrement {
                key: key@,
                field: field@,
                by: *by as int,
            },
            StoreCommand::HashSetField { key, field, value } => CommandView::HashSetField {
                key: key@,
                field: field@,
                value: value@,
            },
            StoreCommand::SetAdd { key, member } => CommandView::SetAdd { key: key@, member: member@ },
            StoreCommand::SetRemove { key, member } => CommandView::SetRemove {
                key: key@,
                member: member@,
            },
            StoreCommand::ListPush { key, member } => CommandView::ListPush {
                key: key@,
                member: member@,
            },
            StoreCommand::ListRemove { key, member } => CommandView::ListRemove {
                key: key@,
                member: member@,
            },
            StoreCommand::Delete { key } => CommandView::Delete { key: key@ },
        }
    }
}

pub open spec fn plan_view(v: Seq<StoreCommand>) -> Seq<CommandView> {
    v.map_values(|c: StoreCommand| c@)
}

/// The contents of the cache store, by kind of value. Expiry is not modelled:
/// the model describes the store before any key has expired or been evicted.
pub ghost struct StoreState {
    pub strings: Map<Seq<char>, Seq<char>>,
    pub hashes: Map<Seq<char>, Map<Seq<char>, FieldView>>,
    pub sets: Map<Seq<char>, Set<Seq<char>>>,
    pub lists: Map<Seq<char>, Seq<Seq<char>>>,
}

/// A hash holding exactly the given fields; a later field wins over an earlier one of the same name.
pub open spec fn hash_of(fields: Seq<(Seq<char>, FieldView)>) -> Map<Seq<char>, FieldView>
    decreases fields.len(),
{
    if fields.len() == 0 {
        Map::empty()
    } else {
        hash_of(fields.drop_last()).insert(fields.last().0, fields.last().1)
    }
}

pub open spec fn set_at(s: StoreState, key: Seq<char>) -> Set<Seq<char>> {
    if s.sets.contains_key(key) { s.sets[key] } else { Set::empty() }
}

pub open spec fn list_at(s: StoreState, key: Seq<char>) -> Seq<Seq<char>> {
    if s.lists.contains_key(key) { s.lists[key] } else { Seq::empty() }
}

pub open spec fn hash_at(s: StoreState, key: Seq<char>) -> Map<Seq<char>, FieldView> {
    if s.hashes.contains_key(key) { s.hashes[key] } else { Map::empty() }
}

/// The list with every occurrence of `m` removed.
pub open spec fn without(l: Seq<Seq<char>>, m: Seq<char>) -> Seq<Seq<char>> {
    l.filter(|x: Seq<char>| x != m)
}

/// What one command does to the store.
pub open spec fn apply(s: StoreState, c: CommandView) -> StoreState {
    match c {
        CommandView::Put { key, value, .. } => StoreState { strings: s.strings.insert(key, value), ..s },
        CommandView::WriteHash { key, fields } => StoreState {
            hashes: s.hashes.insert(key, hash_of(fields)),
            ..s
        },
        CommandView::HashIncrement { key, field, by } => {
            let h = hash_at(s, key);
            if !h.contains_key(field) {
                StoreState { hashes: s.hashes.insert(key, h.insert(field, FieldView::Int(by))), ..s }
            } else {
                match h[field] {
                    FieldView::Int(n) => StoreState {
                        hashes: s.hashes.insert(key, h.insert(field, FieldView::Int(n + by))),
                        ..s
                    },
                    _ => s,
                }
            }
        },
        CommandView::HashSetField { key, field, value } => StoreState {
            hashes: s.hashes.insert(key, hash_at(s, key).insert(field, value)),
            ..s
        },
        CommandView::SetAdd { key, member } => StoreState {
            sets: s.sets.insert(key, set_at(s, key).insert(member)),
            ..s
        },
        CommandView::SetRemove { key, member } => StoreState {
            sets: s.sets.insert(key, set_at(s, key).remove(member)),
            ..s
        },
        CommandView::ListPush { key, member } => StoreState {
            lists: s.lists.insert(key, list_at(s, key).push(member)),
            ..s
        },
        CommandView::ListRemove { key, member } => StoreState {
            lists: s.lists.insert(key, without(list_at(s, key), member)),
            ..s
        },
        CommandView::Delete { key } => StoreState {
            strings: s.strings.remove(key),
            hashes: s.hashes.remove(key),
            sets: s.sets.remove(key),
            lists: s.lists.remove(key),
        },
    }
}

/// What a plan does to the store when every command in it succeeds.
pub open spec fn apply_all(s: StoreState, cs: Seq<CommandView>) -> StoreState
    decreases cs.len(),
{
    if cs.len() == 0 {
        s
    } else {
        apply(apply_all(s, cs.drop_last()), cs.last())
    }
}

/// Running two plans one after the other is running their concatenation.
pub proof fn lemma_apply_all_append(s: StoreState, a: Seq<CommandView>, b: Seq<CommandView>)
    ensures
        apply_all(s, a + b) == apply_all(apply_all(s, a), b),
    decreases b.len(),
{
    if b.len() == 0 {
        assert(a + b =~= a);
    } else {
        lemma_apply_all_append(s, a, b.drop_last());
        assert((a + b).drop_last() =~= a + b.drop_last());
    }
}

} // verus!
