use vstd::prelude::*;
use vstd::arithmetic::power::pow;

verus! {

/// `a@ + b@` as a new string.
pub fn concat2(a: &str, b: &str) -> (r: String)
    ensures
        r@ == a@ + b@,
{
    let mut s = String::from_str(a);
    s.append(b);
    s
}

/// `a@ + b@ + c@` as a new string.
pub fn concat3(a: &str, b: &str, c: &str) -> (r: String)
    ensures
        r@ == a@ + b@ + c@,
{
    let mut s = String::from_str(a);
    s.append(b);
    s.append(c);
    s
}

/// The part of `s` after `p`, when `s` starts with `p`.
pub open spec fn after_prefix(s: Seq<char>, p: Seq<char>) -> Option<Seq<char>> {
    if p.len() <= s.len() && s.subrange(0, p.len() as int) == p {
        Some(s.subrange(p.len() as int, s.len() as int))
    } else {
        None
    }
}

/// Removes the prefix `p` from `s`, or returns `None` when `s` does not start with it.
pub fn strip_prefix(s: &str, p: &str) -> (r: Option<String>)
    ensures
        opt_seq(r) == after_prefix(s@, p@),
{
    let n = s.unicode_len();
    let m = p.unicode_len();
    if m > n {
        return None;
    }
    let mut i: usize = 0;
    while i < m
        invariant
            m == p@.len(),
            n == s@.len(),
            m <= n,
            i <= m,
            forall|j: int| 0 <= j < i ==> s@[j] == p@[j],
        decreases m - i,
    {
        if s.get_char(i) != p.get_char(i) {
            assert(s@.subrange(0, m as int)[i as int] != p@[i as int]);
            return None;
        }
        i = i + 1;
    }
    assert(s@.subrange(0, m as int) =~= p@);
    let rest = s.substring_char(m, n);
    Some(String::from_str(rest))
}

pub open spec fn opt_seq(o: Option<String>) -> Option<Seq<char>> {
    match o {
        Some(s) => Some(s@),
        None => None,
    }
}

/// Lower-case hexadecimal MD5 digest of the UTF-8 text of `s`.
pub uninterp spec fn md5_hex_of(s: Seq<char>) -> Seq<char>;

/// Relies on `md5::compute` and the digest's `LowerHex` format: two lower-case
/// hex digits for each of the 16 digest bytes, determined by the input text alone.
#[verifier::external_body]
fn md5_hex(s: &str) -> (r: String)
    ensures
        r@ == md5_hex_of(s@),
        r@.len() == 32,
{
    format!("{:x}", md5::compute(s))
}

pub open spec fn hex_digit(d: int) -> char {
    seq!['0', '1', '2', '3', '4', '5', '6', '7', '8', '9', 'a', 'b', 'c', 'd', 'e', 'f'][d]
}

/// The `j`-th hex digit of `id`, counting from the most significant.
pub open spec fn nibble(id: u128, j: int) -> int {
    (id as int / pow(16, (31 - j) as nat)) % 16
}

pub open spec fn hyphens_before(p: int) -> int {
    (if p > 8 { 1int } else { 0 }) + (if p > 13 { 1int } else { 0 }) + (if p > 18 { 1int } else { 0 }) + (
    if p > 23 { 1int } else { 0 })
}

/// The hyphenated lower-case text of a UUID: 8-4-4-4-12 hex digits, most significant first.
pub open spec fn uuid_text(id: u128) -> Seq<char> {
    Seq::new(
        36,
        |p: int|
            if p == 8 || p == 13 || p == 18 || p == 23 {
                '-'
            } else {
                hex_digit(nibble(id, p - hyphens_before(p)))
            },
    )
}

/// Relies on `uuid::Uuid::from_u128` (big-endian bytes) and the `Display` of
/// `Uuid`, which writes the hyphenated lower-case form.
#[verifier::external_body]
pub(crate) fn id_text(id: u128) -> (r: String)
    ensures
        r@ == uuid_text(id),
{
    uuid::Uuid::from_u128(id).to_string()
}

/// The text under which a memory is keyed in both stores: its id as a hyphenated UUID.
pub fn record_id(m: &crate::models::Memory) -> (r: String)
    ensures
        r@ == uuid_text(m.id),
{
    id_text(m.id)
}

pub open spec fn thought_key_of(prefix: Seq<char>, id: Seq<char>) -> Seq<char> {
    prefix + ":Thoughts:"@ + id
}

pub open spec fn metadata_key_of(prefix: Seq<char>, id: Seq<char>) -> Seq<char> {
    prefix + ":thought_meta:"@ + id
}

pub open spec fn tag_key_of(prefix: Seq<char>, tag: Seq<char>) -> Seq<char> {
    prefix + ":tags:"@ + tag
}

pub open spec fn chain_key_of(prefix: Seq<char>, chain: Seq<char>) -> Seq<char> {
    prefix + ":chains:"@ + chain
}

pub open spec fn cache_key_of(hash: Seq<char>) -> Seq<char> {
    "um:cache:"@ + hash
}

pub open spec fn embedding_key_of(content: Seq<char>) -> Seq<char> {
    "um:embedding:"@ + md5_hex_of(content)
}

/// The naming scheme of the cache store, scoped by an instance identifier.
pub struct KeySpace {
    pub prefix: String,
}

impl KeySpace {
    pub fn new(instance_id: &str) -> (r: KeySpace)
        ensures
            r.prefix@ == instance_id@,
    {
        KeySpace { prefix: String::from_str(instance_id) }
    }

    /// `<instance>:Thoughts:<id>`: the serialized record.
    pub fn thought_key(&self, id: &str) -> (r: String)
        ensures
            r@ == thought_key_of(self.prefix@, id@),
    {
        concat3(self.prefix.as_str(), ":Thoughts:", id)
    }

    /// `<instance>:thought_meta:<id>`: the access metadata hash.
    pub fn metadata_key(&self, id: &str) -> (r: String)
        ensures
            r@ == metadata_key_of(self.prefix@, id@),
    {
        concat3(self.prefix.as_str(), ":thought_meta:", id)
    }

    /// `<instance>:tags:<tag>`: the set of ids carrying the tag.
    pub fn tag_key(&self, tag: &str) -> (r: String)
        ensures
            r@ == tag_key_of(self.prefix@, tag@),
    {
        concat3(self.prefix.as_str(), ":tags:", tag)
    }

    /// `<instance>:chains:<chain>`: the ids of the chain in append order.
    pub fn chain_key(&self, chain_id: &str) -> (r: String)
        ensures
            r@ == chain_key_of(self.prefix@, chain_id@),
    {
        concat3(self.prefix.as_str(), ":chains:", chain_id)
    }

    /// `um:cache:<query_hash>`: a cached result list, shared by all instances.
    pub fn cache_key(&self, query_hash: &str) -> (r: String)
        ensures
            r@ == cache_key_of(query_hash@),
    {
        concat2("um:cache:", query_hash)
    }

    /// `um:embedding:<md5 of content>`: reserved for embedding memoization.
    pub fn embedding_key(&self, content: &str) -> (r: String)
        ensures
            r@ == embedding_key_of(content@),
    {
        let hash = md5_hex(content);
        concat2("um:embedding:", hash.as_str())
    }

    /// The pattern that enumerates every record key of the instance.
    pub fn thought_pattern(&self) -> (r: String)
        ensures
            r@ == self.prefix@ + ":Thoughts:*"@,
    {
        concat2(self.prefix.as_str(), ":Thoughts:*")
    }

    /// The record id named by an enumerated key, when the key is a record key of this instance.
    pub fn thought_id_of(&self, key: &str) -> (r: Option<String>)
        ensures
            opt_seq(r) == after_prefix(key@, self.prefix@ + ":Thoughts:"@),
    {
        let p = concat2(self.prefix.as_str(), ":Thoughts:");
        strip_prefix(key, p.as_str())
    }
}

/// Cache key of a query text: `um:cache:` followed by the MD5 digest of the text.
pub fn query_cache_key(keys: &KeySpace, text: &str) -> (r: String)
    ensures
        r@ == cache_key_of(md5_hex_of(text@)),
{
    let h = md5_hex(text);
    keys.cache_key(h.as_str())
}

} // verus!
