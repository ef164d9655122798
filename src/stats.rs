use vstd::prelude::*;
use crate::text::{bounded_decimal_of, parse_u64};

verus! {

/// Figures about the cache store. The rate and latency fields are bit patterns
/// of f32 values; they are not tracked and stay zero (the pattern of `0.0`).
#[derive(Clone, Copy, Debug)]
pub struct CacheStats {
    pub total_keys: u64,
    pub memory_usage_bytes: u64,
    pub hit_rate: u32,
    pub miss_rate: u32,
    pub avg_retrieval_time_ms: u32,
}

/// Whether a line starts at position `p`.
pub open spec fn line_start(s: Seq<char>, p: int) -> bool {
    p == 0 || s[p - 1] == '\n'
}

pub open spec fn used_memory_label() -> Seq<char> {
    "used_memory:"@
}

/// Whether a line that starts with `used_memory:` starts at `p`.
pub open spec fn has_label_at(s: Seq<char>, p: int) -> bool {
    &&& 0 <= p
    &&& p + 12 <= s.len()
    &&& line_start(s, p)
    &&& s.subrange(p, p + 12) == used_memory_label()
}

/// The first position at or after `q` that holds a colon or a newline, or the end.
pub open spec fn field_end(s: Seq<char>, q: int) -> int
    decreases s.len() - q,
{
    if q < 0 || q >= s.len() || s[q] == ':' || s[q] == '\n' {
        q
    } else {
        field_end(s, q + 1)
    }
}

/// The colon-separated field that starts at `q`, without the carriage return
/// of a line that ends in `\r\n`.
pub open spec fn field_at(s: Seq<char>, q: int) -> Seq<char> {
    let e = field_end(s, q);
    if e < s.len() && s[e] == '\n' && e > q && s[e - 1] == '\r' {
        s.subrange(q, e - 1)
    } else {
        s.subrange(q, e)
    }
}

/// The byte count reported on the first `used_memory:` line of a memory report;
/// zero when there is no such line or its value is not a `u64`.
pub open spec fn used_memory_of(s: Seq<char>) -> u64 {
    if exists|p: int| has_label_at(s, p) {
        let p = choose|p: int| has_label_at(s, p) && forall|q: int| 0 <= q < p ==> !has_label_at(s, q);
        match bounded_decimal_of(field_at(s, p + 12), u64::MAX as nat) {
            Some(v) => v as u64,
            None => 0,
        }
    } else {
        0
    }
}

fn label_at(s: &str, n: usize, p: usize) -> (b: bool)
    requires
        n == s@.len(),
        p + 12 <= n,
    ensures
        b == (s@.subrange(p as int, p + 12) == used_memory_label()),
{
    let label = "used_memory:";
    proof {
        reveal_strlit("used_memory:");
    }
    let mut i: usize = 0;
    while i < 12
        invariant
            label@ == used_memory_label(),
            label@.len() == 12,
            p + 12 <= n,
            n == s@.len(),
            i <= 12,
            forall|j: int| 0 <= j < i ==> s@[p + j] == label@[j],
        decreases 12 - i,
    {
        if s.get_char(p + i) != label.get_char(i) {
            assert(s@.subrange(p as int, p + 12)[i as int] != label@[i as int]);
            return false;
        }
        i = i + 1;
    }
    assert(s@.subrange(p as int, p + 12) =~= label@);
    true
}

/// Reads the used-memory figure out of the store's memory report.
pub fn used_memory(info: &str) -> (r: u64)
    ensures
        r == used_memory_of(info@),
{
    let ghost s = info@;
    let n = info.unicode_len();
    let mut p: usize = 0;
    while p < n
        invariant
            n == s.len(),
            s == info@,
            p <= n,
            forall|q: int| 0 <= q < p ==> !has_label_at(s, q),
        decreases n - p,
    {
        let starts_line = p == 0 || info.get_char(p - 1) == '\n';
        if starts_line && n >= 12 && p <= n - 12 && label_at(info, n, p) {
            assert(has_label_at(s, p as int));
            let q = p + 12;
            let mut e: usize = q;
            while e < n && info.get_char(e) != ':' && info.get_char(e) != '\n'
                invariant
                    n == s.len(),
                    s == info@,
                    q <= e <= n,
                    field_end(s, e as int) == field_end(s, q as int),
                decreases n - e,
            {
                e = e + 1;
            }
            assert(field_end(s, e as int) == e);
            let end = if e < n && info.get_char(e) == '\n' && e > q && info.get_char(e - 1) == '\r' {
                e - 1
            } else {
                e
            };
            let field = info.substring_char(q, end);
            assert(field@ == field_at(s, q as int));
            let ghost chosen = choose|x: int| has_label_at(s, x) && forall|y: int| 0 <= y < x ==> !has_label_at(s, y);
            assert(chosen == p) by {
                if chosen < p {
                } else if chosen > p {
                }
            }
            return match parse_u64(field) {
                Some(v) => v,
                None => 0,
            };
        }
        assert(!has_label_at(s, p as int));
        p = p + 1;
    }
    0
}

/// Adds one page of enumerated record keys to a running count; saturates at `u64::MAX`.
pub fn add_page(total: u64, page_len: usize) -> (r: u64)
    ensures
        r as int == if total as int + page_len as int > u64::MAX as int {
            u64::MAX as int
        } else {
            total as int + page_len as int
        },
{
    total.saturating_add(page_len as u64)
}

impl CacheStats {
    /// The figures of a finished scan that counted `total_keys` records, and of the
    /// store's memory report `info`.
    pub fn from_scan(total_keys: u64, info: &str) -> (r: CacheStats)
        ensures
            r.total_keys == total_keys,
            r.memory_usage_bytes == used_memory_of(info@),
            r.hit_rate == 0,
            r.miss_rate == 0,
            r.avg_retrieval_time_ms == 0,
    {
        CacheStats {
            total_keys,
            memory_usage_bytes: used_memory(info),
            hit_rate: 0,
            miss_rate: 0,
            avg_retrieval_time_ms: 0,
        }
    }
}

} // verus!
