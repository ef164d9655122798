use vstd::prelude::*;
use crate::keys::{cache_key_of, md5_hex_of, query_cache_key, KeySpace};
use crate::models::{opt_strings_view, opt_view, SearchRequest};

verus! {

pub open spec fn digit_of(d: nat) -> char {
    "0123456789abcdef"@[d as int]
}

/// `k` hexadecimal digits of `n`, least significant first.
pub open spec fn hex_fixed(n: nat, k: nat) -> Seq<char>
    decreases k,
{
    if k == 0 {
        Seq::empty()
    } else {
        seq![digit_of(n % 16)] + hex_fixed(n / 16, (k - 1) as nat)
    }
}

/// A number as sixteen hexadecimal digits.
pub open spec fn num_text(n: nat) -> Seq<char> {
    hex_fixed(n, 16)
}

/// A string preceded by its length, so that a sequence of them reads back unambiguously.
pub open spec fn str_text(s: Seq<char>) -> Seq<char> {
    num_text(s.len()) + s
}

pub open spec fn opt_num_text(o: Option<nat>) -> Seq<char> {
    match o {
        Some(n) => "+"@ + num_text(n),
        None => "-"@,
    }
}

pub open spec fn opt_str_text(o: Option<Seq<char>>) -> Seq<char> {
    match o {
        Some(s) => "+"@ + str_text(s),
        None => "-"@,
    }
}

pub open spec fn strs_text(v: Seq<Seq<char>>) -> Seq<char>
    decreases v.len(),
{
    if v.len() == 0 {
        Seq::empty()
    } else {
        strs_text(v.drop_last()) + str_text(v.last())
    }
}

pub open spec fn opt_strs_text(o: Option<Seq<Seq<char>>>) -> Seq<char> {
    match o {
        Some(v) => "+"@ + num_text(v.len()) + strs_text(v),
        None => "-"@,
    }
}

/// Every field of a request, filters included, written out one after another.
pub open spec fn request_text_of(r: SearchRequest) -> Seq<char> {
    str_text(r.query@) + opt_num_text(
        match r.limit {
            Some(n) => Some(n as nat),
            None => None,
        },
    ) + opt_num_text(
        match r.threshold {
            Some(n) => Some(n as nat),
            None => None,
        },
    ) + opt_str_text(opt_view(r.category_filter)) + opt_strs_text(opt_strings_view(r.tags_filter))
        + opt_strs_text(opt_strings_view(r.instance_filter)) + if r.hybrid_mode {
        "1"@
    } else {
        "0"@
    }
}

/// Two requests agree in every field.
pub open spec fn same_request(a: SearchRequest, b: SearchRequest) -> bool {
    &&& a.query@ == b.query@
    &&& a.limit == b.limit
    &&& a.threshold == b.threshold
    &&& opt_view(a.category_filter) == opt_view(b.category_filter)
    &&& opt_strings_view(a.tags_filter) == opt_strings_view(b.tags_filter)
    &&& opt_strings_view(a.instance_filter) == opt_strings_view(b.instance_filter)
    &&& a.hybrid_mode == b.hybrid_mode
}

/// The key under which the results of a request's scan are cached.
pub open spec fn result_cache_key_of(r: SearchRequest) -> Seq<char> {
    cache_key_of(md5_hex_of(request_text_of(r)))
}

fn push_num(s: &mut String, n: u64)
    ensures
        final(s)@ == old(s)@ + num_text(n as nat),
{
    let digits = "0123456789abcdef";
    proof {
        reveal_strlit("0123456789abcdef");
    }
    let ghost start = s@;
    let mut cur: u64 = n;
    let mut k: usize = 16;
    while k > 0
        invariant
            digits@ == "0123456789abcdef"@,
            digits@.len() == 16,
            k <= 16,
            s@ + hex_fixed(cur as nat, k as nat) == start + hex_fixed(n as nat, 16),
        decreases k,
    {
        let d = (cur % 16) as usize;
        let piece = digits.substring_char(d, d + 1);
        assert(piece@ =~= seq![digit_of(cur as nat % 16)]);
        let ghost before = s@;
        s.append(piece);
        assert(hex_fixed(cur as nat, k as nat) == seq![digit_of(cur as nat % 16)] + hex_fixed(
            (cur / 16) as nat,
            (k - 1) as nat,
        ));
        assert(s@ + hex_fixed((cur / 16) as nat, (k - 1) as nat) =~= before + hex_fixed(cur as nat, k as nat));
        cur = cur / 16;
        k = k - 1;
    }
    assert(s@ =~= s@ + hex_fixed(cur as nat, 0));
}

fn push_str(s: &mut String, t: &String)
    ensures
        final(s)@ == old(s)@ + str_text(t@),
{
    push_num(s, t.unicode_len() as u64);
    s.append(t.as_str());
    assert(old(s)@ + num_text(t@.len()) + t@ =~= old(s)@ + str_text(t@));
}

fn push_opt_str(s: &mut String, o: &Option<String>)
    ensures
        final(s)@ == old(s)@ + opt_str_text(opt_view(*o)),
{
    match o {
        Some(t) => {
            s.append("+");
            push_str(s, t);
            assert(old(s)@ + "+"@ + str_text(t@) =~= old(s)@ + opt_str_text(opt_view(*o)));
        },
        None => {
            s.append("-");
        },
    }
}

fn push_opt_num(s: &mut String, o: Option<u64>)
    ensures
        final(s)@ == old(s)@ + opt_num_text(
            match o {
                Some(n) => Some(n as nat),
                None => None,
            },
        ),
{
    match o {
        Some(n) => {
            s.append("+");
            push_num(s, n);
            assert(old(s)@ + "+"@ + num_text(n as nat) =~= old(s)@ + opt_num_text(Some(n as nat)));
        },
        None => {
            s.append("-");
        },
    }
}

fn push_opt_strs(s: &mut String, o: &Option<Vec<String>>)
    ensures
        final(s)@ == old(s)@ + opt_strs_text(opt_strings_view(*o)),
{
    match o {
        Some(v) => {
            s.append("+");
            push_num(s, v.len() as u64);
            let ghost base = s@;
            let ghost views = crate::models::strings_view(v@);
            let mut i: usize = 0;
            while i < v.len()
                invariant
                    i <= v@.len(),
                    views == crate::models::strings_view(v@),
                    s@ == base + strs_text(views.take(i as int)),
                decreases v.len() - i,
            {
                push_str(s, &v[i]);
                assert(views.take(i + 1).drop_last() =~= views.take(i as int));
                i = i + 1;
            }
            assert(views.take(v@.len() as int) =~= views);
            assert(old(s)@ + "+"@ + num_text(v@.len() as nat) + strs_text(views) =~= old(s)@ + opt_strs_text(
                opt_strings_view(*o),
            ));
        },
        None => {
            s.append("-");
        },
    }
}

/// Every field of a request, written out as text; equal requests give equal text.
pub fn request_text(r: &SearchRequest) -> (t: String)
    ensures
        t@ == request_text_of(*r),
{
    let mut s = String::new();
    push_str(&mut s, &r.query);
    push_opt_num(
        &mut s,
        match r.limit {
            Some(n) => Some(n as u64),
            None => None,
        },
    );
    push_opt_num(
        &mut s,
        match r.threshold {
            Some(n) => Some(n as u64),
            None => None,
        },
    );
    push_opt_str(&mut s, &r.category_filter);
    push_opt_strs(&mut s, &r.tags_filter);
    push_opt_strs(&mut s, &r.instance_filter);
    if r.hybrid_mode {
        s.append("1");
    } else {
        s.append("0");
    }
    assert(s@ =~= request_text_of(*r));
    s
}

/// The key under which the results of a request's scan are cached: the MD5
/// digest of every field of the request.
pub fn result_cache_key(keys: &KeySpace, r: &SearchRequest) -> (k: String)
    ensures
        k@ == result_cache_key_of(*r),
{
    let text = request_text(r);
    query_cache_key(keys, text.as_str())
}

} // verus!
