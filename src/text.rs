use vstd::prelude::*;

verus! {

pub open spec fn is_digit(c: char) -> bool {
    '0' <= c && c <= '9'
}

pub open spec fn digit_value(c: char) -> nat {
    ((c as u32) - ('0' as u32)) as nat
}

/// The value of a string of decimal digits.
pub open spec fn digits_value(s: Seq<char>) -> nat
    decreases s.len(),
{
    if s.len() == 0 {
        0
    } else {
        digits_value(s.drop_last()) * 10 + digit_value(s.last())
    }
}

pub open spec fn all_digits(s: Seq<char>) -> bool {
    forall|i: int| 0 <= i < s.len() ==> is_digit(#[trigger] s[i])
}

/// The number an unsigned integer literal denotes: an optional `+`, then at least one digit.
pub open spec fn decimal_of(s: Seq<char>) -> Option<nat> {
    let t = if s.len() > 0 && s[0] == '+' { s.drop_first() } else { s };
    if t.len() > 0 && all_digits(t) {
        Some(digits_value(t))
    } else {
        None
    }
}

/// The value of `s` as an integer that fits under `max`.
pub open spec fn bounded_decimal_of(s: Seq<char>, max: nat) -> Option<nat> {
    match decimal_of(s) {
        Some(v) => if v <= max {
            Some(v)
        } else {
            None
        },
        None => None,
    }
}

proof fn lemma_digits_value_grows(s: Seq<char>, j: int)
    requires
        0 <= j <= s.len(),
    ensures
        digits_value(s.take(j)) <= digits_value(s),
    decreases s.len() - j,
{
    if j < s.len() {
        lemma_digits_value_grows(s, j + 1);
        assert(s.take(j + 1).drop_last() =~= s.take(j));
    } else {
        assert(s.take(j) =~= s);
    }
}

/// Reads an unsigned decimal integer, as `u64`'s `FromStr` does.
pub fn parse_u64(s: &str) -> (r: Option<u64>)
    ensures
        r matches Some(v) ==> bounded_decimal_of(s@, u64::MAX as nat) == Some(v as nat),
        r is None ==> bounded_decimal_of(s@, u64::MAX as nat) is None,
{
    let n = s.unicode_len();
    let mut start: usize = 0;
    if n > 0 && s.get_char(0) == '+' {
        start = 1;
    }
    let ghost t = if s@.len() > 0 && s@[0] == '+' { s@.drop_first() } else { s@ };
    assert(t =~= s@.subrange(start as int, n as int));
    assert(decimal_of(s@) == if t.len() > 0 && all_digits(t) {
        Some(digits_value(t))
    } else {
        None
    });
    if start == n {
        return None;
    }
    let mut v: u64 = 0;
    let mut i: usize = start;
    while i < n
        invariant
            start <= i <= n,
            n == s@.len(),
            t == s@.subrange(start as int, n as int),
            decimal_of(s@) == if t.len() > 0 && all_digits(t) {
                Some(digits_value(t))
            } else {
                None
            },
            all_digits(t.take(i - start)),
            v as nat == digits_value(t.take(i - start)),
        decreases n - i,
    {
        let c = s.get_char(i);
        assert(t[i - start] == c);
        if !('0' <= c && c <= '9') {
            assert(!all_digits(t));
            assert(decimal_of(s@) is None);
            return None;
        }
        let d = (c as u32 - '0' as u32) as u64;
        let ghost k = i + 1 - start;
        assert(t.take(k).drop_last() =~= t.take(i - start));
        assert(t.take(k).last() == c);
        assert(digits_value(t.take(k)) == digits_value(t.take(k).drop_last()) * 10 + digit_value(c));
        assert(digits_value(t.take(k)) == v as nat * 10 + d as nat);
        match v.checked_mul(10) {
            Some(m) => match m.checked_add(d) {
                Some(w) => {
                    v = w;
                },
                None => {
                    proof {
                        lemma_digits_value_grows(t, k);
                        if all_digits(t) {
                            assert(decimal_of(s@) == Some(digits_value(t)));
                        }
                    }
                    return None;
                },
            },
            None => {
                proof {
                    lemma_digits_value_grows(t, i + 1 - start);
                }
                return None;
            },
        }
        i = i + 1;
    }
    assert(t.take(n - start) =~= t);
    Some(v)
}

/// Reads an unsigned decimal integer that fits in 16 bits, as `u16`'s `FromStr` does.
pub fn parse_u16(s: &str) -> (r: Option<u16>)
    ensures
        r matches Some(v) ==> bounded_decimal_of(s@, u16::MAX as nat) == Some(v as nat),
        r is None ==> bounded_decimal_of(s@, u16::MAX as nat) is None,
{
    match parse_u64(s) {
        Some(v) => if v <= 65535 {
            Some(v as u16)
        } else {
            None
        },
        None => None,
    }
}

} // verus!
