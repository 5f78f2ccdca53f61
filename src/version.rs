use vstd::prelude::*;
use crate::chars::chars_of;

verus! {

/// Oldest producer version the server accepts (`year.month.counter`).
pub const MIN_CLIENT_VERSION: &'static str = "26.01.0";

/// The pieces of `s` between the `.` characters, from left to right.
pub open spec fn split_dots(s: Seq<char>) -> Seq<Seq<char>>
    decreases s.len(),
{
    if s.len() == 0 {
        seq![Seq::<char>::empty()]
    } else {
        let r = split_dots(s.drop_last());
        if s.last() == '.' {
            r.push(Seq::<char>::empty())
        } else {
            r.update(r.len() - 1, r.last().push(s.last()))
        }
    }
}

pub open spec fn is_digit(c: char) -> bool {
    '0' <= c && c <= '9'
}

pub open spec fn all_digits(s: Seq<char>) -> bool {
    forall|i: int| 0 <= i < s.len() ==> is_digit(#[trigger] s[i])
}

/// The number written by the decimal digits `s`.
pub open spec fn digits_value(s: Seq<char>) -> nat
    decreases s.len(),
{
    if s.len() == 0 {
        0
    } else {
        digits_value(s.drop_last()) * 10 + (s.last() as nat - '0' as nat) as nat
    }
}

/// What parsing `s` as a `u64` gives: an optional `+`, then one or more
/// decimal digits whose value fits in 64 bits.
pub open spec fn parse_u64_spec(s: Seq<char>) -> Option<u64> {
    let d = if s.len() > 0 && s[0] == '+' { s.drop_first() } else { s };
    if d.len() > 0 && all_digits(d) && digits_value(d) <= u64::MAX {
        Some(digits_value(d) as u64)
    } else {
        None
    }
}

/// The comparable number of a version `yy.mm.counter`:
/// `yy * 1_000_000 + mm * 10_000 + counter`, when the text has exactly three
/// numeric pieces and the number fits in 64 bits.
pub open spec fn version_key(v: Seq<char>) -> Option<u64> {
    let p = split_dots(v);
    if p.len() == 3 && parse_u64_spec(p[0]) is Some && parse_u64_spec(p[1]) is Some
        && parse_u64_spec(p[2]) is Some {
        let k = parse_u64_spec(p[0])->0 * 1_000_000nat + parse_u64_spec(p[1])->0 * 10_000nat
            + parse_u64_spec(p[2])->0;
        if k <= u64::MAX {
            Some(k as u64)
        } else {
            None
        }
    } else {
        None
    }
}

/// Whether a producer reporting version `v` may register: it may unless
/// both `v` and the minimum parse and `v` is below the minimum.
pub open spec fn version_supported(v: Seq<char>, min: Seq<char>) -> bool {
    match (version_key(min), version_key(v)) {
        (Some(m), Some(c)) => c >= m,
        _ => true,
    }
}

proof fn lemma_split_nonempty(s: Seq<char>)
    ensures
        split_dots(s).len() >= 1,
    decreases s.len(),
{
    if s.len() > 0 {
        lemma_split_nonempty(s.drop_last());
    }
}

proof fn lemma_digits_prefix_le(s: Seq<char>, k: int)
    requires
        0 <= k <= s.len(),
    ensures
        digits_value(s.subrange(0, k)) <= digits_value(s),
    decreases s.len() - k,
{
    if k < s.len() {
        lemma_digits_prefix_le(s, k + 1);
        let t = s.subrange(0, k + 1);
        assert(t.drop_last() == s.subrange(0, k));
    } else {
        assert(s.subrange(0, k) == s);
    }
}

/// Parses the digits `s[start..]` as a `u64`, as `parse_u64_spec` does for
/// the text after an optional `+`.
fn parse_digits(s: &Vec<char>, start: usize) -> (r: Option<u64>)
    requires
        start <= s@.len(),
    ensures
        ({
            let d = s@.subrange(start as int, s@.len() as int);
            r == if d.len() > 0 && all_digits(d) && digits_value(d) <= u64::MAX {
                Some(digits_value(d) as u64)
            } else {
                None
            }
        }),
{
    let ghost d = s@.subrange(start as int, s@.len() as int);
    if start == s.len() {
        return None;
    }
    let mut v: u64 = 0;
    let mut i: usize = start;
    while i < s.len()
        invariant
            start <= i <= s@.len(),
            d == s@.subrange(start as int, s@.len() as int),
            all_digits(s@.subrange(start as int, i as int)),
            v as nat == digits_value(s@.subrange(start as int, i as int)),
        decreases s@.len() - i,
    {
        let c = s[i];
        let ghost pre = s@.subrange(start as int, i as int);
        let ghost next = s@.subrange(start as int, i + 1);
        assert(next.drop_last() == pre);
        assert(next == d.subrange(0, i + 1 - start));
        if !('0' <= c && c <= '9') {
            assert(d[i - start] == c);
            return None;
        }
        let digit = (c as u32 - '0' as u32) as u64;
        if v > (u64::MAX - digit) / 10 {
            proof {
                assert(v * 10 + digit > u64::MAX) by (nonlinear_arith)
                    requires v > (u64::MAX - digit) / 10, digit <= 9;
                lemma_digits_prefix_le(d, i + 1 - start);
            }
            return None;
        }
        assert(v * 10 + digit <= u64::MAX) by (nonlinear_arith)
            requires v <= (u64::MAX - digit) / 10, digit <= 9;
        v = v * 10 + digit;
        assert(all_digits(next)) by {
            assert forall|j: int| 0 <= j < next.len() implies is_digit(#[trigger] next[j]) by {
                if j < pre.len() {
                    assert(next[j] == pre[j]);
                }
            }
        }
        i = i + 1;
    }
    Some(v)
}

/// Parses `s` as `u64::from_str` does: an optional `+`, then decimal digits
/// whose value fits in 64 bits.
fn parse_u64(s: &Vec<char>) -> (r: Option<u64>)
    ensures
        r == parse_u64_spec(s@),
{
    if s.len() > 0 && s[0] == '+' {
        assert(s@.drop_first() == s@.subrange(1, s@.len() as int));
        parse_digits(s, 1)
    } else {
        assert(s@ == s@.subrange(0, s@.len() as int));
        parse_digits(s, 0)
    }
}

/// Splits `s` at each `.`.
fn split_on_dots(s: &Vec<char>) -> (r: Vec<Vec<char>>)
    ensures
        r@.len() == split_dots(s@).len(),
        forall|j: int| 0 <= j < r@.len() ==> #[trigger] r@[j]@ == split_dots(s@)[j],
{
    let mut parts: Vec<Vec<char>> = Vec::new();
    let mut cur: Vec<char> = Vec::new();
    let mut i: usize = 0;
    while i < s.len()
        invariant
            0 <= i <= s@.len(),
            parts@.len() + 1 == split_dots(s@.subrange(0, i as int)).len(),
            forall|j: int| 0 <= j < parts@.len() ==> #[trigger] parts@[j]@ == split_dots(
                s@.subrange(0, i as int),
            )[j],
            cur@ == split_dots(s@.subrange(0, i as int)).last(),
        decreases s@.len() - i,
    {
        let c = s[i];
        let ghost pre = s@.subrange(0, i as int);
        let ghost next = s@.subrange(0, i + 1);
        proof {
            assert(next.drop_last() == pre);
            assert(next.last() == c);
            lemma_split_nonempty(pre);
        }
        if c == '.' {
            parts.push(cur);
            cur = Vec::new();
        } else {
            cur.push(c);
        }
        i = i + 1;
    }
    assert(s@.subrange(0, s@.len() as int) == s@);
    parts.push(cur);
    parts
}

/// The comparable number of version text `v`, if it is one.
pub fn parse_version(v: &str) -> (r: Option<u64>)
    ensures
        r == version_key(v@),
{
    let cs = chars_of(v);
    let parts = split_on_dots(&cs);
    if parts.len() != 3 {
        return None;
    }
    let yy = parse_u64(&parts[0]);
    let mm = parse_u64(&parts[1]);
    let commit = parse_u64(&parts[2]);
    match (yy, mm, commit) {
        (Some(y), Some(m), Some(c)) => {
            if y > u64::MAX / 1_000_000 {
                assert(y * 1_000_000 > u64::MAX) by (nonlinear_arith)
                    requires y > u64::MAX / 1_000_000;
                return None;
            }
            assert(y * 1_000_000 <= u64::MAX) by (nonlinear_arith)
                requires y <= u64::MAX / 1_000_000;
            let a: u64 = y * 1_000_000;
            if m > (u64::MAX - a) / 10_000 {
                assert(a + m * 10_000 > u64::MAX) by (nonlinear_arith)
                    requires m > (u64::MAX - a) / 10_000, a <= u64::MAX;
                return None;
            }
            assert(a + m * 10_000 <= u64::MAX) by (nonlinear_arith)
                requires m <= (u64::MAX - a) / 10_000, a <= u64::MAX;
            let b: u64 = a + m * 10_000;
            if c > u64::MAX - b {
                return None;
            }
            Some(b + c)
        },
        _ => None,
    }
}

/// Whether a producer reporting version `client_version` may register.
/// Versions that do not parse are let through.
pub fn is_version_supported(client_version: &str) -> (r: bool)
    ensures
        r == version_supported(client_version@, MIN_CLIENT_VERSION@),
{
    let min = parse_version(MIN_CLIENT_VERSION);
    let client = parse_version(client_version);
    match (min, client) {
        (Some(m), Some(c)) => c >= m,
        _ => true,
    }
}

} // verus!
