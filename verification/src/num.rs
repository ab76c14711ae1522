//! Decimal parsing of environment-variable text, with the exact acceptance
//! rules of `str::parse` for unsigned integers: an optional leading `+`,
//! then one or more ASCII digits, and the value must fit the target type.

use vstd::prelude::*;

verus! {

/// True of the ten ASCII digit characters.
pub open spec fn is_digit_char(c: char) -> bool {
    '0' <= c && c <= '9'
}

/// The numeric value of one digit character.
pub open spec fn digit_value(c: char) -> int {
    c as int - '0' as int
}

pub open spec fn all_digits(s: Seq<char>) -> bool {
    forall|i: int| 0 <= i < s.len() ==> is_digit_char(#[trigger] s[i])
}

/// The integer denoted by a run of digits, most significant first.
pub open spec fn digits_value(s: Seq<char>) -> int
    decreases s.len(),
{
    if s.len() == 0 {
        0
    } else {
        digits_value(s.drop_last()) * 10 + digit_value(s.last())
    }
}

/// The digit run of a decimal string as `str::parse` reads it for unsigned
/// integers: a single leading `+` is allowed and skipped.
pub open spec fn unsigned_digits(s: Seq<char>) -> Seq<char> {
    if s.len() > 0 && s[0] == '+' {
        s.subrange(1, s.len() as int)
    } else {
        s
    }
}

/// The unbounded value of a decimal string, when it is well-formed.
pub open spec fn dec_value(s: Seq<char>) -> Option<int> {
    let d = unsigned_digits(s);
    if d.len() > 0 && all_digits(d) {
        Some(digits_value(d))
    } else {
        None
    }
}

/// What `str::parse::<u64>` accepts and returns.
pub open spec fn spec_parse_u64(s: Seq<char>) -> Option<u64> {
    match dec_value(s) {
        None => None,
        Some(v) => if v <= u64::MAX { Some(v as u64) } else { None },
    }
}

/// What `str::parse::<usize>` accepts and returns.
pub open spec fn spec_parse_usize(s: Seq<char>) -> Option<usize> {
    match spec_parse_u64(s) {
        None => None,
        Some(v) => if v <= usize::MAX { Some(v as usize) } else { None },
    }
}

pub proof fn lemma_digits_value_nonneg(s: Seq<char>)
    requires
        all_digits(s),
    ensures
        digits_value(s) >= 0,
    decreases s.len(),
{
    if s.len() > 0 {
        let p = s.drop_last();
        assert forall|j: int| 0 <= j < p.len() implies is_digit_char(#[trigger] p[j]) by {
            assert(p[j] == s[j]);
        }
        lemma_digits_value_nonneg(p);
        assert(is_digit_char(s[s.len() - 1]));
    }
}

/// A run of digits is worth at least any of its prefixes.
pub proof fn lemma_digits_value_prefix_le(s: Seq<char>, i: int)
    requires
        all_digits(s),
        0 <= i <= s.len(),
    ensures
        digits_value(s.subrange(0, i)) <= digits_value(s),
    decreases s.len() - i,
{
    if i == s.len() {
        assert(s.subrange(0, i) =~= s);
    } else {
        let p = s.subrange(0, i);
        let p1 = s.subrange(0, i + 1);
        assert(p1.drop_last() =~= p);
        assert(p1.last() == s[i]);
        assert forall|j: int| 0 <= j < p.len() implies is_digit_char(#[trigger] p[j]) by {
            assert(p[j] == s[j]);
        }
        lemma_digits_value_nonneg(p);
        assert(is_digit_char(s[i]));
        assert(digits_value(p1) == digits_value(p) * 10 + digit_value(s[i]));
        lemma_digits_value_prefix_le(s, i + 1);
    }
}

/// Parses an unsigned decimal integer exactly as `str::parse::<u64>` does.
pub fn parse_u64(s: &str) -> (r: Option<u64>)
    ensures
        r == spec_parse_u64(s@),
{
    let n = s.unicode_len();
    let start: usize = if n > 0 && s.get_char(0) == '+' {
        1
    } else {
        0
    };
    let ghost d = unsigned_digits(s@);
    proof {
        assert(d =~= s@.subrange(start as int, n as int));
    }
    if start >= n {
        proof {
            assert(d.len() == 0);
        }
        return None;
    }
    let mut value: u64 = 0;
    let mut i: usize = start;
    while i < n
        invariant
            start <= i <= n,
            n == s@.len(),
            start == 0 || start == 1,
            d == unsigned_digits(s@),
            d == s@.subrange(start as int, n as int),
            d.len() == n - start,
            all_digits(d.subrange(0, i - start)),
            value == digits_value(d.subrange(0, i - start)),
        decreases n - i,
    {
        let c = s.get_char(i);
        let cv = c as u32;
        let ghost pfx = d.subrange(0, i - start);
        proof {
            assert(d[i - start] == s@[i as int]);
        }
        if cv < 48 || cv > 57 {
            proof {
                assert(!is_digit_char(d[i - start]));
                assert(!all_digits(d));
            }
            return None;
        }
        let dv: u64 = (cv - 48) as u64;
        let ghost pfx1 = d.subrange(0, i - start + 1);
        proof {
            assert(is_digit_char(d[i - start]));
            assert(digit_value(d[i - start]) == dv);
            assert(pfx1.drop_last() =~= pfx);
            assert(pfx1.last() == d[i - start]);
            assert(digits_value(pfx1) == digits_value(pfx) * 10 + dv);
        }
        // u64::MAX / 10; the value overflows exactly when it exceeds this
        // cap, or meets it with a final digit above u64::MAX % 10.
        let cap: u64 = 1844674407370955161;
        if value > cap || (value == cap && dv > 5) {
            proof {
                assert(digits_value(pfx1) > u64::MAX);
                if all_digits(d) {
                    lemma_digits_value_prefix_le(d, i - start + 1);
                    assert(digits_value(d) > u64::MAX);
                }
            }
            return None;
        }
        value = value * 10 + dv;
        i += 1;
        proof {
            assert(d.subrange(0, i - start) =~= pfx1);
            assert forall|j: int| 0 <= j < pfx1.len() implies is_digit_char(#[trigger] pfx1[j]) by {
                if j < pfx.len() {
                    assert(pfx1[j] == pfx[j]);
                } else {
                    assert(pfx1[j] == d[i - 1 - start]);
                }
            }
        }
    }
    proof {
        assert(d.subrange(0, i - start) =~= d);
        assert(dec_value(s@) == Some(digits_value(d)));
    }
    Some(value)
}

/// Parses an unsigned decimal integer exactly as `str::parse::<usize>` does.
pub fn parse_usize(s: &str) -> (r: Option<usize>)
    ensures
        r == spec_parse_usize(s@),
{
    match parse_u64(s) {
        None => None,
        Some(v) => {
            if v <= usize::MAX as u64 {
                Some(v as usize)
            } else {
                None
            }
        },
    }
}

} // verus!
