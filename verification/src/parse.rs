//! Verified decimal parsing for fields scraped out of command output.

use vstd::prelude::*;

use crate::split::{
    drop_through, lemma_drop_through_no_char, lemma_field_range, lemma_take_until_prefix,
    take_until,
};

verus! {

/// `c` is a decimal digit.
pub open spec fn is_digit(c: char) -> bool {
    48 <= c as u32 && c as u32 <= 57
}

/// The value of the digit `c`.
pub open spec fn digit_val(c: char) -> int {
    (c as u32) as int - 48
}

/// Every character of `s` is a decimal digit.
pub open spec fn all_digits(s: Seq<char>) -> bool {
    forall|i: int| 0 <= i < s.len() ==> is_digit(s[i])
}

/// The value of the digit string `s`, most significant digit first.
pub open spec fn dec_value(s: Seq<char>) -> int
    decreases s.len(),
{
    if s.len() == 0 {
        0
    } else {
        dec_value(s.drop_last()) * 10 + digit_val(s.last())
    }
}

proof fn lemma_dec_value_nonneg(s: Seq<char>)
    requires
        all_digits(s),
    ensures
        dec_value(s) >= 0,
    decreases s.len(),
{
    if s.len() > 0 {
        assert(all_digits(s.drop_last()));
        lemma_dec_value_nonneg(s.drop_last());
    }
}

proof fn lemma_dec_value_prefix(s: Seq<char>, i: int)
    requires
        all_digits(s),
        0 <= i <= s.len(),
    ensures
        dec_value(s.take(i)) <= dec_value(s),
    decreases s.len() - i,
{
    if i == s.len() {
        assert(s.take(i) =~= s);
    } else {
        assert(s.take(i + 1).drop_last() =~= s.take(i));
        assert(s.take(i + 1).last() == s[i]);
        assert(all_digits(s.take(i)));
        lemma_dec_value_nonneg(s.take(i));
        lemma_dec_value_prefix(s, i + 1);
    }
}

/// With at least one digit beyond position `i`, the value is at least
/// ten times the value of the first `i` digits.
proof fn lemma_dec_value_grows(s: Seq<char>, i: int)
    requires
        all_digits(s),
        0 <= i < s.len(),
    ensures
        dec_value(s) >= dec_value(s.take(i)) * 10,
    decreases s.len() - i,
{
    assert(s.take(i + 1).drop_last() =~= s.take(i));
    assert(s.take(i + 1).last() == s[i]);
    if i + 1 == s.len() {
        assert(s.take(i + 1) =~= s);
    } else {
        lemma_dec_value_grows(s, i + 1);
        assert(s.take(i + 1).take(i) =~= s.take(i));
        assert(all_digits(s.take(i + 1)));
        lemma_dec_value_prefix(s.take(i + 1), i);
    }
}

/// What `s` parses to as a 32-bit unsigned decimal: defined exactly when
/// `s` is an optional `+` followed by one or more digits whose value
/// fits.
pub open spec fn spec_parse_u32(s: Seq<char>) -> Option<u32> {
    let b = if s.len() > 0 && s[0] == '+' {
        s.drop_first()
    } else {
        s
    };
    if b.len() > 0 && all_digits(b) && dec_value(b) <= u32::MAX {
        Some(dec_value(b) as u32)
    } else {
        None
    }
}

/// Parses a 32-bit unsigned decimal, matching [`spec_parse_u32`].
#[verifier::rlimit(60)]
pub fn parse_u32(s: &str) -> (r: Option<u32>)
    ensures
        r == spec_parse_u32(s@),
{
    let n = s.unicode_len();
    let start: usize = if n > 0 && s.get_char(0) == '+' {
        1
    } else {
        0
    };
    let ghost b = if s@.len() > 0 && s@[0] == '+' {
        s@.drop_first()
    } else {
        s@
    };
    proof {
        assert(b =~= s@.skip(start as int));
    }
    if start == n {
        return None;
    }
    let mut acc: u32 = 0;
    let mut i = start;
    while i < n
        invariant
            n == s@.len(),
            start <= i <= n,
            b == (if s@.len() > 0 && s@[0] == '+' {
                s@.drop_first()
            } else {
                s@
            }),
            b =~= s@.skip(start as int),
            b.len() == n - start,
            all_digits(b.take(i - start)),
            acc as int == dec_value(b.take(i - start)),
        decreases n - i,
    {
        let c = s.get_char(i);
        let cv = c as u32;
        proof {
            assert(b[i - start] == s@[i as int]);
        }
        if cv < 48 || cv > 57 {
            proof {
                assert(!is_digit(b[i - start]));
                assert(!all_digits(b));
            }
            return None;
        }
        let d = cv - 48;
        if acc > (u32::MAX - d) / 10 {
            proof {
                if all_digits(b) {
                    let j = i - start as int;
                    assert(b.take(j + 1).drop_last() =~= b.take(j));
                    assert(b.take(j + 1).last() == b[j]);
                    vstd::arithmetic::div_mod::lemma_fundamental_div_mod(
                        (u32::MAX - d) as int,
                        10,
                    );
                    assert(acc as int * 10 + d as int > u32::MAX);
                    assert(digit_val(b[j]) == d);
                    assert(dec_value(b.take(j + 1)) == acc as int * 10 + d as int);
                    lemma_dec_value_prefix(b, j + 1);
                    assert(dec_value(b) > u32::MAX);
                }
            }
            return None;
        }
        proof {
            let j = i - start as int;
            assert(b.take(j + 1).drop_last() =~= b.take(j));
            assert(b.take(j + 1).last() == b[j]);
            vstd::arithmetic::div_mod::lemma_fundamental_div_mod((u32::MAX - d) as int, 10);
        }
        acc = acc * 10 + d;
        i = i + 1;
    }
    proof {
        assert(b.take(n - start) =~= b);
    }
    Some(acc)
}

/// [`spec_parse_u32`] with failure collapsed to zero, the way scraped
/// metrics default when a field is absent or malformed.
pub open spec fn spec_parse_u32_or_zero(s: Seq<char>) -> int {
    match spec_parse_u32(s) {
        Some(v) => v as int,
        None => 0,
    }
}

/// Parses a decimal, zero on failure, matching [`spec_parse_u32_or_zero`].
pub fn parse_u32_or_zero(s: &str) -> (r: u32)
    ensures
        r as int == spec_parse_u32_or_zero(s@),
{
    match parse_u32(s) {
        Some(v) => v,
        None => 0,
    }
}

/// The largest integer part the fixed-point reading accepts.
pub open spec fn tenths_int_limit() -> int {
    999999999999999999
}

/// `s` is a plain non-negative decimal with at most one point and at
/// least one digit, and its integer part is small enough to scale.
pub open spec fn spec_tenths_valid(s: Seq<char>) -> bool {
    let ip = take_until(s, '.');
    let fp = drop_through(s, '.');
    &&& s.len() > 0
    &&& ip.len() + fp.len() > 0
    &&& all_digits(ip)
    &&& all_digits(fp)
    &&& dec_value(ip) <= tenths_int_limit()
}

/// The value of `s` in tenths of a unit, rounded half-up on the second
/// fractional digit — the fixed-point reading of a one-decimal display.
pub open spec fn spec_tenths_value(s: Seq<char>) -> int {
    let ip = take_until(s, '.');
    let fp = drop_through(s, '.');
    dec_value(ip) * 10 + (if fp.len() > 0 {
        digit_val(fp[0])
    } else {
        0
    }) + (if fp.len() > 1 && digit_val(fp[1]) >= 5 {
        1int
    } else {
        0int
    })
}

/// [`spec_tenths_value`] where [`spec_tenths_valid`], zero otherwise.
pub open spec fn spec_parse_tenths_or_zero(s: Seq<char>) -> int {
    if spec_tenths_valid(s) {
        spec_tenths_value(s)
    } else {
        0
    }
}

/// After scanning the integer part to position `i`, ties the scanned
/// range to the field functions at the point.
proof fn lemma_point_split(s: Seq<char>, i: int)
    requires
        0 <= i <= s.len(),
        forall|k: int| 0 <= k < i ==> s[k] != '.',
        i == s.len() || s[i] == '.',
    ensures
        take_until(s, '.') =~= s.subrange(0, i),
        i < s.len() ==> drop_through(s, '.') =~= s.skip(i + 1),
        i == s.len() ==> drop_through(s, '.') =~= Seq::<char>::empty(),
{
    assert(s.skip(0) =~= s);
    lemma_field_range(s, '.', 0, i);
    if i == s.len() {
        lemma_drop_through_no_char(s, '.');
    }
}

/// A scanned digit prefix already over the limit makes the whole string
/// invalid: the integer part can only extend it.
proof fn lemma_int_part_overflow(s: Seq<char>, i: int)
    requires
        0 <= i < s.len(),
        forall|k: int| 0 <= k <= i ==> s[k] != '.',
        all_digits(s.subrange(0, i)),
        dec_value(s.subrange(0, i)) > 99999999999999999,
    ensures
        !spec_tenths_valid(s),
{
    let ip = take_until(s, '.');
    if all_digits(ip) {
        lemma_take_until_prefix(s, '.', i + 1);
        assert(ip.take(i) =~= s.subrange(0, i));
        lemma_dec_value_grows(ip, i);
    }
}

/// Reads a non-negative decimal like `41.73` as tenths (here 417, the
/// one-decimal display value 41.7), zero when malformed, matching
/// [`spec_parse_tenths_or_zero`].
pub fn parse_tenths_or_zero(s: &str) -> (r: u64)
    ensures
        r as int == spec_parse_tenths_or_zero(s@),
{
    let n = s.unicode_len();
    if n == 0 {
        return 0;
    }
    let ghost ip = take_until(s@, '.');
    let ghost fp = drop_through(s@, '.');
    // Integer part: digits up to the point or the end.
    let mut acc: u64 = 0;
    let mut i: usize = 0;
    while i < n && s.get_char(i) != '.'
        invariant
            n == s@.len(),
            i <= n,
            forall|k: int| 0 <= k < i ==> s@[k] != '.',
            all_digits(s@.subrange(0, i as int)),
            acc as int == dec_value(s@.subrange(0, i as int)),
            acc <= 999999999999999999,
        decreases n - i,
    {
        let c = s.get_char(i);
        let cv = c as u32;
        if cv < 48 || cv > 57 {
            proof {
                lemma_take_until_prefix(s@, '.', i + 1);
                assert(!is_digit(take_until(s@, '.')[i as int]));
            }
            return 0;
        }
        if acc > 99999999999999999 {
            proof {
                lemma_int_part_overflow(s@, i as int);
            }
            return 0;
        }
        proof {
            assert(s@.subrange(0, i + 1 as int).drop_last() =~= s@.subrange(0, i as int));
            assert(s@.subrange(0, i + 1 as int).last() == s@[i as int]);
        }
        acc = acc * 10 + ((cv - 48) as u64);
        i = i + 1;
    }
    proof {
        lemma_point_split(s@, i as int);
    }
    if i == n {
        // No point: the whole string is the integer part.
        return acc * 10;
    }
    // s[i] is the point; the fraction runs from i + 1.
    if i == 0 && i + 1 == n {
        // A bare point has no digits at all.
        return 0;
    }
    let mut k = i + 1;
    while k < n
        invariant
            n == s@.len(),
            i < k <= n,
            i + 1 <= n,
            fp == drop_through(s@, '.'),
            fp =~= s@.skip(i + 1 as int),
            forall|j: int| i + 1 <= j < k ==> is_digit(s@[j]),
        decreases n - k,
    {
        let cv = s.get_char(k) as u32;
        if cv < 48 || cv > 57 {
            proof {
                assert(fp[k - (i + 1) as int] == s@[k as int]);
                assert(!is_digit(fp[k - (i + 1) as int]));
                assert(!all_digits(fp));
            }
            return 0;
        }
        k = k + 1;
    }
    proof {
        assert(all_digits(fp)) by {
            assert(forall|j: int| 0 <= j < fp.len() ==> fp[j] == s@[i + 1 + j]);
        }
    }
    let d1: u64 = if n - i > 1 {
        ((s.get_char(i + 1) as u32) - 48) as u64
    } else {
        0
    };
    let carry: u64 = if n - i > 2 && (s.get_char(i + 2) as u32) >= 53 {
        1
    } else {
        0
    };
    acc * 10 + d1 + carry
}

} // verus!
