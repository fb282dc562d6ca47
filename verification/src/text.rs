//! Verified text building: decimal rendering and list joining.
//!
//! Report summaries and probe details are assembled from these pieces, so
//! their contracts can state the exact character sequence produced.

use vstd::prelude::*;

verus! {

/// The single decimal digit character for `d` (`d < 10`).
pub open spec fn dec_digit_str(d: nat) -> Seq<char> {
    if d == 0 {
        "0"@
    } else if d == 1 {
        "1"@
    } else if d == 2 {
        "2"@
    } else if d == 3 {
        "3"@
    } else if d == 4 {
        "4"@
    } else if d == 5 {
        "5"@
    } else if d == 6 {
        "6"@
    } else if d == 7 {
        "7"@
    } else if d == 8 {
        "8"@
    } else {
        "9"@
    }
}

/// The decimal rendering of `n`, most significant digit first, no sign,
/// no leading zeros (`0` itself renders as `"0"`).
pub open spec fn dec_chars(n: nat) -> Seq<char>
    decreases n,
{
    if n < 10 {
        dec_digit_str(n)
    } else {
        dec_chars(n / 10) + dec_digit_str(n % 10)
    }
}

fn digit_to_str(d: u64) -> (r: &'static str)
    requires
        d < 10,
    ensures
        r@ == dec_digit_str(d as nat),
{
    match d {
        0 => "0",
        1 => "1",
        2 => "2",
        3 => "3",
        4 => "4",
        5 => "5",
        6 => "6",
        7 => "7",
        8 => "8",
        _ => "9",
    }
}

/// Renders `n` in decimal, matching [`dec_chars`].
pub fn u64_to_string(n: u64) -> (r: String)
    ensures
        r@ == dec_chars(n as nat),
    decreases n,
{
    if n < 10 {
        String::from_str(digit_to_str(n))
    } else {
        let mut s = u64_to_string(n / 10);
        s.append(digit_to_str(n % 10));
        s
    }
}

/// Renders `n` in decimal, matching [`dec_chars`], for values wider
/// than a machine word.
pub fn u128_to_string(n: u128) -> (r: String)
    ensures
        r@ == dec_chars(n as nat),
    decreases n,
{
    if n < 10 {
        String::from_str(digit_to_str(n as u64))
    } else {
        let mut s = u128_to_string(n / 10);
        s.append(digit_to_str((n % 10) as u64));
        s
    }
}

/// A part of a whole in tenths of a percent, rounded half-up; zero
/// without a whole to measure against.
pub open spec fn mem_pct_tenths(used: int, total: int) -> int {
    if total == 0 {
        0
    } else {
        (used * 1000 + total / 2) / total
    }
}

/// A non-negative count of tenths rendered with one decimal place, the
/// way a one-decimal display shows it (417 renders as `41.7`).
pub open spec fn tenths_chars(t: int) -> Seq<char> {
    dec_chars((t / 10) as nat) + "."@ + dec_digit_str((t % 10) as nat)
}

/// Renders tenths with one decimal place, matching [`tenths_chars`].
pub fn tenths_to_string(t: u128) -> (r: String)
    ensures
        r@ == tenths_chars(t as int),
{
    let mut s = u128_to_string(t / 10);
    s.append(".");
    s.append(digit_to_str((t % 10) as u64));
    s
}

/// The decimal rendering of a signed value: a minus sign for negatives.
pub open spec fn dec_chars_i64(n: int) -> Seq<char> {
    if n >= 0 {
        dec_chars(n as nat)
    } else {
        "-"@ + dec_chars((-n) as nat)
    }
}

/// Renders `n` in signed decimal, matching [`dec_chars_i64`].
pub fn i64_to_string(n: i64) -> (r: String)
    ensures
        r@ == dec_chars_i64(n as int),
{
    if n >= 0 {
        u64_to_string(n as u64)
    } else {
        let magnitude: u64 = if n == i64::MIN {
            9223372036854775808u64
        } else {
            (-n) as u64
        };
        let mut s = String::from_str("-");
        s.append(u64_to_string(magnitude).as_str());
        s
    }
}

/// `parts` joined with `sep` between consecutive parts.
pub open spec fn join_chars(parts: Seq<Seq<char>>, sep: Seq<char>) -> Seq<char>
    decreases parts.len(),
{
    if parts.len() == 0 {
        Seq::empty()
    } else if parts.len() == 1 {
        parts[0]
    } else {
        join_chars(parts.drop_last(), sep) + sep + parts.last()
    }
}

/// Joins `parts` with `sep`, matching [`join_chars`].
pub fn join_with(parts: &Vec<String>, sep: &str) -> (r: String)
    ensures
        r@ == join_chars(parts@.map_values(|p: String| p@), sep@),
{
    let ghost views = parts@.map_values(|p: String| p@);
    let mut r = String::new();
    let mut i: usize = 0;
    while i < parts.len()
        invariant
            i <= parts.len(),
            views == parts@.map_values(|p: String| p@),
            r@ == join_chars(views.take(i as int), sep@),
        decreases parts.len() - i,
    {
        if i > 0 {
            r.append(sep);
        }
        r.append(parts[i].as_str());
        proof {
            assert(views.take(i + 1 as int).drop_last() =~= views.take(i as int));
            assert(views.take(i + 1 as int).last() == views[i as int]);
            if i == 0 {
                assert(r@ =~= join_chars(views.take(i + 1 as int), sep@));
            }
        }
        i = i + 1;
    }
    proof {
        assert(views.take(parts@.len() as int) =~= views);
    }
    r
}

} // verus!
