//! Verified text scanning: trimming, splitting on a separator, lines,
//! and whitespace-separated words.
//!
//! Command output (version banners, `df` tables, CSV rows from GPU
//! tooling) is picked apart with these, so the verdicts built on them
//! carry exact contracts.

use vstd::prelude::*;

verus! {

/// ASCII whitespace, the forms that the probed command output contains.
pub open spec fn is_space(c: char) -> bool {
    c == ' ' || c == '\t' || c == '\n' || c == '\r'
}

/// Executable [`is_space`].
pub fn is_space_char(c: char) -> (r: bool)
    ensures
        r == is_space(c),
{
    c == ' ' || c == '\t' || c == '\n' || c == '\r'
}

/// `c` occurs in `s`.
pub open spec fn has_char(s: Seq<char>, c: char) -> bool {
    exists|i: int| 0 <= i < s.len() && s[i] == c
}

/// The longest prefix of `s` before the first `c` (all of `s` if `c`
/// does not occur).
pub open spec fn take_until(s: Seq<char>, c: char) -> Seq<char>
    decreases s.len(),
{
    if s.len() == 0 || s[0] == c {
        Seq::empty()
    } else {
        seq![s[0]] + take_until(s.drop_first(), c)
    }
}

/// What follows the first `c` in `s` (empty if `c` does not occur).
pub open spec fn drop_through(s: Seq<char>, c: char) -> Seq<char>
    decreases s.len(),
{
    if s.len() == 0 {
        s
    } else if s[0] == c {
        s.drop_first()
    } else {
        drop_through(s.drop_first(), c)
    }
}

proof fn lemma_drop_through_len(s: Seq<char>, c: char)
    requires
        has_char(s, c),
    ensures
        drop_through(s, c).len() < s.len(),
    decreases s.len(),
{
    if s[0] != c {
        let i = choose|i: int| 0 <= i < s.len() && s[i] == c;
        assert(s.drop_first()[i - 1] == c);
        lemma_drop_through_len(s.drop_first(), c);
    }
}

/// The fields of `s` separated by `c`: one more field than separators,
/// so an empty `s` is one empty field.
pub open spec fn split_chars(s: Seq<char>, c: char) -> Seq<Seq<char>>
    decreases s.len(),
    via split_chars_decreases
{
    if has_char(s, c) {
        seq![take_until(s, c)] + split_chars(drop_through(s, c), c)
    } else {
        seq![s]
    }
}

#[via_fn]
proof fn split_chars_decreases(s: Seq<char>, c: char) {
    if has_char(s, c) {
        lemma_drop_through_len(s, c);
    }
}

/// A prefix of `s` free of `c` is a prefix of `take_until(s, c)`.
pub proof fn lemma_take_until_prefix(s: Seq<char>, c: char, i: int)
    requires
        0 <= i <= s.len(),
        forall|k: int| 0 <= k < i ==> s[k] != c,
    ensures
        take_until(s, c).len() >= i,
        forall|k: int| 0 <= k < i ==> take_until(s, c)[k] == s[k],
    decreases i,
{
    if i > 0 {
        let t = s.drop_first();
        assert(forall|k: int| 0 <= k < i - 1 ==> t[k] == s[k + 1]);
        lemma_take_until_prefix(t, c, i - 1);
        assert(take_until(s, c) == seq![s[0]] + take_until(t, c));
        assert forall|k: int| 0 <= k < i implies take_until(s, c)[k] == s[k] by {
            if k > 0 {
                assert((seq![s[0]] + take_until(t, c))[k] == take_until(t, c)[k - 1]);
                assert(take_until(t, c)[k - 1] == t[k - 1]);
            } else {
                assert((seq![s[0]] + take_until(t, c))[0] == s[0]);
            }
        }
    }
}

/// Without `c` anywhere in `s`, nothing follows it.
pub proof fn lemma_drop_through_no_char(s: Seq<char>, c: char)
    requires
        !has_char(s, c),
    ensures
        drop_through(s, c) =~= Seq::<char>::empty(),
    decreases s.len(),
{
    if s.len() > 0 {
        let t = s.drop_first();
        assert(!has_char(t, c)) by {
            assert(forall|k: int| 0 <= k < t.len() ==> t[k] == s[k + 1]);
        }
        lemma_drop_through_no_char(t, c);
    }
}

/// Relates one separator-free stretch `[i, j)` of `s` to the recursive
/// field functions on the suffix `s.skip(i)`.
pub proof fn lemma_field_range(s: Seq<char>, c: char, i: int, j: int)
    requires
        0 <= i <= j <= s.len(),
        forall|k: int| i <= k < j ==> s[k] != c,
        j == s.len() || s[j] == c,
    ensures
        take_until(s.skip(i), c) =~= s.subrange(i, j),
        j < s.len() ==> drop_through(s.skip(i), c) =~= s.skip(j + 1),
        j == s.len() ==> !has_char(s.skip(i), c),
    decreases j - i,
{
    if i == j {
        if j == s.len() {
            assert forall|k: int| 0 <= k < s.skip(i).len() implies s.skip(i)[k] != c by {
                assert(s.skip(i)[k] == s[i + k]);
            }
        } else {
            assert(s.skip(i)[0] == c);
            assert(s.skip(i).drop_first() =~= s.skip(j + 1));
        }
    } else {
        assert(s.skip(i)[0] == s[i]);
        assert(s.skip(i).drop_first() =~= s.skip(i + 1));
        lemma_field_range(s, c, i + 1, j);
        if j == s.len() {
            assert forall|k: int| 0 <= k < s.skip(i).len() implies s.skip(i)[k] != c by {
                assert(s.skip(i)[k] == s[i + k]);
            }
        }
    }
}

/// Splits `s` at every `sep`, matching [`split_chars`].
pub fn split_str(s: &str, sep: char) -> (r: Vec<String>)
    ensures
        r@.map_values(|p: String| p@) == split_chars(s@, sep),
{
    let n = s.unicode_len();
    let mut out: Vec<String> = Vec::new();
    let mut field_start: usize = 0;
    let mut i: usize = 0;
    proof {
        assert(s@.skip(0) =~= s@);
        assert(out@.map_values(|p: String| p@) + split_chars(s@, sep) =~= split_chars(s@, sep));
    }
    while i < n
        invariant
            n == s@.len(),
            field_start <= i <= n,
            forall|k: int| field_start <= k < i ==> s@[k] != sep,
            split_chars(s@, sep) =~= out@.map_values(|p: String| p@) + split_chars(
                s@.skip(field_start as int),
                sep,
            ),
        decreases n - i,
    {
        if s.get_char(i) == sep {
            let piece = String::from_str(s.substring_char(field_start, i));
            proof {
                lemma_field_range(s@, sep, field_start as int, i as int);
                assert(has_char(s@.skip(field_start as int), sep)) by {
                    assert(s@.skip(field_start as int)[i - field_start] == sep);
                }
                assert(out@.push(piece).map_values(|p: String| p@) =~= out@.map_values(
                    |p: String| p@,
                ).push(piece@));
            }
            out.push(piece);
            field_start = i + 1;
        }
        i = i + 1;
    }
    let last = String::from_str(s.substring_char(field_start, n));
    proof {
        lemma_field_range(s@, sep, field_start as int, n as int);
        assert(out@.push(last).map_values(|p: String| p@) =~= out@.map_values(|p: String| p@).push(
            last@,
        ));
    }
    out.push(last);
    proof {
        assert(out@.map_values(|p: String| p@) =~= split_chars(s@, sep));
    }
    out
}

/// `s` without leading or trailing ASCII whitespace.
pub open spec fn trim_chars(s: Seq<char>) -> Seq<char>
    decreases s.len(),
{
    if s.len() == 0 {
        s
    } else if is_space(s[0]) {
        trim_chars(s.drop_first())
    } else if is_space(s.last()) {
        trim_chars(s.drop_last())
    } else {
        s
    }
}

/// Trims ASCII whitespace from both ends, matching [`trim_chars`].
pub fn trim_spaces<'a>(s: &'a str) -> (r: &'a str)
    ensures
        r@ == trim_chars(s@),
{
    let n = s.unicode_len();
    let mut a: usize = 0;
    let mut b: usize = n;
    proof {
        assert(s@.subrange(0, n as int) =~= s@);
    }
    while a < b && is_space_char(s.get_char(a))
        invariant
            n == s@.len(),
            a <= b <= n,
            trim_chars(s@) == trim_chars(s@.subrange(a as int, b as int)),
        decreases b - a,
    {
        proof {
            assert(s@.subrange(a as int, b as int).drop_first() =~= s@.subrange(
                a + 1 as int,
                b as int,
            ));
        }
        a = a + 1;
    }
    while b > a && is_space_char(s.get_char(b - 1))
        invariant
            n == s@.len(),
            a <= b <= n,
            trim_chars(s@) == trim_chars(s@.subrange(a as int, b as int)),
            a < b ==> !is_space(s@[a as int]),
        decreases b,
    {
        proof {
            assert(s@.subrange(a as int, b as int).drop_last() =~= s@.subrange(
                a as int,
                b - 1 as int,
            ));
        }
        b = b - 1;
    }
    s.substring_char(a, b)
}

/// One line without its trailing carriage return.
pub open spec fn strip_cr(l: Seq<char>) -> Seq<char> {
    if l.len() > 0 && l.last() == '\r' {
        l.drop_last()
    } else {
        l
    }
}

/// The lines of `s`: newline-separated fields, each without a trailing
/// carriage return, a trailing empty field dropped (so text ending in a
/// newline has no extra empty line, and empty text has no lines).
pub open spec fn lines_of(s: Seq<char>) -> Seq<Seq<char>> {
    let parts = split_chars(s, '\n');
    let kept = if parts.len() > 0 && parts.last().len() == 0 {
        parts.drop_last()
    } else {
        parts
    };
    kept.map_values(|l: Seq<char>| strip_cr(l))
}

/// Splits `s` into lines, matching [`lines_of`].
pub fn split_lines(s: &str) -> (r: Vec<String>)
    ensures
        r@.map_values(|p: String| p@) == lines_of(s@),
{
    let mut parts = split_str(s, '\n');
    let ghost raw = parts@.map_values(|p: String| p@);
    if parts.len() > 0 && parts[parts.len() - 1].as_str().is_empty() {
        proof {
            assert(parts@.drop_last().map_values(|p: String| p@) =~= raw.drop_last());
        }
        let _ = parts.pop();
    }
    let ghost kept = parts@.map_values(|p: String| p@);
    let mut out: Vec<String> = Vec::new();
    let mut i: usize = 0;
    while i < parts.len()
        invariant
            kept == parts@.map_values(|p: String| p@),
            i <= parts@.len(),
            out@.len() == i,
            forall|j: int| 0 <= j < i ==> out@.map_values(|p: String| p@)[j] == strip_cr(kept[j]),
        decreases parts@.len() - i,
    {
        let l = &parts[i];
        let ln = l.as_str().unicode_len();
        if ln > 0 && l.as_str().get_char(ln - 1) == '\r' {
            proof {
                assert(l@.subrange(0, ln - 1 as int) =~= l@.drop_last());
            }
            out.push(String::from_str(l.as_str().substring_char(0, ln - 1)));
        } else {
            out.push(l.clone());
        }
        i = i + 1;
    }
    proof {
        assert(out@.map_values(|p: String| p@) =~= kept.map_values(|l: Seq<char>| strip_cr(l)));
    }
    out
}

/// `s` without its leading run of ASCII whitespace.
pub open spec fn skip_spaces(s: Seq<char>) -> Seq<char>
    decreases s.len(),
{
    if s.len() > 0 && is_space(s[0]) {
        skip_spaces(s.drop_first())
    } else {
        s
    }
}

/// The word at the head of `s`: its longest whitespace-free prefix.
pub open spec fn take_word(s: Seq<char>) -> Seq<char>
    decreases s.len(),
{
    if s.len() == 0 || is_space(s[0]) {
        Seq::empty()
    } else {
        seq![s[0]] + take_word(s.drop_first())
    }
}

/// `s` without the word at its head.
pub open spec fn drop_word(s: Seq<char>) -> Seq<char>
    decreases s.len(),
{
    if s.len() == 0 || is_space(s[0]) {
        s
    } else {
        drop_word(s.drop_first())
    }
}

proof fn lemma_skip_spaces_len(s: Seq<char>)
    ensures
        skip_spaces(s).len() <= s.len(),
        skip_spaces(s).len() > 0 ==> !is_space(skip_spaces(s)[0]),
    decreases s.len(),
{
    if s.len() > 0 && is_space(s[0]) {
        lemma_skip_spaces_len(s.drop_first());
    }
}

proof fn lemma_drop_word_len(s: Seq<char>)
    requires
        s.len() > 0,
        !is_space(s[0]),
    ensures
        drop_word(s).len() < s.len(),
    decreases s.len(),
{
    let t = s.drop_first();
    if t.len() > 0 && !is_space(t[0]) {
        lemma_drop_word_len(t);
    } else {
        assert(drop_word(t) == t);
    }
}

/// The whitespace-separated words of `s`, in order, each non-empty.
pub open spec fn words_of(s: Seq<char>) -> Seq<Seq<char>>
    decreases s.len(),
    via words_of_decreases
{
    let t = skip_spaces(s);
    if t.len() == 0 {
        Seq::empty()
    } else {
        seq![take_word(t)] + words_of(drop_word(t))
    }
}

#[via_fn]
proof fn words_of_decreases(s: Seq<char>) {
    let t = skip_spaces(s);
    lemma_skip_spaces_len(s);
    if t.len() > 0 {
        lemma_drop_word_len(t);
    }
}

/// Relates one whitespace-free stretch `[i, j)` of `s` to the recursive
/// word functions on the suffix `s.skip(i)`.
proof fn lemma_word_range(s: Seq<char>, i: int, j: int)
    requires
        0 <= i <= j <= s.len(),
        forall|k: int| i <= k < j ==> !is_space(s[k]),
        j == s.len() || is_space(s[j]),
    ensures
        take_word(s.skip(i)) =~= s.subrange(i, j),
        drop_word(s.skip(i)) =~= s.skip(j),
    decreases j - i,
{
    if i == j {
        if j < s.len() {
            assert(s.skip(i)[0] == s[j]);
        }
    } else {
        assert(s.skip(i)[0] == s[i]);
        assert(s.skip(i).drop_first() =~= s.skip(i + 1));
        lemma_word_range(s, i + 1, j);
    }
}

/// Splits `s` into whitespace-separated words, matching [`words_of`].
pub fn split_words(s: &str) -> (r: Vec<String>)
    ensures
        r@.map_values(|p: String| p@) == words_of(s@),
{
    let n = s.unicode_len();
    let mut out: Vec<String> = Vec::new();
    let mut i: usize = 0;
    proof {
        assert(s@.skip(0) =~= s@);
        assert(out@.map_values(|p: String| p@) + words_of(s@) =~= words_of(s@));
    }
    while i < n
        invariant
            n == s@.len(),
            i <= n,
            words_of(s@) =~= out@.map_values(|p: String| p@) + words_of(s@.skip(i as int)),
        decreases n - i,
    {
        if is_space_char(s.get_char(i)) {
            proof {
                assert(s@.skip(i as int)[0] == s@[i as int]);
                assert(s@.skip(i as int).drop_first() =~= s@.skip(i + 1 as int));
                assert(skip_spaces(s@.skip(i as int)) == skip_spaces(s@.skip(i + 1 as int)));
            }
            i = i + 1;
        } else {
            let word_start = i;
            let mut j = i + 1;
            while j < n && !is_space_char(s.get_char(j))
                invariant
                    n == s@.len(),
                    word_start < j <= n,
                    forall|k: int| word_start <= k < j ==> !is_space(s@[k]),
                decreases n - j,
            {
                j = j + 1;
            }
            let word = String::from_str(s.substring_char(word_start, j));
            proof {
                lemma_word_range(s@, word_start as int, j as int);
                let t = s@.skip(word_start as int);
                assert(t[0] == s@[word_start as int]);
                assert(skip_spaces(t) == t);
                assert(out@.push(word).map_values(|p: String| p@) =~= out@.map_values(
                    |p: String| p@,
                ).push(word@));
            }
            out.push(word);
            i = j;
        }
    }
    proof {
        assert(s@.skip(n as int) =~= Seq::<char>::empty());
        assert(out@.map_values(|p: String| p@) =~= words_of(s@));
    }
    out
}

/// The first two whitespace-separated words of `s`, joined by one
/// space: both words, the only word, or empty text as `s` has them.
pub open spec fn first_two_words_chars(s: Seq<char>) -> Seq<char> {
    let ws = words_of(s);
    if ws.len() == 0 {
        Seq::empty()
    } else if ws.len() == 1 {
        ws[0]
    } else {
        ws[0] + " "@ + ws[1]
    }
}

/// Takes the first two words of `s`, matching [`first_two_words_chars`].
pub fn first_two_words(s: &str) -> (r: String)
    ensures
        r@ == first_two_words_chars(s@),
{
    let words = split_words(s);
    if words.len() == 0 {
        String::new()
    } else if words.len() == 1 {
        words[0].clone()
    } else {
        let mut r = words[0].clone();
        r.append(" ");
        r.append(words[1].as_str());
        proof {
            assert(r@ =~= first_two_words_chars(s@));
        }
        r
    }
}

/// `s` without its leading run of `c`.
pub open spec fn strip_leading(s: Seq<char>, c: char) -> Seq<char>
    decreases s.len(),
{
    if s.len() > 0 && s[0] == c {
        strip_leading(s.drop_first(), c)
    } else {
        s
    }
}

/// Strips every leading `c`, matching [`strip_leading`].
pub fn strip_leading_char<'a>(s: &'a str, c: char) -> (r: &'a str)
    ensures
        r@ == strip_leading(s@, c),
{
    let n = s.unicode_len();
    let mut a: usize = 0;
    proof {
        assert(s@.subrange(0, n as int) =~= s@);
    }
    while a < n && s.get_char(a) == c
        invariant
            n == s@.len(),
            a <= n,
            strip_leading(s@, c) == strip_leading(s@.subrange(a as int, n as int), c),
        decreases n - a,
    {
        proof {
            assert(s@.subrange(a as int, n as int).drop_first() =~= s@.subrange(
                a + 1 as int,
                n as int,
            ));
        }
        a = a + 1;
    }
    s.substring_char(a, n)
}

/// `s` without its trailing run of `c`.
pub open spec fn strip_trailing(s: Seq<char>, c: char) -> Seq<char>
    decreases s.len(),
{
    if s.len() > 0 && s.last() == c {
        strip_trailing(s.drop_last(), c)
    } else {
        s
    }
}

/// Strips every trailing `c`, matching [`strip_trailing`].
pub fn strip_trailing_char<'a>(s: &'a str, c: char) -> (r: &'a str)
    ensures
        r@ == strip_trailing(s@, c),
{
    let n = s.unicode_len();
    let mut b: usize = n;
    proof {
        assert(s@.subrange(0, n as int) =~= s@);
    }
    while b > 0 && s.get_char(b - 1) == c
        invariant
            n == s@.len(),
            b <= n,
            strip_trailing(s@, c) == strip_trailing(s@.subrange(0, b as int), c),
        decreases b,
    {
        proof {
            assert(s@.subrange(0, b as int).drop_last() =~= s@.subrange(0, b - 1 as int));
        }
        b = b - 1;
    }
    s.substring_char(0, b)
}

} // verus!
