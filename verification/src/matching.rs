//! Verified string matching: equality, substring search, and the
//! name/image recognizers built on them.

use vstd::prelude::*;

verus! {

/// `needle` occurs in `hay` starting at position `i`.
pub open spec fn contains_at(hay: Seq<char>, needle: Seq<char>, i: int) -> bool {
    &&& 0 <= i
    &&& i + needle.len() <= hay.len()
    &&& hay.subrange(i, i + needle.len()) == needle
}

/// `needle` occurs somewhere in `hay` (anywhere, the empty needle always).
pub open spec fn spec_contains(hay: Seq<char>, needle: Seq<char>) -> bool {
    exists|i: int| contains_at(hay, needle, i)
}

/// Character-wise string equality, matching view equality.
pub fn str_eq(a: &str, b: &str) -> (r: bool)
    ensures
        r == (a@ == b@),
{
    let n = a.unicode_len();
    if n != b.unicode_len() {
        return false;
    }
    let mut i: usize = 0;
    while i < n
        invariant
            n == a@.len(),
            n == b@.len(),
            i <= n,
            forall|j: int| 0 <= j < i ==> a@[j] == b@[j],
        decreases n - i,
    {
        if a.get_char(i) != b.get_char(i) {
            return false;
        }
        i = i + 1;
    }
    proof {
        assert(a@ =~= b@);
    }
    true
}

/// Substring search, matching [`spec_contains`].
pub fn contains_sub(hay: &str, needle: &str) -> (r: bool)
    ensures
        r == spec_contains(hay@, needle@),
{
    let h = hay.unicode_len();
    let n = needle.unicode_len();
    if n > h {
        return false;
    }
    let limit = h - n;
    let mut start: usize = 0;
    loop
        invariant
            h == hay@.len(),
            n == needle@.len(),
            n <= h,
            limit == h - n,
            start <= limit,
            forall|k: int| 0 <= k < start ==> !contains_at(hay@, needle@, k),
        decreases limit - start,
    {
        let mut j: usize = 0;
        let mut mismatch = false;
        while j < n
            invariant
                h == hay@.len(),
                n == needle@.len(),
                start + n <= h,
                j <= n,
                !mismatch ==> forall|j2: int| 0 <= j2 < j ==> hay@[start + j2] == needle@[j2],
                mismatch ==> !contains_at(hay@, needle@, start as int),
            decreases n - j,
        {
            if hay.get_char(start + j) != needle.get_char(j) {
                proof {
                    assert(hay@.subrange(start as int, start + n as int)[j as int] == hay@[start
                        + j as int]);
                }
                mismatch = true;
                j = n;
            } else {
                j = j + 1;
            }
        }
        if !mismatch {
            proof {
                assert(hay@.subrange(start as int, start + n as int) =~= needle@);
                assert(contains_at(hay@, needle@, start as int));
            }
            return true;
        }
        if start == limit {
            proof {
                assert forall|i: int| !contains_at(hay@, needle@, i) by {
                    if 0 <= i < start {
                    } else if i == start {
                    }
                }
            }
            return false;
        }
        start = start + 1;
    }
}

/// What an arbitrary string case-folds to. Named, not spelled out: the
/// Unicode lowercase mapping is a function of the characters alone, and
/// nothing here restates its tables.
pub uninterp spec fn lower_of(s: Seq<char>) -> Seq<char>;

/// Relies on `str::to_lowercase`: returns the lowercase equivalent of the
/// slice; the result depends on the characters alone, and an empty slice
/// stays empty.
#[verifier::external_body]
fn lowercase(s: &str) -> (r: String)
    ensures
        r@ == lower_of(s@),
        s@.len() == 0 ==> r@.len() == 0,
{
    s.to_lowercase()
}

/// Whether an already case-folded container name marks a container this
/// checker watches: its own stack's names, or well-known infrastructure
/// images paired with the stack's name.
pub open spec fn spec_backend_ai_name(s: Seq<char>) -> bool {
    ||| spec_contains(s, "backend.ai"@)
    ||| spec_contains(s, "halfstack"@)
    ||| spec_contains(s, "postgres"@) && spec_contains(s, "backend"@)
    ||| spec_contains(s, "redis"@) && spec_contains(s, "backend"@)
    ||| spec_contains(s, "etcd"@) && spec_contains(s, "backend"@)
    ||| spec_contains(s, "prometheus"@) && spec_contains(s, "backend"@)
    ||| spec_contains(s, "grafana"@) && spec_contains(s, "backend"@)
    ||| spec_contains(s, "loki"@) && spec_contains(s, "backend"@)
    ||| spec_contains(s, "tempo"@) && spec_contains(s, "backend"@)
    ||| spec_contains(s, "pyroscope"@) && spec_contains(s, "backend"@)
    ||| spec_contains(s, "otel-collector"@)
    ||| spec_contains(s, "node-exporter"@)
}

/// Whether an already case-folded image name marks an image this checker
/// watches.
pub open spec fn spec_backend_ai_image(s: Seq<char>) -> bool {
    ||| spec_contains(s, "backend.ai"@)
    ||| spec_contains(s, "postgres"@) && (spec_contains(s, "15"@) || spec_contains(s, "14"@))
    ||| spec_contains(s, "redis"@) && spec_contains(s, "7"@)
    ||| spec_contains(s, "etcd"@)
    ||| spec_contains(s, "prometheus"@)
    ||| spec_contains(s, "grafana"@)
    ||| spec_contains(s, "loki"@)
    ||| spec_contains(s, "tempo"@)
    ||| spec_contains(s, "pyroscope"@)
    ||| spec_contains(s, "otel/opentelemetry-collector"@)
    ||| spec_contains(s, "node-exporter"@)
}

/// [`spec_backend_ai_name`] on a string that is already case-folded.
pub fn matches_backend_ai_name(lowered: &str) -> (r: bool)
    ensures
        r == spec_backend_ai_name(lowered@),
{
    contains_sub(lowered, "backend.ai") || contains_sub(lowered, "halfstack") || (contains_sub(
        lowered,
        "postgres",
    ) && contains_sub(lowered, "backend")) || (contains_sub(lowered, "redis") && contains_sub(
        lowered,
        "backend",
    )) || (contains_sub(lowered, "etcd") && contains_sub(lowered, "backend")) || (contains_sub(
        lowered,
        "prometheus",
    ) && contains_sub(lowered, "backend")) || (contains_sub(lowered, "grafana") && contains_sub(
        lowered,
        "backend",
    )) || (contains_sub(lowered, "loki") && contains_sub(lowered, "backend")) || (contains_sub(
        lowered,
        "tempo",
    ) && contains_sub(lowered, "backend")) || (contains_sub(lowered, "pyroscope") && contains_sub(
        lowered,
        "backend",
    )) || contains_sub(lowered, "otel-collector") || contains_sub(lowered, "node-exporter")
}

/// [`spec_backend_ai_image`] on a string that is already case-folded.
pub fn matches_backend_ai_image(lowered: &str) -> (r: bool)
    ensures
        r == spec_backend_ai_image(lowered@),
{
    contains_sub(lowered, "backend.ai") || (contains_sub(lowered, "postgres") && (contains_sub(
        lowered,
        "15",
    ) || contains_sub(lowered, "14"))) || (contains_sub(lowered, "redis") && contains_sub(
        lowered,
        "7",
    )) || contains_sub(lowered, "etcd") || contains_sub(lowered, "prometheus") || contains_sub(
        lowered,
        "grafana",
    ) || contains_sub(lowered, "loki") || contains_sub(lowered, "tempo") || contains_sub(
        lowered,
        "pyroscope",
    ) || contains_sub(lowered, "otel/opentelemetry-collector") || contains_sub(
        lowered,
        "node-exporter",
    )
}

/// Case-folds `name` and recognizes it as a watched container name.
pub fn is_backend_ai_container(name: &str) -> (r: bool)
    ensures
        r == spec_backend_ai_name(lower_of(name@)),
{
    let lowered = lowercase(name);
    matches_backend_ai_name(lowered.as_str())
}

/// Case-folds `image` and recognizes it as a watched image name.
pub fn is_backend_ai_image(image: &str) -> (r: bool)
    ensures
        r == spec_backend_ai_image(lower_of(image@)),
{
    let lowered = lowercase(image);
    matches_backend_ai_image(lowered.as_str())
}

/// Whether a display-hardware profile marks an Apple Silicon GPU: it
/// names Apple together with one of the M-series generations.
pub open spec fn spec_apple_silicon_profile(s: Seq<char>) -> bool {
    spec_contains(s, "Apple"@) && (spec_contains(s, "M1"@) || spec_contains(s, "M2"@)
        || spec_contains(s, "M3"@) || spec_contains(s, "M4"@))
}

/// [`spec_apple_silicon_profile`] on a profile dump (case-sensitive).
pub fn is_apple_silicon_profile(profile: &str) -> (r: bool)
    ensures
        r == spec_apple_silicon_profile(profile@),
{
    contains_sub(profile, "Apple") && (contains_sub(profile, "M1") || contains_sub(profile, "M2")
        || contains_sub(profile, "M3") || contains_sub(profile, "M4"))
}

} // verus!
