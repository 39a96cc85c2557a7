//! The library's version in Python's notation, and its build information.
use vstd::prelude::*;

verus! {

/// `pat` occurs in `s` starting at position `i`.
pub open spec fn occurs_at(s: Seq<char>, pat: Seq<char>, i: int) -> bool {
    0 <= i && pat.is_prefix_of(s.skip(i))
}

/// `pat` occurs somewhere in `s`.
pub open spec fn contains_seq(s: Seq<char>, pat: Seq<char>) -> bool {
    exists|i: int| 0 <= i <= s.len() && #[trigger] occurs_at(s, pat, i)
}

/// Every occurrence of the non-empty `pat` in `s` replaced by `rep`, scanning
/// from the left: occurrences do not overlap, and a replacement is not
/// scanned again.
pub open spec fn replace_all(s: Seq<char>, pat: Seq<char>, rep: Seq<char>) -> Seq<char>
    decreases s.len(),
{
    if s.len() == 0 {
        Seq::empty()
    } else if pat.len() > 0 && pat.is_prefix_of(s) {
        rep + replace_all(s.skip(pat.len() as int), pat, rep)
    } else {
        seq![s[0]] + replace_all(s.drop_first(), pat, rep)
    }
}

/// Cargo's pre-release notation turned into Python's: `-alpha` becomes `a`
/// and then `-beta` becomes `b` (`1.0.0-alpha1` is `1.0.0a1`).
pub open spec fn python_version(cargo_version: Seq<char>) -> Seq<char> {
    replace_all(replace_all(cargo_version, "-alpha"@, "a"@), "-beta"@, "b"@)
}

/// The text of a boolean as Rust displays it.
pub open spec fn bool_text(b: bool) -> Seq<char> {
    if b {
        "true"@
    } else {
        "false"@
    }
}

/// `profile=<profile> pgo=<true|false>`.
pub open spec fn build_info_text(profile: Seq<char>, pgo: bool) -> Seq<char> {
    "profile="@ + profile + " pgo="@ + bool_text(pgo)
}

/// Whether `pat` occurs in `s` at character position `i`.
fn matches_at(s: &str, n: usize, i: usize, pat: &str, m: usize) -> (res: bool)
    requires
        n == s@.len(),
        m == pat@.len(),
        i <= n,
    ensures
        res == pat@.is_prefix_of(s@.skip(i as int)),
{
    if m > n - i {
        return false;
    }
    let mut j: usize = 0;
    while j < m
        invariant
            j <= m,
            m <= n - i,
            n == s@.len(),
            m == pat@.len(),
            forall|k: int| 0 <= k < j ==> pat@[k] == s@[i + k],
        decreases m - j,
    {
        if s.get_char(i + j) != pat.get_char(j) {
            assert(pat@[j as int] != s@.skip(i as int)[j as int]);
            return false;
        }
        j = j + 1;
    }
    assert(pat@ =~= s@.skip(i as int).subrange(0, m as int));
    true
}

/// After position `i`, scanning goes on exactly as `replace_all` of the rest.
proof fn lemma_replace_step(s: Seq<char>, pat: Seq<char>, rep: Seq<char>, i: int)
    requires
        0 <= i < s.len(),
    ensures
        pat.len() > 0 && pat.is_prefix_of(s.skip(i)) ==> replace_all(s.skip(i), pat, rep) == rep
            + replace_all(s.skip(i + pat.len()), pat, rep),
        !(pat.len() > 0 && pat.is_prefix_of(s.skip(i))) ==> replace_all(s.skip(i), pat, rep)
            == seq![s[i]] + replace_all(s.skip(i + 1), pat, rep),
{
    let t = s.skip(i);
    if pat.len() > 0 && pat.is_prefix_of(t) {
        assert(t.skip(pat.len() as int) =~= s.skip(i + pat.len()));
    } else {
        assert(t.drop_first() =~= s.skip(i + 1));
    }
}

/// Replaces every occurrence of the non-empty `pat` in `s` by `rep`, as
/// `replace_all` describes.
pub fn replace_str(s: &str, pat: &str, rep: &str) -> (res: String)
    requires
        pat@.len() > 0,
    ensures
        res@ == replace_all(s@, pat@, rep@),
{
    let n = s.unicode_len();
    let m = pat.unicode_len();
    let mut res = String::new();
    let mut i: usize = 0;
    proof {
        assert(s@.skip(0) =~= s@);
    }
    while i < n
        invariant
            i <= n,
            n == s@.len(),
            m == pat@.len(),
            m > 0,
            replace_all(s@, pat@, rep@) == res@ + replace_all(s@.skip(i as int), pat@, rep@),
        decreases n - i,
    {
        proof {
            lemma_replace_step(s@, pat@, rep@, i as int);
        }
        let ghost before = res@;
        if matches_at(s, n, i, pat, m) {
            res.append(rep);
            assert((before + rep@) + replace_all(s@.skip(i + m), pat@, rep@) =~= before + (rep@
                + replace_all(s@.skip(i + m), pat@, rep@)));
            i = i + m;
        } else {
            let one = s.substring_char(i, i + 1);
            assert(one@ =~= seq![s@[i as int]]);
            res.append(one);
            assert((before + one@) + replace_all(s@.skip(i + 1), pat@, rep@) =~= before + (one@
                + replace_all(s@.skip(i + 1), pat@, rep@)));
            i = i + 1;
        }
    }
    assert(s@.skip(n as int) =~= Seq::<char>::empty());
    res
}

/// The library's version in Python's notation, from the version Cargo gives
/// it: `-alpha` becomes `a` and `-beta` becomes `b`.
pub fn get_pydantic_core_version(cargo_version: &str) -> (res: String)
    ensures
        res@ == python_version(cargo_version@),
{
    proof {
        reveal_strlit("-alpha");
        reveal_strlit("-beta");
    }
    let alpha_done = replace_str(cargo_version, "-alpha", "a");
    replace_str(alpha_done.as_str(), "-beta", "b")
}

/// The build information: the build profile and whether profile-guided
/// optimisation was used.
pub fn build_info(profile: &str, pgo: bool) -> (res: String)
    ensures
        res@ == build_info_text(profile@, pgo),
{
    let mut res = String::from_str("profile=");
    res.append(profile);
    res.append(" pgo=");
    if pgo {
        res.append("true");
    } else {
        res.append("false");
    }
    res
}

/// A string in which `pat` does not occur is left as it is.
pub proof fn lemma_replace_absent(s: Seq<char>, pat: Seq<char>, rep: Seq<char>)
    requires
        !contains_seq(s, pat),
    ensures
        replace_all(s, pat, rep) == s,
    decreases s.len(),
{
    if s.len() > 0 {
        let t = s.drop_first();
        assert(!(pat.len() > 0 && pat.is_prefix_of(s))) by {
            assert(s.skip(0) =~= s);
            assert(!occurs_at(s, pat, 0));
        }
        assert forall|i: int| 0 <= i <= t.len() implies !#[trigger] occurs_at(t, pat, i) by {
            assert(t.skip(i) =~= s.skip(i + 1));
            assert(!occurs_at(s, pat, i + 1));
        }
        lemma_replace_absent(t, pat, rep);
        assert(seq![s[0]] + t =~= s);
    }
}

/// A version without pre-release markers keeps its notation.
pub proof fn lemma_release_version_unchanged(v: Seq<char>)
    requires
        !contains_seq(v, "-alpha"@),
        !contains_seq(v, "-beta"@),
    ensures
        python_version(v) == v,
{
    lemma_replace_absent(v, "-alpha"@, "a"@);
    lemma_replace_absent(v, "-beta"@, "b"@);
}

} // verus!
