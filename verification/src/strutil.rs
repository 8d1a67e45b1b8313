use vstd::prelude::*;
use vstd::string::StrSliceExecFns;

verus! {

/// `sub` occurs in `s` starting at position `i`.
pub open spec fn contains_at(s: Seq<char>, sub: Seq<char>, i: int) -> bool {
    0 <= i && i + sub.len() <= s.len() && s.subrange(i, i + sub.len()) == sub
}

/// `sub` occurs somewhere in `s`.
pub open spec fn contains_seq(s: Seq<char>, sub: Seq<char>) -> bool {
    exists|i: int| contains_at(s, sub, i)
}

/// `s` ends with `suffix`.
pub open spec fn ends_with_seq(s: Seq<char>, suffix: Seq<char>) -> bool {
    suffix.len() <= s.len() && s.subrange(s.len() - suffix.len(), s.len() as int) == suffix
}

/// Character-for-character equality of two string slices.
pub fn str_eq(a: &str, b: &str) -> (r: bool)
    ensures
        r == (a@ == b@),
{
    let la = a.unicode_len();
    let lb = b.unicode_len();
    if la != lb {
        assert(a@ != b@);
        return false;
    }
    let mut i: usize = 0;
    while i < la
        invariant
            i <= la,
            la == a@.len(),
            la == b@.len(),
            forall|j: int| 0 <= j < i ==> a@[j] == b@[j],
        decreases la - i,
    {
        if a.get_char(i) != b.get_char(i) {
            assert(a@ != b@);
            return false;
        }
        i = i + 1;
    }
    assert(a@ =~= b@);
    true
}

/// `sub` compared against `s` at offset `i`.
fn match_at(s: &str, sub: &str, i: usize) -> (r: bool)
    requires
        i + sub@.len() <= s@.len(),
    ensures
        r == contains_at(s@, sub@, i as int),
{
    let n = s.unicode_len();
    let m = sub.unicode_len();
    let mut j: usize = 0;
    while j < m
        invariant
            j <= m,
            n == s@.len(),
            m == sub@.len(),
            i + m <= n,
            forall|k: int| 0 <= k < j ==> s@[i + k] == sub@[k],
        decreases m - j,
    {
        if s.get_char(i + j) != sub.get_char(j) {
            assert(s@.subrange(i as int, i + m) != sub@) by {
                assert(s@.subrange(i as int, i + m)[j as int] == s@[i + j]);
            }
            return false;
        }
        j = j + 1;
    }
    assert(s@.subrange(i as int, i + m) =~= sub@);
    true
}

/// Substring search: whether `sub` occurs anywhere in `s`.
pub fn contains_sub(s: &str, sub: &str) -> (r: bool)
    ensures
        r == contains_seq(s@, sub@),
{
    let n = s.unicode_len();
    let m = sub.unicode_len();
    if m > n {
        assert(forall|i: int| !contains_at(s@, sub@, i));
        return false;
    }
    if m == 0 {
        assert(s@.subrange(0, 0) =~= sub@);
        assert(contains_at(s@, sub@, 0));
        return true;
    }
    let mut i: usize = 0;
    while i <= n - m
        invariant
            n == s@.len(),
            m == sub@.len(),
            0 < m <= n,
            i <= n - m + 1,
            forall|k: int| 0 <= k < i ==> !contains_at(s@, sub@, k),
        decreases n - m + 1 - i,
    {
        if match_at(s, sub, i) {
            return true;
        }
        i = i + 1;
    }
    assert(forall|k: int| !contains_at(s@, sub@, k)) by {
        assert(forall|k: int| k > n - m ==> !contains_at(s@, sub@, k));
    }
    false
}

/// Whether `s` ends with `suffix`.
pub fn ends_with(s: &str, suffix: &str) -> (r: bool)
    ensures
        r == ends_with_seq(s@, suffix@),
{
    let n = s.unicode_len();
    let m = suffix.unicode_len();
    if m > n {
        return false;
    }
    match_at(s, suffix, n - m)
}

/// `s` starts with `prefix`.
pub open spec fn starts_with_seq(s: Seq<char>, prefix: Seq<char>) -> bool {
    prefix.len() <= s.len() && s.subrange(0, prefix.len() as int) == prefix
}

/// Whether `s` starts with `prefix`.
pub fn starts_with(s: &str, prefix: &str) -> (r: bool)
    ensures
        r == starts_with_seq(s@, prefix@),
{
    let n = s.unicode_len();
    let m = prefix.unicode_len();
    if m > n {
        return false;
    }
    match_at(s, prefix, 0)
}

/// The simple glob forms that bundle configurations use: `*infix*`,
/// `*suffix`, `prefix*`, and an exact name.
pub open spec fn glob_match_spec(name: Seq<char>, pat: Seq<char>) -> bool {
    if pat.len() >= 2 && pat[0] == '*' && pat[pat.len() - 1] == '*' {
        contains_seq(name, pat.subrange(1, pat.len() - 1))
    } else if pat.len() >= 1 && pat[0] == '*' {
        ends_with_seq(name, pat.subrange(1, pat.len() as int))
    } else if pat.len() >= 1 && pat[pat.len() - 1] == '*' {
        starts_with_seq(name, pat.subrange(0, pat.len() - 1))
    } else {
        name == pat
    }
}

/// Matches a file name against one simple glob pattern.
pub fn glob_match(name: &str, pat: &str) -> (r: bool)
    ensures
        r == glob_match_spec(name@, pat@),
{
    let m = pat.unicode_len();
    if m >= 2 && pat.get_char(0) == '*' && pat.get_char(m - 1) == '*' {
        let infix = pat.substring_char(1, m - 1);
        contains_sub(name, infix)
    } else if m >= 1 && pat.get_char(0) == '*' {
        let suffix = pat.substring_char(1, m);
        ends_with(name, suffix)
    } else if m >= 1 && pat.get_char(m - 1) == '*' {
        let prefix = pat.substring_char(0, m - 1);
        starts_with(name, prefix)
    } else {
        str_eq(name, pat)
    }
}

/// `name` matches one of the patterns.
pub open spec fn matches_any_glob(name: Seq<char>, pats: Seq<Seq<char>>) -> bool {
    exists|i: int| 0 <= i < pats.len() && glob_match_spec(name, pats[i])
}

/// Matches a file name against a pattern list.
pub fn any_glob_match(name: &str, pats: &Vec<String>) -> (r: bool)
    ensures
        r == matches_any_glob(name@, pats.deep_view()),
{
    let mut i: usize = 0;
    while i < pats.len()
        invariant
            i <= pats.len(),
            forall|j: int| 0 <= j < i ==> !glob_match_spec(name@, pats.deep_view()[j]),
        decreases pats.len() - i,
    {
        if glob_match(name, pats[i].as_str()) {
            assert(glob_match_spec(name@, pats.deep_view()[i as int]));
            return true;
        }
        i = i + 1;
    }
    false
}

/// A concatenation contains its middle part.
pub proof fn lemma_concat_contains(pre: Seq<char>, mid: Seq<char>, post: Seq<char>)
    ensures
        contains_seq(pre + mid + post, mid),
{
    let s = pre + mid + post;
    assert(s.subrange(pre.len() as int, pre.len() + mid.len() as int) =~= mid);
    assert(contains_at(s, mid, pre.len() as int));
}

} // verus!
