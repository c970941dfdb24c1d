//! Character-level helpers on strings.

use vstd::prelude::*;
use vstd::string::*;

verus! {

/// The suffix that a git remote may carry: `.git`.
pub open spec fn git_suffix() -> Seq<char> {
    seq!['.', 'g', 'i', 't']
}

/// `s` with every trailing `.git` removed.
pub open spec fn strip_git_suffix(s: Seq<char>) -> Seq<char>
    decreases s.len(),
{
    if git_suffix().is_suffix_of(s) {
        strip_git_suffix(s.subrange(0, s.len() - 4))
    } else {
        s
    }
}

/// What `strip_git_suffix` returns does not end in `.git`.
pub proof fn lemma_strip_leaves_no_suffix(s: Seq<char>)
    ensures
        !git_suffix().is_suffix_of(strip_git_suffix(s)),
        strip_git_suffix(s).is_prefix_of(s),
    decreases s.len(),
{
    if git_suffix().is_suffix_of(s) {
        lemma_strip_leaves_no_suffix(s.subrange(0, s.len() - 4));
    }
}

/// Stripping twice is stripping once.
pub proof fn lemma_strip_idempotent(s: Seq<char>)
    ensures
        strip_git_suffix(strip_git_suffix(s)) == strip_git_suffix(s),
{
    lemma_strip_leaves_no_suffix(s);
}

/// One more `.git` at the end changes nothing.
pub proof fn lemma_strip_absorbs_suffix(s: Seq<char>)
    ensures
        strip_git_suffix(s + git_suffix()) == strip_git_suffix(s),
{
    let t = s + git_suffix();
    assert(t.subrange(t.len() - 4, t.len() as int) =~= git_suffix());
    assert(t.subrange(0, t.len() - 4) =~= s);
}

/// Whether the first `end` characters of `s` end in `.git`.
fn ends_in_git(s: &str, end: usize) -> (b: bool)
    requires
        end <= s@.len(),
    ensures
        b == git_suffix().is_suffix_of(s@.subrange(0, end as int)),
{
    if end < 4 {
        return false;
    }
    let b = s.get_char(end - 4) == '.' && s.get_char(end - 3) == 'g' && s.get_char(end - 2) == 'i'
        && s.get_char(end - 1) == 't';
    proof {
        let head = s@.subrange(0, end as int);
        let tail = head.subrange(head.len() - 4, head.len() as int);
        if b {
            assert(tail =~= git_suffix());
        } else {
            assert(tail[0] == s@[end - 4]);
            assert(tail[1] == s@[end - 3]);
            assert(tail[2] == s@[end - 2]);
            assert(tail[3] == s@[end - 1]);
        }
    }
    b
}

/// Removes every trailing `.git` from `s`.
pub fn trim_git_suffix(s: &str) -> (r: &str)
    ensures
        r@ == strip_git_suffix(s@),
{
    let mut end: usize = s.unicode_len();
    assert(s@.subrange(0, end as int) =~= s@);
    while ends_in_git(s, end)
        invariant
            end <= s@.len(),
            strip_git_suffix(s@) == strip_git_suffix(s@.subrange(0, end as int)),
        decreases end,
    {
        assert(s@.subrange(0, end as int).subrange(0, end - 4) =~= s@.subrange(0, end - 4));
        end = end - 4;
    }
    s.substring_char(0, end)
}

/// Whether `s` begins with `prefix`.
pub fn starts_with(s: &str, prefix: &str) -> (b: bool)
    ensures
        b == prefix@.is_prefix_of(s@),
{
    let n: usize = prefix.unicode_len();
    if s.unicode_len() < n {
        return false;
    }
    let mut i: usize = 0;
    while i < n
        invariant
            i <= n,
            n == prefix@.len(),
            n <= s@.len(),
            forall|k: int| 0 <= k < i ==> s@[k] == prefix@[k],
        decreases n - i,
    {
        if s.get_char(i) != prefix.get_char(i) {
            assert(s@.subrange(0, n as int)[i as int] != prefix@[i as int]);
            return false;
        }
        i = i + 1;
    }
    assert(s@.subrange(0, n as int) =~= prefix@);
    true
}

/// `base` and the relative `leaf` as one path: a separator stands between them unless `base`
/// is empty or ends in one.
pub open spec fn joined(base: Seq<char>, leaf: Seq<char>) -> Seq<char> {
    if base.len() == 0 || base.last() == '/' {
        base + leaf
    } else {
        base + seq!['/'] + leaf
    }
}

/// Joins the relative path `leaf` to `base`.
pub fn join_path(base: &str, leaf: &str) -> (path: String)
    ensures
        path@ == joined(base@, leaf@),
{
    let n: usize = base.unicode_len();
    let mut path = String::from_str(base);
    if n > 0 && base.get_char(n - 1) != '/' {
        proof {
            reveal_strlit("/");
            assert("/"@ =~= seq!['/']);
        }
        path.append("/");
    }
    path.append(leaf);
    path
}

/// Whether two strings hold the same characters.
pub fn same_text(a: &str, b: &str) -> (r: bool)
    ensures
        r == (a@ == b@),
{
    let n: usize = a.unicode_len();
    if b.unicode_len() != n {
        return false;
    }
    let mut i: usize = 0;
    while i < n
        invariant
            i <= n,
            n == a@.len(),
            n == b@.len(),
            forall|k: int| 0 <= k < i ==> a@[k] == b@[k],
        decreases n - i,
    {
        if a.get_char(i) != b.get_char(i) {
            return false;
        }
        i = i + 1;
    }
    assert(a@ =~= b@);
    true
}

} // verus!
