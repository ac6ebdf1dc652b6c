//! A plain-string model of the paths the project works with: joining with
//! `/`, and resolving the final path component that names a project.

use vstd::prelude::*;
use vstd::string::*;

verus! {

/// The path separator, as a sequence of characters.
pub open spec fn sep() -> Seq<char> {
    seq!['/']
}

/// Joining a base path with a relative path: `base` + `/` + `rel`.
pub open spec fn join_paths(base: Seq<char>, rel: Seq<char>) -> Seq<char> {
    base + sep() + rel
}

/// Join a base path and a relative path with a single separator.
pub fn path_join(base: &str, rel: &str) -> (r: String)
    ensures
        r@ == join_paths(base@, rel@),
{
    let mut r = base.to_owned();
    r.append("/");
    r.append(rel);
    proof {
        reveal_strlit("/");
        assert(("/")@ =~= sep());
    }
    r
}

/// The characters after the last `/` of `p` (the whole of `p` if it has no
/// separator; empty if `p` ends in a separator or is empty).
pub open spec fn last_segment(p: Seq<char>) -> Seq<char>
    decreases p.len(),
{
    if p.len() == 0 {
        Seq::empty()
    } else if p.last() == '/' {
        Seq::empty()
    } else {
        last_segment(p.drop_last()).push(p.last())
    }
}

/// Whether a path has a nameable final component: a nonempty last segment
/// that is neither `.` nor `..` (the filesystem root, for one, has none).
pub open spec fn nameable(p: Seq<char>) -> bool {
    &&& last_segment(p).len() > 0
    &&& last_segment(p) != seq!['.']
    &&& last_segment(p) != seq!['.', '.']
}

proof fn lemma_last_segment_after_sep(p: Seq<char>, k: int)
    requires
        0 <= k < p.len(),
        p[k] == '/',
        forall|j: int| k < j < p.len() ==> p[j] != '/',
    ensures
        last_segment(p) == p.subrange(k + 1, p.len() as int),
    decreases p.len(),
{
    if k == p.len() - 1 {
        assert(p.last() == '/');
        assert(last_segment(p) =~= p.subrange(k + 1, p.len() as int));
    } else {
        assert(p.last() != '/');
        lemma_last_segment_after_sep(p.drop_last(), k);
        assert(p.drop_last().subrange(k + 1, p.len() - 1).push(p.last()) =~= p.subrange(
            k + 1,
            p.len() as int,
        ));
    }
}

proof fn lemma_last_segment_no_sep(p: Seq<char>)
    requires
        forall|j: int| 0 <= j < p.len() ==> p[j] != '/',
    ensures
        last_segment(p) == p,
    decreases p.len(),
{
    if p.len() == 0 {
        assert(last_segment(p) =~= p);
    } else {
        lemma_last_segment_no_sep(p.drop_last());
        assert(p.drop_last().push(p.last()) =~= p);
    }
}

/// Whether two string slices hold the same characters.
pub fn str_eq(a: &str, b: &str) -> (r: bool)
    ensures
        r == (a@ == b@),
{
    let a_len = a.unicode_len();
    let b_len = b.unicode_len();
    if a_len != b_len {
        return false;
    }
    let mut i: usize = 0;
    while i < a_len
        invariant
            i <= a_len,
            a_len == a@.len(),
            a_len == b@.len(),
            forall|j: int| 0 <= j < i ==> a@[j] == b@[j],
        decreases a_len - i,
    {
        if a.get_char(i) != b.get_char(i) {
            return false;
        }
        i += 1;
    }
    proof {
        assert(a@ =~= b@);
    }
    true
}

/// The final path component of `path`, as `Path::file_name` resolves it on a
/// normalized path: the characters after the last `/`, or nothing when that
/// segment is empty, `.`, or `..`.
pub fn final_component(path: &str) -> (r: Option<String>)
    ensures
        r is Some <==> nameable(path@),
        r matches Some(s) ==> s@ == last_segment(path@),
{
    let n = path.unicode_len();
    let mut i: usize = n;
    while i > 0 && path.get_char(i - 1) != '/'
        invariant
            i <= n,
            n == path@.len(),
            forall|j: int| i <= j < n ==> path@[j] != '/',
        decreases i,
    {
        i -= 1;
    }
    proof {
        if i == 0 {
            lemma_last_segment_no_sep(path@);
        } else {
            lemma_last_segment_after_sep(path@, i - 1);
        }
    }
    let seg = path.substring_char(i, n);
    assert(seg@ == last_segment(path@));
    if seg.unicode_len() == 0 {
        return None;
    }
    proof {
        reveal_strlit(".");
        reveal_strlit("..");
        assert((".")@ =~= seq!['.']);
        assert(("..")@ =~= seq!['.', '.']);
    }
    if str_eq(seg, ".") || str_eq(seg, "..") {
        return None;
    }
    Some(seg.to_owned())
}

} // verus!
