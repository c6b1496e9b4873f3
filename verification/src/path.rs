//! Addressing: joining a caller's relative path to the configured root, and
//! taking the root off again.
//!
//! Paths are sequences of characters separated by `/`. A root is kept in one
//! shape, `/` or `/a/b/`: it starts and ends with a separator and has no empty
//! segment.

use vstd::prelude::*;
use crate::text::{chars_of, text_of};

verus! {

/// A root in its normal shape: begins and ends with `/`, never `//`.
pub open spec fn is_normalized_root(root: Seq<char>) -> bool {
    &&& root.len() > 0
    &&& root[0] == '/'
    &&& root.last() == '/'
    &&& forall|i: int| 0 <= i < root.len() - 1 ==> !(root[i] == '/' && #[trigger] root[i + 1] == '/')
}

/// `/` followed by `v` with every separator dropped that would follow another.
pub open spec fn squeezed(v: Seq<char>) -> Seq<char>
    decreases v.len(),
{
    if v.len() == 0 {
        seq!['/']
    } else {
        let head = squeezed(v.drop_last());
        if v.last() == '/' && head.last() == '/' {
            head
        } else {
            head.push(v.last())
        }
    }
}

/// The normal shape of the root that `v` names.
pub open spec fn normalized_root(v: Seq<char>) -> Seq<char> {
    let s = squeezed(v);
    if s.last() == '/' {
        s
    } else {
        s.push('/')
    }
}

/// How many separators `p` begins with.
pub open spec fn leading_separators(p: Seq<char>) -> nat
    decreases p.len(),
{
    if p.len() > 0 && p[0] == '/' {
        1 + leading_separators(p.drop_first())
    } else {
        0
    }
}

/// A path that does not begin with a separator.
pub open spec fn is_relative(p: Seq<char>) -> bool {
    p.len() == 0 || p[0] != '/'
}

/// `path` below `root`: the root, then the path without its leading separators.
pub open spec fn rooted_abs_path(root: Seq<char>, path: Seq<char>) -> Seq<char> {
    root + path.skip(leading_separators(path) as int)
}

/// Whether `path` lies below `root`. A path that begins with a separator must
/// begin with the whole root; one that does not is measured against the root
/// without its first character.
pub open spec fn is_rooted(root: Seq<char>, path: Seq<char>) -> bool {
    if path.len() > 0 && path[0] == '/' {
        root.is_prefix_of(path)
    } else {
        root.len() > 0 && root.drop_first().is_prefix_of(path)
    }
}

/// What is left of `path` once the root is taken off.
pub open spec fn rel_path(root: Seq<char>, path: Seq<char>) -> Seq<char> {
    if path.len() > 0 && path[0] == '/' {
        path.skip(root.len() as int)
    } else {
        path.skip(root.len() - 1)
    }
}

/// `p` without the separators it ends with.
pub open spec fn without_trailing_separators(p: Seq<char>) -> Seq<char>
    decreases p.len(),
{
    if p.len() > 0 && p.last() == '/' {
        without_trailing_separators(p.drop_last())
    } else {
        p
    }
}

/// Whether `p` ends with a segment that is a single `.`: such a segment names
/// the directory it stands in and adds nothing to a path.
pub open spec fn ends_with_dot_segment(p: Seq<char>) -> bool {
    p.len() > 0 && p.last() == '.' && (p.len() == 1 || p[p.len() - 2] == '/')
}

/// `p` without what it ends with to no effect: separators and `.` segments.
pub open spec fn without_trailing_blanks(p: Seq<char>) -> Seq<char>
    decreases p.len(),
{
    if p.len() > 0 && (p.last() == '/' || ends_with_dot_segment(p)) {
        without_trailing_blanks(p.drop_last())
    } else {
        p
    }
}

/// Where the last segment of `p` begins: just behind the last separator, or 0.
pub open spec fn last_segment_start(p: Seq<char>) -> int
    decreases p.len(),
{
    if p.len() == 0 {
        0
    } else if p.last() == '/' {
        p.len() as int
    } else {
        last_segment_start(p.drop_last())
    }
}

/// The directory that holds `p`, if `p` has a directory component.
///
/// Separators and `.` segments at the end of `p` do not count. What is left
/// must hold a separator; the parent is what stands before the last one,
/// again without separators and `.` segments at its end. Where nothing is
/// left of it, the parent is `/` for a path that begins with a separator, and
/// there is none for any other. Segments `..` are segments like any other.
pub open spec fn parent_of(p: Seq<char>) -> Option<Seq<char>> {
    let t = without_trailing_blanks(p);
    let cut = last_segment_start(t);
    if cut == 0 {
        None
    } else {
        let dir = without_trailing_blanks(t.take(cut));
        if dir.len() > 0 {
            Some(dir)
        } else if p[0] == '/' {
            Some(seq!['/'])
        } else {
            None
        }
    }
}

proof fn lemma_squeezed_shape(v: Seq<char>)
    ensures
        squeezed(v).len() > 0,
        squeezed(v)[0] == '/',
        forall|i: int|
            0 <= i < squeezed(v).len() - 1 ==> !(squeezed(v)[i] == '/' && #[trigger] squeezed(v)[i
                + 1] == '/'),
    decreases v.len(),
{
    if v.len() > 0 {
        lemma_squeezed_shape(v.drop_last());
    }
}

/// Normalizing gives a root in normal shape.
pub proof fn lemma_normalized_root_is_normalized(v: Seq<char>)
    ensures
        is_normalized_root(normalized_root(v)),
{
    lemma_squeezed_shape(v);
}

proof fn lemma_squeezed_prefix(r: Seq<char>, n: int)
    requires
        is_normalized_root(r),
        0 <= n <= r.len(),
    ensures
        squeezed(r.take(n)) == if n == 0 { seq!['/'] } else { r.take(n) },
    decreases n,
{
    if n > 0 {
        lemma_squeezed_prefix(r, n - 1);
        assert(r.take(n).drop_last() =~= r.take(n - 1));
        if n == 1 {
            assert(r.take(1) =~= seq!['/']);
        } else {
            assert(r.take(n - 1).last() == r[n - 2]);
            assert(r.take(n).last() == r[n - 2 + 1]);
            assert(r.take(n - 1).push(r.take(n).last()) =~= r.take(n));
        }
    }
}

/// A root in normal shape is left as it is.
pub proof fn lemma_normalized_root_is_fixed(r: Seq<char>)
    requires
        is_normalized_root(r),
    ensures
        normalized_root(r) == r,
{
    lemma_squeezed_prefix(r, r.len() as int);
    assert(r.take(r.len() as int) =~= r);
}

/// Taking the root off a path that was put below it gives the path back.
pub proof fn lemma_rel_path_of_rooted_abs_path(root: Seq<char>, path: Seq<char>)
    requires
        is_normalized_root(root),
        is_relative(path),
    ensures
        is_rooted(root, rooted_abs_path(root, path)),
        rel_path(root, rooted_abs_path(root, path)) == path,
{
    assert(leading_separators(path) == 0);
    assert(path.skip(0) =~= path);
    let abs = root + path;
    assert(abs[0] == root[0]);
    assert(abs.skip(root.len() as int) =~= path);
}

/// Turns `v` into a root in normal shape.
pub fn normalize_root(v: &str) -> (r: String)
    ensures
        r@ == normalized_root(v@),
        is_normalized_root(r@),
{
    let cs = chars_of(v);
    let mut out = String::new();
    out.push('/');
    let mut ends_with_separator = true;
    let mut i: usize = 0;
    while i < cs.len()
        invariant
            i <= cs.len(),
            out@ == squeezed(cs@.take(i as int)),
            out@.len() > 0,
            ends_with_separator == (out@.last() == '/'),
        decreases cs.len() - i,
    {
        let c = cs[i];
        proof {
            assert(cs@.take(i + 1).drop_last() =~= cs@.take(i as int));
            assert(cs@.take(i + 1).last() == c);
        }
        if c == '/' {
            if !ends_with_separator {
                out.push('/');
                ends_with_separator = true;
            }
        } else {
            out.push(c);
            ends_with_separator = false;
        }
        i += 1;
    }
    assert(cs@.take(cs.len() as int) =~= cs@);
    if !ends_with_separator {
        out.push('/');
    }
    proof {
        lemma_normalized_root_is_normalized(v@);
    }
    out
}

proof fn lemma_leading_separators_skip(p: Seq<char>, k: int)
    requires
        0 <= k <= p.len(),
        forall|j: int| 0 <= j < k ==> p[j] == '/',
    ensures
        leading_separators(p) == k + leading_separators(p.skip(k)),
    decreases k,
{
    if k > 0 {
        assert(p.drop_first() =~= p.skip(1));
        assert(p.skip(1).skip(k - 1) =~= p.skip(k));
        lemma_leading_separators_skip(p.skip(1), k - 1);
    } else {
        assert(p.skip(0) =~= p);
    }
}

/// Puts `path` below `root`. Separators at the head of `path` are dropped, so
/// that a root in normal shape is followed by exactly one separator-free
/// start; `/` and the empty path both name the root itself.
pub fn build_rooted_abs_path(root: &str, path: &str) -> (r: String)
    ensures
        r@ == rooted_abs_path(root@, path@),
{
    let cs = chars_of(path);
    let mut k: usize = 0;
    while k < cs.len() && cs[k] == '/'
        invariant
            k <= cs.len(),
            forall|j: int| 0 <= j < k ==> cs@[j] == '/',
        decreases cs.len() - k,
    {
        k += 1;
    }
    proof {
        lemma_leading_separators_skip(cs@, k as int);
        assert(leading_separators(cs@.skip(k as int)) == 0);
        assert(cs@.subrange(k as int, cs.len() as int) =~= cs@.skip(k as int));
    }
    let mut out = root.to_string();
    let tail = text_of(&cs, k, cs.len());
    out.append(tail.as_str());
    out
}

/// Whether `path` ends with a separator, as the name of a directory does.
pub fn ends_with_separator(path: &str) -> (r: bool)
    ensures
        r == (path@.len() > 0 && path@.last() == '/'),
{
    let cs = chars_of(path);
    cs.len() > 0 && cs[cs.len() - 1] == '/'
}

/// Whether `part`, without its first `skip` characters, is what `whole` begins with.
fn matches_at(part: &Vec<char>, whole: &Vec<char>, skip: usize) -> (r: bool)
    requires
        skip <= part.len(),
    ensures
        r == part@.skip(skip as int).is_prefix_of(whole@),
{
    let n = part.len() - skip;
    if n > whole.len() {
        return false;
    }
    let mut i: usize = 0;
    while i < n
        invariant
            skip <= part.len(),
            n == part.len() - skip,
            n <= whole.len(),
            i <= n,
            forall|j: int| 0 <= j < i ==> part@[skip + j] == whole@[j],
        decreases n - i,
    {
        if part[skip + i] != whole[i] {
            assert(part@.skip(skip as int)[i as int] != whole@[i as int]);
            return false;
        }
        i += 1;
    }
    assert(part@.skip(skip as int) =~= whole@.subrange(0, n as int));
    true
}

/// Whether `path` lies below `root`, in either of the two forms that
/// [`is_rooted`] describes.
pub fn starts_with_root(root: &str, path: &str) -> (r: bool)
    ensures
        r == is_rooted(root@, path@),
{
    let rs = chars_of(root);
    let ps = chars_of(path);
    if ps.len() > 0 && ps[0] == '/' {
        proof {
            assert(rs@.skip(0) =~= rs@);
        }
        matches_at(&rs, &ps, 0)
    } else if rs.len() == 0 {
        false
    } else {
        proof {
            assert(rs@.drop_first() =~= rs@.skip(1));
        }
        matches_at(&rs, &ps, 1)
    }
}

/// Takes the root off `path`.
pub fn build_rel_path(root: &str, path: &str) -> (r: String)
    requires
        is_rooted(root@, path@),
    ensures
        r@ == rel_path(root@, path@),
{
    let rs = chars_of(root);
    let ps = chars_of(path);
    let from: usize = if ps.len() > 0 && ps[0] == '/' {
        rs.len()
    } else {
        rs.len() - 1
    };
    proof {
        assert(ps@.subrange(from as int, ps.len() as int) =~= ps@.skip(from as int));
    }
    text_of(&ps, from, ps.len())
}

proof fn lemma_last_segment_start(p: Seq<char>, cut: int)
    requires
        0 <= cut <= p.len(),
        forall|j: int| cut <= j < p.len() ==> p[j] != '/',
        cut == 0 || p[cut - 1] == '/',
    ensures
        last_segment_start(p) == cut,
    decreases p.len() - cut,
{
    if cut < p.len() {
        lemma_last_segment_start(p.drop_last(), cut);
    }
}

/// Whether the first `end` characters of `cs` end with a separator or with a
/// `.` segment.
fn ends_blank(cs: &Vec<char>, end: usize) -> (r: bool)
    requires
        end <= cs.len(),
    ensures
        r == (end > 0 && (cs@.take(end as int).last() == '/' || ends_with_dot_segment(
            cs@.take(end as int),
        ))),
{
    if end == 0 {
        false
    } else if cs[end - 1] == '/' {
        true
    } else {
        cs[end - 1] == '.' && (end == 1 || cs[end - 2] == '/')
    }
}

/// How many of the first `end` characters of `cs` are left once the separators
/// and `.` segments at their end are taken off.
fn trim_blanks(cs: &Vec<char>, end: usize) -> (r: usize)
    requires
        end <= cs.len(),
    ensures
        r <= end,
        cs@.take(r as int) == without_trailing_blanks(cs@.take(end as int)),
{
    let mut stop: usize = end;
    while ends_blank(cs, stop)
        invariant
            stop <= end <= cs.len(),
            without_trailing_blanks(cs@.take(end as int)) == without_trailing_blanks(
                cs@.take(stop as int),
            ),
        decreases stop,
    {
        proof {
            assert(cs@.take(stop as int).drop_last() =~= cs@.take(stop - 1));
        }
        stop -= 1;
    }
    stop
}

/// The directory that holds `path`, or `None` where `path` has no directory
/// component: the empty path, one made of separators and `.` segments only,
/// and one whose last segment has nothing but such before it and does not
/// begin with a separator. See [`parent_of`].
pub fn get_parent(path: &str) -> (r: Option<String>)
    ensures
        r is Some == parent_of(path@) is Some,
        r is Some ==> r.unwrap()@ == parent_of(path@).unwrap(),
{
    let cs = chars_of(path);
    assert(cs@.take(cs.len() as int) =~= cs@);
    let end = trim_blanks(&cs, cs.len());
    let mut cut: usize = end;
    while cut > 0 && cs[cut - 1] != '/'
        invariant
            cut <= end <= cs.len(),
            forall|j: int| cut <= j < end ==> cs@[j] != '/',
        decreases cut,
    {
        cut -= 1;
    }
    proof {
        lemma_last_segment_start(cs@.take(end as int), cut as int);
    }
    if cut == 0 {
        return None;
    }
    proof {
        assert(cs@.take(end as int).take(cut as int) =~= cs@.take(cut as int));
    }
    let stop = trim_blanks(&cs, cut);
    if stop > 0 {
        proof {
            assert(cs@.take(stop as int) =~= cs@.subrange(0, stop as int));
        }
        Some(text_of(&cs, 0, stop))
    } else if cs[0] == '/' {
        let mut out = String::new();
        out.push('/');
        assert(out@ =~= seq!['/']);
        Some(out)
    } else {
        None
    }
}

} // verus!
