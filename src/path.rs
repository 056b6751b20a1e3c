//! Paths as strings with Unix semantics: joining, absoluteness, trailing
//! separators and lexical containment under a root.
use vstd::prelude::*;

verus! {

pub open spec fn is_absolute_spec(p: Seq<char>) -> bool {
    p.len() > 0 && p[0] == '/'
}

/// Joining as a Unix path: an absolute `rel` replaces `base`; otherwise a
/// separator is put between the two unless `base` is empty or already ends
/// with one.
pub open spec fn join_spec(base: Seq<char>, rel: Seq<char>) -> Seq<char> {
    if is_absolute_spec(rel) {
        rel
    } else if base.len() == 0 || base.last() == '/' {
        base + rel
    } else {
        base + seq!['/'] + rel
    }
}

/// `p` without any separators at its end.
pub open spec fn trim_trailing_slashes_spec(p: Seq<char>) -> Seq<char>
    decreases p.len(),
{
    if p.len() > 0 && p.last() == '/' {
        trim_trailing_slashes_spec(p.drop_last())
    } else {
        p
    }
}

/// A `..` component starts at index `i` of `p`.
pub open spec fn parent_component_at(p: Seq<char>, i: int) -> bool {
    &&& 0 <= i
    &&& i + 2 <= p.len()
    &&& p[i] == '.'
    &&& p[i + 1] == '.'
    &&& (i == 0 || p[i - 1] == '/')
    &&& (i + 2 == p.len() || p[i + 2] == '/')
}

/// `p` has a `..` component, which could lead out of the directory it is
/// joined to.
pub open spec fn has_parent_component(p: Seq<char>) -> bool {
    exists|i: int| parent_component_at(p, i)
}

/// `p` names `root` or something below it, without leaving it through a `..`
/// component.
pub open spec fn lexically_within(root: Seq<char>, p: Seq<char>) -> bool {
    exists|rest: Seq<char>|
        #![trigger join_spec(root, rest)]
        !is_absolute_spec(rest) && !has_parent_component(rest) && p == join_spec(root, rest)
}

/// Whether `p` starts at the root.
pub fn is_absolute(p: &str) -> (r: bool)
    ensures
        r == is_absolute_spec(p@),
{
    p.unicode_len() > 0 && p.get_char(0) == '/'
}

/// Whether `p` is relative, that is not absolute.
pub fn is_relative(p: &str) -> (r: bool)
    ensures
        r == !is_absolute_spec(p@),
{
    !is_absolute(p)
}

/// `rel` joined onto `base`.
pub fn join(base: &str, rel: &str) -> (r: String)
    ensures
        r@ == join_spec(base@, rel@),
{
    if is_absolute(rel) {
        return rel.to_owned();
    }
    let n = base.unicode_len();
    let mut out = base.to_owned();
    if n > 0 && base.get_char(n - 1) != '/' {
        proof {
            reveal_strlit("/");
        }
        out.append("/");
    }
    out.append(rel);
    out
}

/// `p` with one separator added at its end.
pub fn ensure_trailing_slash(p: &str) -> (r: String)
    ensures
        r@ == p@.push('/'),
{
    proof {
        reveal_strlit("/");
    }
    let mut out = p.to_owned();
    out.append("/");
    assert(out@ =~= p@.push('/'));
    out
}

/// `p` with every separator at its end removed.
pub fn ensure_trimmed_trailing_slash(p: &str) -> (r: String)
    ensures
        r@ == trim_trailing_slashes_spec(p@),
{
    let mut n = p.unicode_len();
    assert(p@.subrange(0, n as int) == p@);
    while n > 0 && p.get_char(n - 1) == '/'
        invariant
            n <= p@.len(),
            trim_trailing_slashes_spec(p@.subrange(0, n as int)) == trim_trailing_slashes_spec(
                p@,
            ),
        decreases n,
    {
        assert(p@.subrange(0, n as int).drop_last() == p@.subrange(0, n - 1));
        n = n - 1;
    }
    p.substring_char(0, n).to_owned()
}

/// Whether `p` has a `..` component.
pub fn contains_parent_component(p: &str) -> (r: bool)
    ensures
        r == has_parent_component(p@),
{
    let n = p.unicode_len();
    let mut i: usize = 0;
    while i < n
        invariant
            n == p@.len(),
            i <= n,
            forall|j: int| 0 <= j < i ==> !parent_component_at(p@, j),
        decreases n - i,
    {
        if n - i >= 2 && p.get_char(i) == '.' && p.get_char(i + 1) == '.' && (i == 0
            || p.get_char(i - 1) == '/') && (i + 2 == n || p.get_char(i + 2) == '/') {
            assert(parent_component_at(p@, i as int));
            return true;
        }
        i = i + 1;
    }
    false
}

} // verus!
