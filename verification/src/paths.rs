//! Unix path text: absoluteness, `..` components and joining, as
//! `std::path::Path` defines them for the relative, single-component joins
//! this crate performs.
use vstd::prelude::*;

use crate::text::{copy_chars, push_chars, str_chars, string_from_chars};

verus! {

/// A Unix path is absolute iff it starts at the root.
pub open spec fn is_absolute(p: Seq<char>) -> bool {
    p.len() > 0 && p[0] == '/'
}

/// `p[i..j]` is a whole component: bounded by the ends or by separators.
pub open spec fn is_component(p: Seq<char>, i: int, j: int) -> bool {
    0 <= i <= j <= p.len() && (i == 0 || p[i - 1] == '/') && (j == p.len() || p[j] == '/')
}

/// `p` has a `..` (parent-directory) component.
pub open spec fn has_parent_dir(p: Seq<char>) -> bool {
    exists|i: int| #[trigger] is_component(p, i, i + 2) && p[i] == '.' && p[i + 1] == '.'
}

/// `Path::join` of a relative component: the component is appended after a
/// separator, unless `base` is empty or already ends in one.
pub open spec fn join_path(base: Seq<char>, comp: Seq<char>) -> Seq<char> {
    if base.len() == 0 || base.last() == '/' {
        base + comp
    } else {
        base + seq!['/'] + comp
    }
}

/// Whether `p` contains a `..` component.
pub fn contains_parent_dir(p: &[char]) -> (r: bool)
    ensures
        r == has_parent_dir(p@),
{
    let n = p.len();
    let mut i: usize = 0;
    while i < n
        invariant
            i <= n,
            n == p@.len(),
            forall|k: int|
                0 <= k < i ==> !(#[trigger] is_component(p@, k, k + 2) && p@[k] == '.' && p@[k
                    + 1] == '.'),
        decreases n - i,
    {
        if n - i >= 2 && (i == 0 || p[i - 1] == '/') && (i + 2 == n || p[i + 2] == '/') && p[i]
            == '.' && p[i + 1] == '.' {
            assert(is_component(p@, i as int, i + 2));
            return true;
        }
        i = i + 1;
    }
    assert forall|k: int| #[trigger] is_component(p@, k, k + 2) implies !(p@[k] == '.' && p@[k
        + 1] == '.') by {
        assert(0 <= k < n);
    }
    false
}

/// `true` iff `p` is absolute.
pub fn path_is_absolute(p: &[char]) -> (r: bool)
    ensures
        r == is_absolute(p@),
{
    p.len() > 0 && p[0] == '/'
}

/// Appends component `comp` to `base` as `Path::join` does.
pub fn join(base: &[char], comp: &str) -> (r: Vec<char>)
    ensures
        r@ == join_path(base@, comp@),
{
    let mut out: Vec<char> = Vec::new();
    let b = copy_chars(base);
    push_chars(&mut out, &b);
    if !(base.len() == 0 || base[base.len() - 1] == '/') {
        out.push('/');
    }
    let c = str_chars(comp);
    push_chars(&mut out, &c);
    assert(b@ == base@);
    out
}

/// `base` joined with each of `comps`, as an owned string.
pub fn join_all(base: &[char], comps: &[&str]) -> (r: String)
    ensures
        r@ == join_seq(base@, comps@.map_values(|c: &str| c@)),
{
    let mut cur: Vec<char> = copy_chars(base);
    let mut i: usize = 0;
    while i < comps.len()
        invariant
            i <= comps.len(),
            cur@ == join_seq(base@, comps@.map_values(|c: &str| c@).take(i as int)),
        decreases comps.len() - i,
    {
        let next = join(cur.as_slice(), comps[i]);
        proof {
            let all = comps@.map_values(|c: &str| c@);
            assert(all.take(i + 1).drop_last() =~= all.take(i as int));
        }
        cur = next;
        i = i + 1;
    }
    assert(comps@.map_values(|c: &str| c@).take(i as int) =~= comps@.map_values(|c: &str| c@));
    string_from_chars(&cur)
}

/// `base` joined with each component in turn.
pub open spec fn join_seq(base: Seq<char>, comps: Seq<Seq<char>>) -> Seq<char>
    decreases comps.len(),
{
    if comps.len() == 0 {
        base
    } else {
        join_path(join_seq(base, comps.drop_last()), comps.last())
    }
}

} // verus!
