//! Walking up from a directory to the nearest one holding a given file.
use vstd::prelude::*;
use crate::path::{after_last_sep, join, parent, path_join, path_parent, strip_trailing_seps};
use crate::text::owned;

verus! {

/// The `n`-th ancestor of a path: the path itself, its parent, its
/// grandparent, ... (`None` past the root).
pub open spec fn nth_ancestor(p: Seq<char>, n: nat) -> Option<Seq<char>>
    decreases n,
{
    if n == 0 {
        Some(p)
    } else {
        match nth_ancestor(p, (n - 1) as nat) {
            Some(q) => path_parent(q),
            None => None,
        }
    }
}

proof fn lemma_strip_shorter(p: Seq<char>)
    ensures
        strip_trailing_seps(p).len() <= p.len(),
        p.len() > 0 ==> strip_trailing_seps(p).len() > 0,
        strip_trailing_seps(p).len() > 1 ==> strip_trailing_seps(p).last() != '/',
        strip_trailing_seps(p).len() == 1 && p.len() > 0 ==> strip_trailing_seps(p)[0] == p[0],
    decreases p.len(),
{
    if p.len() > 1 && p.last() == '/' {
        lemma_strip_shorter(p.drop_last());
    }
}

proof fn lemma_after_last_sep(p: Seq<char>)
    ensures
        0 <= after_last_sep(p) <= p.len(),
        p.len() > 0 && p.last() != '/' ==> after_last_sep(p) < p.len(),
    decreases p.len(),
{
    if p.len() > 0 && p.last() != '/' {
        lemma_after_last_sep(p.drop_last());
    }
}

/// A parent is shorter than its child.
pub proof fn lemma_parent_shorter(p: Seq<char>)
    ensures
        path_parent(p) matches Some(q) ==> q.len() < p.len(),
{
    let t = strip_trailing_seps(p);
    lemma_strip_shorter(p);
    if t.len() > 0 && t != seq!['/'] {
        if t.len() == 1 {
            assert(t[0] != '/') by {
                if t[0] == '/' {
                    assert(t =~= seq!['/']);
                }
            }
        }
        assert(t.last() != '/');
        lemma_after_last_sep(t);
        let cut = after_last_sep(t);
        if cut != 0 {
            lemma_strip_shorter(t.subrange(0, cut));
        }
    }
}

/// The ancestors of `start`, nearest first, up to the first one that holds
/// a file named `file_name` according to `is_file` (which is asked about the
/// path `<ancestor>/<file_name>`), whose path is returned; `None` when no
/// ancestor holds one.
pub fn find_upwards<F: Fn(&str) -> bool>(start: &str, file_name: &str, is_file: F) -> (r: Option<
    String,
>)
    requires
        forall|s: &str| #[trigger] is_file.requires((s,)),
    ensures
        r matches Some(d) ==> exists|n: nat|
            {
                &&& #[trigger] nth_ancestor(start@, n) == Some(d@)
                &&& exists|s: &str| s@ == path_join(d@, file_name@) && is_file.ensures((s,), true)
                &&& forall|m: nat|
                    m < n ==> (#[trigger] nth_ancestor(start@, m) matches Some(a) && exists|s: &str|
                        s@ == path_join(a, file_name@) && is_file.ensures((s,), false))
            },
        r is None ==> forall|m: nat|
            (#[trigger] nth_ancestor(start@, m) matches Some(a) ==> exists|s: &str|
                s@ == path_join(a, file_name@) && is_file.ensures((s,), false)),
{
    let mut current = owned(start);
    let ghost mut n: nat = 0;
    loop
        invariant
            forall|s: &str| #[trigger] is_file.requires((s,)),
            nth_ancestor(start@, n) == Some(current@),
            forall|m: nat|
                m < n ==> (#[trigger] nth_ancestor(start@, m) matches Some(a) && exists|s: &str|
                    s@ == path_join(a, file_name@) && is_file.ensures((s,), false)),
        decreases current@.len(),
    {
        let candidate = join(current.as_str(), file_name);
        let cand = candidate.as_str();
        let found = is_file(cand);
        if found {
            return Some(current);
        }
        proof {
            assert(cand@ == path_join(current@, file_name@));
        }
        match parent(current.as_str()) {
            Some(p) => {
                proof {
                    lemma_parent_shorter(current@);
                    assert(nth_ancestor(start@, n + 1) == Some(p@));
                    assert forall|m: nat| m < n + 1 implies (#[trigger] nth_ancestor(
                        start@,
                        m,
                    ) matches Some(a) && exists|s: &str|
                        s@ == path_join(a, file_name@) && is_file.ensures((s,), false)) by {
                        if m == n {
                            assert(is_file.ensures((cand,), false));
                        }
                    }
                    n = n + 1;
                }
                current = p;
            },
            None => {
                proof {
                    assert forall|m: nat| #[trigger] nth_ancestor(start@, m) is Some implies exists|
                        s: &str,
                    | s@ == path_join(nth_ancestor(start@, m).unwrap(), file_name@)
                        && is_file.ensures((s,), false) by {
                        if m > n {
                            lemma_ancestors_end(start@, n, m);
                        }
                        if m == n {
                            assert(is_file.ensures((cand,), false));
                        }
                    }
                }
                return None;
            },
        }
    }
}

/// Past an ancestor without a parent there are no more ancestors.
proof fn lemma_ancestors_end(p: Seq<char>, n: nat, m: nat)
    requires
        nth_ancestor(p, n) matches Some(q) && path_parent(q) is None,
        m > n,
    ensures
        nth_ancestor(p, m) is None,
    decreases m - n,
{
    if m > n + 1 {
        lemma_ancestors_end(p, n, (m - 1) as nat);
    }
}

} // verus!
