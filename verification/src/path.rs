//! Paths as text, joined and taken apart the way `std::path` does on Unix.
//!
//! A path is held as its text. Joining follows `PathBuf::push`: an absolute
//! component replaces the base, and a separator is added only where the base
//! does not already end in one. The parent of a path is taken for paths in
//! normal form (no `.` components), which is how the paths handed to this
//! library look: directories reported by the system and paths built here.
use vstd::prelude::*;
use crate::text::{chars_of, concat, owned, slice_string};

verus! {

/// `PathBuf::push` (Unix): `comp` appended to `base`.
pub open spec fn path_join(base: Seq<char>, comp: Seq<char>) -> Seq<char> {
    if comp.len() > 0 && comp[0] == '/' {
        comp
    } else if base.len() == 0 {
        comp
    } else if base.last() == '/' {
        base + comp
    } else {
        base + seq!['/'] + comp
    }
}

/// Joining a relative, non-empty component onto a directory gives a path
/// that begins with the directory and ends with the component.
pub proof fn law_join_extends(base: Seq<char>, comp: Seq<char>)
    requires
        comp.len() > 0,
        comp[0] != '/',
    ensures
        base.is_prefix_of(path_join(base, comp)),
        comp.is_suffix_of(path_join(base, comp)),
{
    let r = path_join(base, comp);
    if base.len() == 0 {
        assert(r =~= comp);
    } else if base.last() == '/' {
        assert(r.subrange(0, base.len() as int) =~= base);
        assert(r.subrange(r.len() - comp.len(), r.len() as int) =~= comp);
    } else {
        assert(r.subrange(0, base.len() as int) =~= base);
        assert(r.subrange(r.len() - comp.len(), r.len() as int) =~= comp);
    }
}

/// A directory that begins a path begins every path under that path's
/// relative, non-empty components.
pub proof fn lemma_prefix_through_join(dir: Seq<char>, base: Seq<char>, comp: Seq<char>)
    requires
        dir.is_prefix_of(base),
        comp.len() > 0,
        comp[0] != '/',
    ensures
        dir.is_prefix_of(path_join(base, comp)),
{
    law_join_extends(base, comp);
    let r = path_join(base, comp);
    assert(r.subrange(0, dir.len() as int) =~= r.subrange(0, base.len() as int).subrange(0, dir.len() as int));
}

/// `base.join(comp)`.
pub fn join(base: &str, comp: &str) -> (r: String)
    ensures
        r@ == path_join(base@, comp@),
{
    let b = chars_of(base);
    let c = chars_of(comp);
    if c.len() > 0 && c[0] == '/' {
        owned(comp)
    } else if b.len() == 0 {
        owned(comp)
    } else if b[b.len() - 1] == '/' {
        concat(base, comp)
    } else {
        let with_sep = concat(base, "/");
        proof {
            reveal_strlit("/");
        }
        concat(with_sep.as_str(), comp)
    }
}

/// `p` with its trailing separators removed (a path made only of
/// separators keeps one).
pub open spec fn strip_trailing_seps(p: Seq<char>) -> Seq<char>
    decreases p.len(),
{
    if p.len() > 1 && p.last() == '/' {
        strip_trailing_seps(p.drop_last())
    } else {
        p
    }
}

/// Index just past the last separator in `p`, or 0 when there is none.
pub open spec fn after_last_sep(p: Seq<char>) -> int
    decreases p.len(),
{
    if p.len() == 0 {
        0
    } else if p.last() == '/' {
        p.len() as int
    } else {
        after_last_sep(p.drop_last())
    }
}

/// `Path::file_name` for a path in normal form: the last component, unless
/// the path is empty, is the root, or ends in `..`.
pub open spec fn path_file_name(p: Seq<char>) -> Option<Seq<char>> {
    let t = strip_trailing_seps(p);
    let name = t.subrange(after_last_sep(t), t.len() as int);
    if name.len() == 0 || name == seq!['.', '.'] {
        None
    } else {
        Some(name)
    }
}

/// `Path::parent` for a path in normal form: the path without its last
/// component, or `None` for the empty path and the root.
pub open spec fn path_parent(p: Seq<char>) -> Option<Seq<char>> {
    let t = strip_trailing_seps(p);
    if t.len() == 0 || t == seq!['/'] {
        None
    } else {
        let cut = after_last_sep(t);
        if cut == 0 {
            Some(Seq::<char>::empty())
        } else {
            Some(strip_trailing_seps(t.subrange(0, cut)))
        }
    }
}

/// Length of `strip_trailing_seps(p[..n])`.
fn strip_len(v: &[char], n: usize) -> (k: usize)
    requires
        n <= v@.len(),
    ensures
        k <= n,
        v@.subrange(0, k as int) == strip_trailing_seps(v@.subrange(0, n as int)),
    decreases n,
{
    if n > 1 && v[n - 1] == '/' {
        assert(v@.subrange(0, n as int).drop_last() =~= v@.subrange(0, n - 1));
        strip_len(v, n - 1)
    } else {
        n
    }
}

/// `after_last_sep(p[..n])`.
fn last_sep_end(v: &[char], n: usize) -> (k: usize)
    requires
        n <= v@.len(),
    ensures
        k <= n,
        k == after_last_sep(v@.subrange(0, n as int)),
    decreases n,
{
    if n == 0 {
        0
    } else if v[n - 1] == '/' {
        n
    } else {
        assert(v@.subrange(0, n as int).drop_last() =~= v@.subrange(0, n - 1));
        last_sep_end(v, n - 1)
    }
}

/// `Path::file_name`, as text.
pub fn file_name(p: &str) -> (r: Option<String>)
    ensures
        r matches Some(s) ==> path_file_name(p@) == Some(s@),
        r is None ==> path_file_name(p@) is None,
{
    let v = chars_of(p);
    let n = v.len();
    assert(v@.subrange(0, n as int) =~= v@);
    let t = strip_len(v.as_slice(), n);
    let cut = last_sep_end(v.as_slice(), t);
    proof {
        let tt = v@.subrange(0, t as int);
        assert(tt.subrange(cut as int, tt.len() as int) =~= v@.subrange(cut as int, t as int));
    }
    let name = slice_string(v.as_slice(), cut, t);
    if t - cut == 0 || (t - cut == 2 && v[cut] == '.' && v[cut + 1] == '.') {
        proof {
            if t - cut == 2 {
                assert(name@ =~= seq!['.', '.']);
            }
        }
        None
    } else {
        proof {
            if name@ == seq!['.', '.'] {
                assert(name@[0] == '.' && name@[1] == '.');
            }
        }
        Some(name)
    }
}

/// `Path::parent`, as text.
pub fn parent(p: &str) -> (r: Option<String>)
    ensures
        r matches Some(s) ==> path_parent(p@) == Some(s@),
        r is None ==> path_parent(p@) is None,
{
    let v = chars_of(p);
    let n = v.len();
    assert(v@.subrange(0, n as int) =~= v@);
    let t = strip_len(v.as_slice(), n);
    let ghost tt = v@.subrange(0, t as int);
    if t == 0 || (t == 1 && v[0] == '/') {
        proof {
            if t == 1 {
                assert(tt =~= seq!['/']);
            }
        }
        return None;
    }
    proof {
        if tt == seq!['/'] {
            assert(tt[0] == '/');
        }
    }
    let cut = last_sep_end(v.as_slice(), t);
    if cut == 0 {
        return Some(String::new());
    }
    let k = strip_len(v.as_slice(), cut);
    proof {
        assert(tt.subrange(0, cut as int) =~= v@.subrange(0, cut as int));
    }
    Some(slice_string(v.as_slice(), 0, k))
}

} // verus!
