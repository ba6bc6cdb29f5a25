//! The command search path as an ordered list of directories, and its
//! idempotent extension by one directory.
use vstd::prelude::*;

use crate::text::str_eq;

verus! {

/// The directories of a search path, as character sequences.
pub open spec fn dir_views(paths: Seq<String>) -> Seq<Seq<char>> {
    paths.map_values(|p: String| p@)
}

/// The search path after `dir` is made present: unchanged when it already
/// holds `dir`, else with `dir` appended.
pub open spec fn path_with(paths: Seq<Seq<char>>, dir: Seq<char>) -> Seq<Seq<char>> {
    if paths.contains(dir) {
        paths
    } else {
        paths.push(dir)
    }
}

/// How often `dir` occurs in a search path.
pub open spec fn occurrences(paths: Seq<Seq<char>>, dir: Seq<char>) -> nat {
    paths.filter(|p: Seq<char>| p == dir).len()
}

/// Returns the search path with `dir` appended, unless it already holds it.
pub fn update_path(paths: &Vec<String>, dir: &str) -> (r: Vec<String>)
    ensures
        dir_views(r@) == path_with(dir_views(paths@), dir@),
{
    let mut r: Vec<String> = Vec::new();
    let mut present = false;
    let mut i: usize = 0;
    while i < paths.len()
        invariant
            i <= paths@.len(),
            dir_views(r@) == dir_views(paths@).subrange(0, i as int),
            present == dir_views(paths@).subrange(0, i as int).contains(dir@),
        decreases paths@.len() - i,
    {
        let p = paths[i].clone();
        if str_eq(p.as_str(), dir) {
            present = true;
        }
        r.push(p);
        proof {
            let prev = dir_views(paths@).subrange(0, i as int);
            let next = dir_views(paths@).subrange(0, i + 1);
            assert(next =~= prev.push(paths@[i as int]@));
            assert(next.contains(dir@) == (prev.contains(dir@) || paths@[i as int]@ == dir@)) by {
                if paths@[i as int]@ == dir@ {
                    assert(next[i as int] == dir@);
                }
                if prev.contains(dir@) {
                    let k = choose|k: int| 0 <= k < prev.len() && prev[k] == dir@;
                    assert(next[k] == dir@);
                }
                if next.contains(dir@) {
                    let k = choose|k: int| 0 <= k < next.len() && next[k] == dir@;
                    if k < i {
                        assert(prev[k] == dir@);
                    }
                }
            }
            assert(dir_views(r@) =~= next);
        }
        i = i + 1;
    }
    assert(dir_views(paths@).subrange(0, paths@.len() as int) =~= dir_views(paths@));
    if !present {
        r.push(dir.to_owned());
        assert(dir_views(r@) =~= dir_views(paths@).push(dir@));
    }
    r
}

proof fn lemma_occurrences_push(paths: Seq<Seq<char>>, dir: Seq<char>, x: Seq<char>)
    ensures
        occurrences(paths.push(x), dir) == occurrences(paths, dir) + if x == dir {
            1nat
        } else {
            0nat
        },
{
    reveal(Seq::filter);
    assert(paths.push(x).drop_last() =~= paths);
}

proof fn lemma_occurrences_absent(paths: Seq<Seq<char>>, dir: Seq<char>)
    requires
        !paths.contains(dir),
    ensures
        occurrences(paths, dir) == 0,
    decreases paths.len(),
{
    if paths.len() > 0 {
        let init = paths.drop_last();
        assert(paths =~= init.push(paths.last()));
        assert(!init.contains(dir)) by {
            if init.contains(dir) {
                let k = choose|k: int| 0 <= k < init.len() && init[k] == dir;
                assert(paths[k] == dir);
            }
        }
        lemma_occurrences_absent(init, dir);
        assert(paths.last() != dir) by {
            if paths.last() == dir {
                assert(paths[paths.len() - 1] == dir);
            }
        }
        lemma_occurrences_push(init, dir, paths.last());
    }
}

proof fn lemma_occurrences_present(paths: Seq<Seq<char>>, dir: Seq<char>)
    requires
        paths.contains(dir),
    ensures
        occurrences(paths, dir) >= 1,
    decreases paths.len(),
{
    let init = paths.drop_last();
    assert(paths =~= init.push(paths.last()));
    lemma_occurrences_push(init, dir, paths.last());
    if paths.last() != dir {
        let k = choose|k: int| 0 <= k < paths.len() && paths[k] == dir;
        assert(init[k] == dir);
        lemma_occurrences_present(init, dir);
    }
}

/// Making a directory present twice gives the same search path as doing it
/// once, and that path holds the directory exactly once, provided that the
/// path did not already hold it more than once.
pub proof fn lemma_update_path_idempotent(paths: Seq<Seq<char>>, dir: Seq<char>)
    requires
        occurrences(paths, dir) <= 1,
    ensures
        path_with(path_with(paths, dir), dir) == path_with(paths, dir),
        occurrences(path_with(paths, dir), dir) == 1,
{
    if paths.contains(dir) {
        lemma_occurrences_present(paths, dir);
    } else {
        lemma_occurrences_absent(paths, dir);
        lemma_occurrences_push(paths, dir, dir);
        assert(paths.push(dir)[paths.len() as int] == dir);
    }
}

} // verus!
