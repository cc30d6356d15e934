//! Project-root resolution.
//!
//! A directory is modelled as the sequence of its path components, root
//! first (the absolute path `/home/u/sentinel` is `["home", "u",
//! "sentinel"]`); its ancestors are the prefixes of that sequence,
//! nearest-first from the directory itself up to the filesystem root.
//! Whether the required subpath `<ancestor>/frontend/src-tauri` exists on
//! disk is an input: `subpath_exists[i]` answers it for the ancestor
//! `path[..=i]`, so the resolver itself is a pure function.
//!
//! Strategies, in strict priority order:
//! 1. the nearest ancestor whose final component is the project marker
//!    name and whose required subpath exists;
//! 2. if the path's string form contains the build-output marker
//!    (`frontend/src-tauri`, under either separator), the parent-of-parent
//!    of the nearest ancestor whose final component is the build directory
//!    name;
//! 3. otherwise the input directory itself, unchanged.

use vstd::prelude::*;

use crate::text::{spec_ends_with, spec_starts_with, str_ends_with, str_eq, str_starts_with};

verus! {

/// Ancestor `path[..=i]` is named for the project and has the required
/// subpath beneath it.
pub open spec fn primary_at(path: Seq<String>, ex: Seq<bool>, i: int) -> bool {
    path[i]@ == "sentinel"@ && ex[i]
}

/// Some ancestor satisfies the primary strategy.
pub open spec fn has_primary(path: Seq<String>, ex: Seq<bool>) -> bool {
    exists|i: int| 0 <= i < path.len() && primary_at(path, ex, i)
}

/// The nearest (deepest) ancestor index satisfying the primary strategy,
/// searching positions below `n`.
pub open spec fn last_primary(path: Seq<String>, ex: Seq<bool>, n: int) -> Option<int>
    decreases n,
{
    if n <= 0 {
        None
    } else if primary_at(path, ex, n - 1) {
        Some(n - 1)
    } else {
        last_primary(path, ex, n - 1)
    }
}

/// The path's string form contains the build-output marker: some component
/// boundary reads `...frontend/src-tauri...` (or the backslash form, which
/// componentizes identically).
pub open spec fn fallback_trigger(path: Seq<String>) -> bool {
    exists|j: int|
        0 <= j < path.len() - 1 && spec_ends_with(path[j]@, "frontend"@) && spec_starts_with(
            path[j + 1]@,
            "src-tauri"@,
        )
}

/// Ancestor `path[..=i]` is the conventional build directory.
pub open spec fn fallback_at(path: Seq<String>, i: int) -> bool {
    path[i]@ == "src-tauri"@
}

/// The nearest ancestor index named for the build directory that still has
/// a parent-of-parent, searching positions in `[1, n)`.
pub open spec fn last_fallback(path: Seq<String>, n: int) -> Option<int>
    decreases n,
{
    if n <= 1 {
        None
    } else if fallback_at(path, n - 1) {
        Some(n - 1)
    } else {
        last_fallback(path, n - 1)
    }
}

/// The resolved project root, as a prefix of the input components.
pub open spec fn spec_resolve(path: Seq<String>, ex: Seq<bool>) -> Seq<String> {
    match last_primary(path, ex, path.len() as int) {
        Some(i) => path.take(i + 1),
        None => if fallback_trigger(path) {
            match last_fallback(path, path.len() as int) {
                Some(i) => path.take(i - 1),
                None => path,
            }
        } else {
            path
        },
    }
}

/// A `Some` answer from `last_primary` is a primary match and is the
/// nearest one: no deeper ancestor below `n` matches. A `None` answer
/// means no position below `n` matches at all.
pub proof fn lemma_last_primary_nearest(path: Seq<String>, ex: Seq<bool>, n: int)
    ensures
        match last_primary(path, ex, n) {
            Some(i) => 0 <= i < n && primary_at(path, ex, i) && (forall|j: int|
                i < j < n ==> !primary_at(path, ex, j)),
            None => forall|j: int| 0 <= j < n ==> !primary_at(path, ex, j),
        },
    decreases n,
{
    if n > 0 {
        lemma_last_primary_nearest(path, ex, n - 1);
    }
}

/// The same, for the fallback search over positions in `[1, n)`.
pub proof fn lemma_last_fallback_nearest(path: Seq<String>, n: int)
    ensures
        match last_fallback(path, n) {
            Some(i) => 1 <= i < n && fallback_at(path, i) && (forall|j: int|
                i < j < n ==> !fallback_at(path, j)),
            None => forall|j: int| 1 <= j < n ==> !fallback_at(path, j),
        },
    decreases n,
{
    if n > 1 {
        lemma_last_fallback_nearest(path, n - 1);
    }
}

/// Resolution returns the nearest ancestor satisfying the primary
/// strategy, never a farther one: whichever ancestor matches with no
/// deeper match above it is the answer.
pub proof fn lemma_resolve_nearest_primary(path: Seq<String>, ex: Seq<bool>, i: int)
    requires
        0 <= i < path.len(),
        primary_at(path, ex, i),
        forall|j: int| i < j < path.len() ==> !primary_at(path, ex, j),
    ensures
        spec_resolve(path, ex) == path.take(i + 1),
{
    lemma_last_primary_nearest(path, ex, path.len() as int);
    match last_primary(path, ex, path.len() as int) {
        Some(k) => {
            if k < i {
                assert(!primary_at(path, ex, i));
            } else if k > i {
                assert(!primary_at(path, ex, k));
            }
        },
        None => {
            assert(!primary_at(path, ex, i));
        },
    }
}

/// An ancestor named for the project whose required subpath is absent
/// never decides the result: resolution with no primary match anywhere is
/// exactly the fallback chain, down to the identity answer.
pub proof fn lemma_marker_without_subpath_skipped(path: Seq<String>, ex: Seq<bool>)
    requires
        !has_primary(path, ex),
    ensures
        spec_resolve(path, ex) == (if fallback_trigger(path) {
            match last_fallback(path, path.len() as int) {
                Some(i) => path.take(i - 1),
                None => path,
            }
        } else {
            path
        }),
{
    lemma_last_primary_nearest(path, ex, path.len() as int);
    if last_primary(path, ex, path.len() as int) is Some {
        let i = last_primary(path, ex, path.len() as int)->Some_0;
        assert(primary_at(path, ex, i));
    }
}

/// When neither strategy matches, the input comes back unchanged.
pub proof fn lemma_identity_fallback(path: Seq<String>, ex: Seq<bool>)
    requires
        !has_primary(path, ex),
        !fallback_trigger(path),
    ensures
        spec_resolve(path, ex) == path,
{
    lemma_last_primary_nearest(path, ex, path.len() as int);
}

/// Copies the first `k` components of `path`.
fn prefix_components(path: &Vec<String>, k: usize) -> (r: Vec<String>)
    requires
        k <= path@.len(),
    ensures
        r@ == path@.take(k as int),
{
    let mut r: Vec<String> = Vec::new();
    for i in 0..k
        invariant
            k <= path@.len(),
            r@.len() == i,
            forall|t: int| 0 <= t < i ==> r@[t] == path@[t],
    {
        r.push(path[i].clone());
    }
    proof {
        assert(r@ =~= path@.take(k as int));
    }
    r
}

/// Whether the path's string form contains the build-output marker.
fn has_build_marker(path: &Vec<String>) -> (r: bool)
    ensures
        r == fallback_trigger(path@),
{
    let n = path.len();
    if n == 0 {
        return false;
    }
    let mut j: usize = 0;
    while j + 1 < n
        invariant
            n == path@.len(),
            j < n,
            forall|t: int|
                0 <= t < j ==> !(spec_ends_with(path@[t]@, "frontend"@) && spec_starts_with(
                    path@[t + 1]@,
                    "src-tauri"@,
                )),
        decreases n - j,
    {
        if str_ends_with(path[j].as_str(), "frontend") && str_starts_with(
            path[j + 1].as_str(),
            "src-tauri",
        ) {
            proof {
                assert(0 <= j < path@.len() - 1 && spec_ends_with(path@[j as int]@, "frontend"@)
                    && spec_starts_with(path@[j + 1]@, "src-tauri"@));
            }
            return true;
        }
        j = j + 1;
    }
    proof {
        if fallback_trigger(path@) {
            let t = choose|t: int|
                0 <= t < path@.len() - 1 && spec_ends_with(path@[t]@, "frontend"@)
                    && spec_starts_with(path@[t + 1]@, "src-tauri"@);
            assert(t < j);
        }
    }
    false
}

/// Resolves the project root for the directory whose components are
/// `path`, given for each ancestor `path[..=i]` whether the required
/// subpath exists beneath it (`subpath_exists[i]`). Never fails: with no
/// match under either strategy the input components come back unchanged.
pub fn resolve_project_root(path: &Vec<String>, subpath_exists: &Vec<bool>) -> (root: Vec<String>)
    requires
        path@.len() == subpath_exists@.len(),
    ensures
        root@ == spec_resolve(path@, subpath_exists@),
{
    let n = path.len();
    let mut i = n;
    while i > 0
        invariant
            n == path@.len(),
            n == subpath_exists@.len(),
            i <= n,
            last_primary(path@, subpath_exists@, n as int) == last_primary(
                path@,
                subpath_exists@,
                i as int,
            ),
        decreases i,
    {
        if str_eq(path[i - 1].as_str(), "sentinel") && subpath_exists[i - 1] {
            return prefix_components(path, i);
        }
        i = i - 1;
    }

    let triggered = has_build_marker(path);

    if triggered {
        let mut i = n;
        while i > 1
            invariant
                n == path@.len(),
                i <= n,
                last_fallback(path@, n as int) == last_fallback(path@, i as int),
                last_primary(path@, subpath_exists@, n as int) is None,
                fallback_trigger(path@),
            decreases i,
        {
            if str_eq(path[i - 1].as_str(), "src-tauri") {
                proof {
                    assert(fallback_at(path@, i - 1));
                    assert(last_fallback(path@, i as int) == Some(i - 1 as int));
                    assert(last_primary(path@, subpath_exists@, n as int) is None);
                }
                return prefix_components(path, i - 2);
            }
            i = i - 1;
        }
    }

    prefix_components(path, n)
}

/// The string form of a component sequence: each component preceded by a
/// separator, and the bare separator for the empty sequence (the
/// filesystem root).
pub open spec fn spec_join(path: Seq<String>) -> Seq<char>
    decreases path.len(),
{
    if path.len() == 0 {
        "/"@
    } else if path.len() == 1 {
        "/"@ + path[0]@
    } else {
        spec_join(path.drop_last()) + "/"@ + path.last()@
    }
}

/// Renders path components as an absolute path string.
pub fn join_path(path: &Vec<String>) -> (s: String)
    ensures
        s@ == spec_join(path@),
{
    let mut s: String = String::new();
    if path.len() == 0 {
        s.append("/");
        proof {
            assert(s@ =~= spec_join(path@));
        }
        return s;
    }
    let n = path.len();
    for i in 0..n
        invariant
            n == path@.len(),
            n > 0,
            i > 0 ==> s@ == spec_join(path@.take(i as int)),
            i == 0 ==> s@ == Seq::<char>::empty(),
    {
        s.append("/");
        s.append(path[i].as_str());
        proof {
            assert(path@.take(i + 1).drop_last() =~= path@.take(i as int));
            assert(path@.take(i + 1).last() == path@[i as int]);
            assert(s@ =~= spec_join(path@.take(i + 1)));
        }
    }
    proof {
        assert(path@.take(n as int) =~= path@);
    }
    s
}

/// Resolves the project root and renders it as a path string: the directly
/// callable diagnostic query.
pub fn get_project_root(path: &Vec<String>, subpath_exists: &Vec<bool>) -> (s: String)
    requires
        path@.len() == subpath_exists@.len(),
    ensures
        s@ == spec_join(spec_resolve(path@, subpath_exists@)),
{
    let root = resolve_project_root(path, subpath_exists);
    join_path(&root)
}

} // verus!

