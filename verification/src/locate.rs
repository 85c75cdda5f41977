//! Locating the solver executable.
//!
//! The locator builds the ordered list of candidate paths — the
//! explicit override first, then the resource-directory layouts, then
//! the working-directory layouts — and picks the first candidate that
//! exists.  Probing the filesystem is the embedding application's
//! part: it hands back, for each candidate in order, whether the path
//! exists.

use vstd::prelude::*;
use crate::text::join3;

verus! {

/// The environment variable that may carry an explicit path override.
pub open spec fn spec_override_var() -> Seq<char> {
    "MATAN_APP_PATH"@
}

/// The name of the override environment variable.
pub fn override_var() -> (r: &'static str)
    ensures
        r@ == spec_override_var(),
{
    "MATAN_APP_PATH"
}

/// The platform-specific file name of the solver executable.
pub open spec fn spec_exe_name(windows: bool) -> Seq<char> {
    if windows {
        "matan_app.exe"@
    } else {
        "matan_app"@
    }
}

/// The solver executable's file name on the given platform.
pub fn exe_name(windows: bool) -> (r: &'static str)
    ensures
        r@ == spec_exe_name(windows),
{
    if windows {
        "matan_app.exe"
    } else {
        "matan_app"
    }
}

/// The candidate paths under the application resource directory, in
/// search order: a `bin` folder, then `dist/bin` at increasing
/// packaging nesting depths.
pub open spec fn resource_candidates(rd: Seq<char>, exe: Seq<char>) -> Seq<Seq<char>> {
    seq![
        rd + "/bin/"@ + exe,
        rd + "/dist/bin/"@ + exe,
        rd + "/_up_/dist/bin/"@ + exe,
        rd + "/_up_/_up_/dist/bin/"@ + exe,
        rd + "/_up_/_up_/_up_/dist/bin/"@ + exe,
    ]
}

/// The candidate paths under the working directory, in search order:
/// `dist/bin`, then `build`, then a sibling `core/build`, each at
/// several ancestor depths.
pub open spec fn cwd_candidates(cd: Seq<char>, exe: Seq<char>) -> Seq<Seq<char>> {
    seq![
        cd + "/dist/bin/"@ + exe,
        cd + "/../dist/bin/"@ + exe,
        cd + "/../../dist/bin/"@ + exe,
        cd + "/build/"@ + exe,
        cd + "/../build/"@ + exe,
        cd + "/../../build/"@ + exe,
        cd + "/../core/build/"@ + exe,
        cd + "/../../core/build/"@ + exe,
    ]
}

/// The full ordered candidate list: the override (when set) first,
/// then the resource-directory candidates (when a resource directory
/// is known), then the working-directory candidates (when the working
/// directory is known).
pub open spec fn spec_candidates(
    override_path: Option<Seq<char>>,
    resource_dir: Option<Seq<char>>,
    current_dir: Option<Seq<char>>,
    windows: bool,
) -> Seq<Seq<char>> {
    let exe = spec_exe_name(windows);
    (match override_path {
        Some(p) => seq![p],
        None => Seq::empty(),
    }) + (match resource_dir {
        Some(rd) => resource_candidates(rd, exe),
        None => Seq::empty(),
    }) + (match current_dir {
        Some(cd) => cwd_candidates(cd, exe),
        None => Seq::empty(),
    })
}

/// Builds the ordered candidate path list for the solver executable.
pub fn binary_candidates(
    override_path: Option<&String>,
    resource_dir: Option<&String>,
    current_dir: Option<&String>,
    windows: bool,
) -> (r: Vec<String>)
    ensures
        r@.map_values(|s: String| s@) == spec_candidates(
            match override_path {
                Some(p) => Some(p@),
                None => None,
            },
            match resource_dir {
                Some(d) => Some(d@),
                None => None,
            },
            match current_dir {
                Some(d) => Some(d@),
                None => None,
            },
            windows,
        ),
{
    let exe = exe_name(windows);
    let mut r: Vec<String> = Vec::new();
    match override_path {
        Some(p) => {
            r.push(p.clone());
        },
        None => {},
    }
    match resource_dir {
        Some(rd) => {
            r.push(join3(rd.as_str(), "/bin/", exe));
            r.push(join3(rd.as_str(), "/dist/bin/", exe));
            r.push(join3(rd.as_str(), "/_up_/dist/bin/", exe));
            r.push(join3(rd.as_str(), "/_up_/_up_/dist/bin/", exe));
            r.push(join3(rd.as_str(), "/_up_/_up_/_up_/dist/bin/", exe));
        },
        None => {},
    }
    match current_dir {
        Some(cd) => {
            r.push(join3(cd.as_str(), "/dist/bin/", exe));
            r.push(join3(cd.as_str(), "/../dist/bin/", exe));
            r.push(join3(cd.as_str(), "/../../dist/bin/", exe));
            r.push(join3(cd.as_str(), "/build/", exe));
            r.push(join3(cd.as_str(), "/../build/", exe));
            r.push(join3(cd.as_str(), "/../../build/", exe));
            r.push(join3(cd.as_str(), "/../core/build/", exe));
            r.push(join3(cd.as_str(), "/../../core/build/", exe));
        },
        None => {},
    }
    proof {
        assert(r@.map_values(|s: String| s@) =~= spec_candidates(
            match override_path {
                Some(p) => Some(p@),
                None => None,
            },
            match resource_dir {
                Some(d) => Some(d@),
                None => None,
            },
            match current_dir {
                Some(d) => Some(d@),
                None => None,
            },
            windows,
        ));
    }
    r
}

/// The index of the first `true` among the first `k` probe results,
/// if any.
pub open spec fn first_true(ex: Seq<bool>, k: int) -> Option<int>
    decreases k,
{
    if k <= 0 {
        None
    } else {
        match first_true(ex, k - 1) {
            Some(j) => Some(j),
            None => if ex[k - 1] {
                Some(k - 1)
            } else {
                None
            },
        }
    }
}

/// The first hit never changes as further probe results are taken
/// into account.
proof fn lemma_first_true_stable(ex: Seq<bool>, i: int, j: int)
    requires
        0 <= i <= j,
        first_true(ex, i) is Some,
    ensures
        first_true(ex, j) == first_true(ex, i),
    decreases j - i,
{
    if j > i {
        lemma_first_true_stable(ex, i, j - 1);
    }
}

/// When the first candidate — the explicit override — exists, it is
/// chosen, whatever the later probe results say: every other search
/// location is bypassed.
pub proof fn lemma_override_wins(ex: Seq<bool>)
    requires
        ex.len() > 0,
        ex[0],
    ensures
        first_true(ex, ex.len() as int) == Some(0int),
{
    assert(first_true(ex, 0) is None);
    assert(first_true(ex, 1) == Some(0int));
    lemma_first_true_stable(ex, 1, ex.len() as int);
}

/// Picks the first existing candidate: `exists_probe[k]` says whether
/// `candidates[k]` exists on disk.  Returns the index of the first
/// match, or nothing when no candidate exists.
pub fn choose_binary(candidates: &Vec<String>, exists_probe: &Vec<bool>) -> (r: Option<usize>)
    requires
        candidates@.len() == exists_probe@.len(),
    ensures
        match r {
            Some(i) => i < candidates@.len() && first_true(
                exists_probe@,
                exists_probe@.len() as int,
            ) == Some(i as int),
            None => first_true(exists_probe@, exists_probe@.len() as int) is None,
        },
{
    let n = exists_probe.len();
    let mut i: usize = 0;
    while i < n
        invariant
            i <= n == exists_probe@.len(),
            candidates@.len() == exists_probe@.len(),
            first_true(exists_probe@, i as int) is None,
        decreases n - i,
    {
        if exists_probe[i] {
            proof {
                assert(first_true(exists_probe@, i + 1) == Some(i as int));
                lemma_first_true_stable(exists_probe@, i + 1, n as int);
                assert(first_true(exists_probe@, n as int) == Some(i as int));
            }
            return Some(i);
        }
        i = i + 1;
    }
    None
}

} // verus!
