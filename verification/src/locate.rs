//! Location of the backend executable.
//!
//! The same launcher must find its companion binary in local
//! development, in CI, and in several packaged layouts, each of which
//! places the binary differently. It therefore probes an ordered list
//! of candidate paths and takes the first that exists. The list is
//! fixed here; the existence probe itself is the driver's, which hands
//! back one flag per candidate.

use vstd::prelude::*;
use crate::errors::LauncherError;
use crate::text::join_path;
use crate::text::spec_join;

verus! {

/// The view of an optional path argument.
pub open spec fn view_opt_str(m: Option<&str>) -> Option<Seq<char>> {
    match m {
        Some(s) => Some(s@),
        None => None,
    }
}

/// Development-build candidates: the `bin` directory next to the
/// launcher's own source tree, tried for both executable name
/// variants, and only when a source-tree location is known.
pub open spec fn spec_dev_candidates(debug: bool, manifest_dir: Option<Seq<char>>) -> Seq<
    Seq<char>,
> {
    if debug && manifest_dir is Some {
        let bin = spec_join(manifest_dir->0, "bin"@);
        seq![spec_join(bin, "whodb-core.exe"@), spec_join(bin, "whodb-core"@)]
    } else {
        Seq::empty()
    }
}

/// For one executable name variant: next to the running executable,
/// under its `resources` subdirectory, and under the parent-relative
/// `resources` directory of packaged layouts, in that order.
pub open spec fn spec_exe_dir_candidates(exe_dir: Seq<char>, name: Seq<char>) -> Seq<Seq<char>> {
    seq![
        spec_join(exe_dir, name),
        spec_join(spec_join(exe_dir, "resources"@), name),
        spec_join(spec_join(spec_join(exe_dir, ".."@), "resources"@), name),
    ]
}

/// The full candidate list, in the fixed priority order: development
/// locations first, then the three layout variants for each of the
/// four executable name variants.
pub open spec fn spec_candidates(
    debug: bool,
    manifest_dir: Option<Seq<char>>,
    exe_dir: Seq<char>,
) -> Seq<Seq<char>> {
    spec_dev_candidates(debug, manifest_dir) + spec_exe_dir_candidates(exe_dir, "whodb-core"@)
        + spec_exe_dir_candidates(exe_dir, "whodb-core.exe"@) + spec_exe_dir_candidates(
        exe_dir,
        "bin/whodb-core"@,
    ) + spec_exe_dir_candidates(exe_dir, "bin/whodb-core.exe"@)
}

fn push_exe_dir_candidates(r: &mut Vec<String>, exe_dir: &str, name: &str)
    ensures
        final(r)@.len() == old(r)@.len() + 3,
        forall|i: int| 0 <= i < old(r)@.len() ==> final(r)@[i] == old(r)@[i],
        forall|k: int|
            0 <= k < 3 ==> final(r)@[old(r)@.len() + k]@ == spec_exe_dir_candidates(
                exe_dir@,
                name@,
            )[k],
{
    r.push(join_path(exe_dir, name));
    let resources = join_path(exe_dir, "resources");
    r.push(join_path(resources.as_str(), name));
    let parent = join_path(exe_dir, "..");
    let parent_resources = join_path(parent.as_str(), "resources");
    r.push(join_path(parent_resources.as_str(), name));
}

/// Build the ordered candidate list for the backend executable.
/// `manifest_dir` is the launcher's own source directory when the
/// build knows it, and is consulted only in development builds
/// (`debug`); `exe_dir` is the directory of the running executable.
pub fn candidate_paths(debug: bool, manifest_dir: Option<&str>, exe_dir: &str) -> (r: Vec<String>)
    ensures
        r@.len() == spec_candidates(debug, view_opt_str(manifest_dir), exe_dir@).len(),
        forall|i: int|
            0 <= i < r@.len() ==> r@[i]@ == spec_candidates(
                debug,
                view_opt_str(manifest_dir),
                exe_dir@,
            )[i],
{
    let ghost md = view_opt_str(manifest_dir);
    let mut r: Vec<String> = Vec::new();
    if debug {
        if let Some(m) = manifest_dir {
            let bin = join_path(m, "bin");
            r.push(join_path(bin.as_str(), "whodb-core.exe"));
            r.push(join_path(bin.as_str(), "whodb-core"));
        }
    }
    proof {
        assert(r@.len() == spec_dev_candidates(debug, md).len());
        assert(forall|i: int|
            0 <= i < r@.len() ==> r@[i]@ == spec_dev_candidates(debug, md)[i]);
    }
    push_exe_dir_candidates(&mut r, exe_dir, "whodb-core");
    push_exe_dir_candidates(&mut r, exe_dir, "whodb-core.exe");
    push_exe_dir_candidates(&mut r, exe_dir, "bin/whodb-core");
    push_exe_dir_candidates(&mut r, exe_dir, "bin/whodb-core.exe");
    r
}

/// Pick the first candidate that exists, `present` holding the driver's
/// one existence flag per candidate. When none exists, the whole
/// searched list rides along in the error, in the order it was tried,
/// to make misconfiguration diagnosable.
pub fn select_binary(candidates: Vec<String>, present: &Vec<bool>) -> (r: Result<
    String,
    LauncherError,
>)
    requires
        candidates@.len() == present@.len(),
    ensures
        match r {
            Ok(path) => exists|i: int|
                #![trigger present@[i]]
                {
                    &&& 0 <= i < present@.len()
                    &&& present@[i]
                    &&& path@ == candidates@[i]@
                    &&& forall|j: int| 0 <= j < i ==> !present@[j]
                },
            Err(e) => {
                &&& e matches LauncherError::BinaryNotFound { searched: s } && s == candidates
                &&& forall|j: int| 0 <= j < present@.len() ==> !present@[j]
            },
        },
{
    let n = candidates.len();
    let mut i: usize = 0;
    while i < n
        invariant
            i <= n,
            n == candidates@.len(),
            n == present@.len(),
            forall|j: int| 0 <= j < i ==> !present@[j],
        decreases n - i,
    {
        if present[i] {
            let path = candidates[i].clone();
            return Ok(path);
        }
        i += 1;
    }
    Err(LauncherError::BinaryNotFound { searched: candidates })
}

} // verus!
