//! The resource locator: turns base directories into candidate paths for
//! the bundled runtime binary and the server entry script, and picks the
//! first candidate that exists, in base-directory priority order.

use vstd::prelude::*;
use crate::paths::FsPath;

verus! {

/// The platform the host runs on; it decides where the bundled runtime
/// binary sits below a base directory.
#[derive(Debug, PartialEq, Eq, Clone, Copy)]
pub enum Platform {
    Windows,
    MacOs,
    Linux,
    /// Any other target: no bundled-runtime convention is known.
    Other,
}

/// The segments appended to a base directory to reach the bundled runtime
/// binary, if the platform has a convention for it.
pub open spec fn runtime_rel_view(platform: Platform) -> Option<Seq<Seq<char>>> {
    match platform {
        Platform::Windows => Some(seq!["bundled"@, "node"@, "node.exe"@]),
        Platform::MacOs => Some(seq!["bundled"@, "node"@, "bin"@, "node"@]),
        Platform::Linux => Some(seq!["bundled"@, "node"@, "bin"@, "node"@]),
        Platform::Other => None,
    }
}

/// The preferred location of the server entry script below a base directory.
pub open spec fn script_rel_primary() -> Seq<Seq<char>> {
    seq!["bundled"@, "server"@, "server.js"@]
}

/// The standalone-build location of the server entry script.
pub open spec fn script_rel_standalone() -> Seq<Seq<char>> {
    seq!["bundled"@, "server"@, ".next"@, "standalone"@, "server.js"@]
}

/// The bundled-runtime candidate under one base directory, or None when the
/// platform has no convention.
pub fn bundled_runtime_path(platform: Platform, base: &FsPath) -> (r: Option<FsPath>)
    ensures
        match r {
            Some(p) => runtime_rel_view(platform) matches Some(rel) && p@ == base@ + rel,
            None => runtime_rel_view(platform) is None,
        },
{
    match platform {
        Platform::Windows => {
            let p = base.child("bundled").child("node").child("node.exe");
            proof {
                assert(p@ =~= base@ + runtime_rel_view(platform).unwrap());
            }
            Some(p)
        },
        Platform::MacOs | Platform::Linux => {
            let p = base.child("bundled").child("node").child("bin").child("node");
            proof {
                assert(p@ =~= base@ + runtime_rel_view(platform).unwrap());
            }
            Some(p)
        },
        Platform::Other => None,
    }
}

/// The two script candidates under one base directory, in preference order.
pub fn script_candidate_paths(base: &FsPath) -> (r: Vec<FsPath>)
    ensures
        r@.len() == 2,
        r@[0]@ == base@ + script_rel_primary(),
        r@[1]@ == base@ + script_rel_standalone(),
{
    let primary = base.child("bundled").child("server").child("server.js");
    let standalone = base
        .child("bundled")
        .child("server")
        .child(".next")
        .child("standalone")
        .child("server.js");
    proof {
        assert(primary@ =~= base@ + script_rel_primary());
        assert(standalone@ =~= base@ + script_rel_standalone());
    }
    let mut r: Vec<FsPath> = Vec::new();
    r.push(primary);
    r.push(standalone);
    r
}

/// The views of a sequence of paths.
pub open spec fn paths_view(v: Seq<FsPath>) -> Seq<Seq<Seq<char>>> {
    v.map_values(|p: FsPath| p@)
}

/// The first existing bundled-runtime candidate, walking the bases in
/// priority order; `present[i]` says whether the candidate under `bases[i]`
/// exists on disk.
pub open spec fn spec_locate_runtime(
    platform: Platform,
    bases: Seq<Seq<Seq<char>>>,
    present: Seq<bool>,
) -> Option<Seq<Seq<char>>>
    decreases bases.len(),
{
    if bases.len() == 0 || present.len() == 0 {
        None
    } else if present[0] {
        match runtime_rel_view(platform) {
            Some(rel) => Some(bases[0] + rel),
            None => None,
        }
    } else {
        spec_locate_runtime(platform, bases.drop_first(), present.drop_first())
    }
}

/// The first existing script candidate, walking the bases in priority order
/// and, under each base, the preferred location before the standalone one;
/// `present[2*i]` and `present[2*i + 1]` say whether the two candidates
/// under `bases[i]` exist on disk.
pub open spec fn spec_locate_script(
    bases: Seq<Seq<Seq<char>>>,
    present: Seq<bool>,
) -> Option<Seq<Seq<char>>>
    decreases bases.len(),
{
    if bases.len() == 0 || present.len() < 2 {
        None
    } else if present[0] {
        Some(bases[0] + script_rel_primary())
    } else if present[1] {
        Some(bases[0] + script_rel_standalone())
    } else {
        spec_locate_script(bases.drop_first(), present.skip(2))
    }
}

/// The index of the first set flag, if any.
pub open spec fn first_hit(present: Seq<bool>) -> Option<int>
    decreases present.len(),
{
    if present.len() == 0 {
        None
    } else if present[0] {
        Some(0)
    } else {
        match first_hit(present.drop_first()) {
            Some(k) => Some(k + 1),
            None => None,
        }
    }
}

/// `first_hit` names the least index whose flag is set, and is `None`
/// exactly when no flag is set.
pub proof fn lemma_first_hit(present: Seq<bool>)
    ensures
        first_hit(present) matches Some(k) ==> 0 <= k < present.len() && present[k] && (forall|
            j: int,
        | 0 <= j < k ==> !present[j]),
        first_hit(present) is None ==> forall|j: int| 0 <= j < present.len() ==> !present[j],
    decreases present.len(),
{
    if present.len() == 0 {
    } else if present[0] {
    } else {
        let sub = present.drop_first();
        lemma_first_hit(sub);
        match first_hit(sub) {
            Some(k) => {
                assert forall|j: int| 0 <= j < k + 1 implies !present[j] by {
                    if j > 0 {
                        assert(!sub[j - 1]);
                    }
                }
            },
            None => {
                assert forall|j: int| 0 <= j < present.len() implies !present[j] by {
                    if j > 0 {
                        assert(!sub[j - 1]);
                    }
                }
            },
        }
    }
}

/// The ordered script candidates: two per base, the preferred location
/// before the standalone one, bases in priority order.
pub open spec fn script_flat_view(bases: Seq<Seq<Seq<char>>>) -> Seq<Seq<Seq<char>>>
    decreases bases.len(),
{
    if bases.len() == 0 {
        Seq::empty()
    } else {
        seq![bases[0] + script_rel_primary(), bases[0] + script_rel_standalone()]
            + script_flat_view(bases.drop_first())
    }
}

/// The ordered script candidate list holds two entries per base.
pub proof fn lemma_script_flat_len(bases: Seq<Seq<Seq<char>>>)
    ensures
        script_flat_view(bases).len() == 2 * bases.len(),
    decreases bases.len(),
{
    if bases.len() > 0 {
        lemma_script_flat_len(bases.drop_first());
    }
}

/// The runtime locator's defining law: with a platform convention, the
/// result is the candidate at the first existing index of the ordered
/// candidate list, and `None` exactly when none exists; without a
/// convention it is always `None`.
pub proof fn lemma_locate_runtime_first_match(
    platform: Platform,
    bases: Seq<Seq<Seq<char>>>,
    present: Seq<bool>,
)
    requires
        bases.len() == present.len(),
    ensures
        runtime_rel_view(platform) matches Some(rel) ==> spec_locate_runtime(
            platform,
            bases,
            present,
        ) == (match first_hit(present) {
            Some(k) => Some(bases[k] + rel),
            None => None,
        }),
        runtime_rel_view(platform) is None ==> spec_locate_runtime(platform, bases, present)
            is None,
    decreases bases.len(),
{
    if runtime_rel_view(platform) is None {
        lemma_locate_runtime_no_convention(platform, bases, present);
    } else if bases.len() == 0 {
    } else if present[0] {
    } else {
        let sub = present.drop_first();
        lemma_locate_runtime_first_match(platform, bases.drop_first(), sub);
        lemma_first_hit(sub);
        match first_hit(sub) {
            Some(k) => {
                assert(first_hit(present) == Some(k + 1));
                assert(bases.drop_first()[k] == bases[k + 1]);
            },
            None => {
                assert(first_hit(present) is None);
            },
        }
    }
}

/// The script locator's defining law: the result is the candidate at the
/// first existing index of the ordered candidate list, and `None` exactly
/// when none exists.
pub proof fn lemma_locate_script_first_match(bases: Seq<Seq<Seq<char>>>, present: Seq<bool>)
    requires
        present.len() == 2 * bases.len(),
    ensures
        spec_locate_script(bases, present) == (match first_hit(present) {
            Some(k) => Some(script_flat_view(bases)[k]),
            None => None,
        }),
    decreases bases.len(),
{
    if bases.len() == 0 {
    } else if present[0] {
    } else if present[1] {
        let p1 = present.drop_first();
        assert(p1[0] == present[1]);
        assert(first_hit(p1) == Some(0int));
        assert(first_hit(present) == Some(1int));
    } else {
        let p1 = present.drop_first();
        let p2 = p1.drop_first();
        assert(p2 =~= present.skip(2));
        lemma_locate_script_first_match(bases.drop_first(), p2);
        assert(!p1[0]);
        let flat = script_flat_view(bases);
        let sub_flat = script_flat_view(bases.drop_first());
        match first_hit(p2) {
            Some(k) => {
                lemma_first_hit(p2);
                lemma_script_flat_len(bases.drop_first());
                assert(first_hit(p1) == Some(k + 1));
                assert(first_hit(present) == Some(k + 2));
                assert(flat[k + 2] == sub_flat[k]);
            },
            None => {
                assert(first_hit(p1) is None);
                assert(first_hit(present) is None);
            },
        }
    }
}

/// When the platform has no bundled-runtime convention, no base yields a
/// runtime, whatever exists on disk.
proof fn lemma_locate_runtime_no_convention(
    platform: Platform,
    bases: Seq<Seq<Seq<char>>>,
    present: Seq<bool>,
)
    requires
        runtime_rel_view(platform) is None,
    ensures
        spec_locate_runtime(platform, bases, present) is None,
    decreases bases.len(),
{
    if bases.len() == 0 || present.len() == 0 {
    } else if present[0] {
    } else {
        lemma_locate_runtime_no_convention(platform, bases.drop_first(), present.drop_first());
    }
}

/// Finds the bundled runtime binary: the first base directory whose runtime
/// candidate exists wins. `present[i]` reports whether the candidate under
/// `bases[i]` exists on disk.
pub fn locate_runtime(platform: Platform, bases: &Vec<FsPath>, present: &Vec<bool>) -> (r: Option<
    FsPath,
>)
    requires
        present@.len() == bases@.len(),
    ensures
        match r {
            Some(p) => spec_locate_runtime(platform, paths_view(bases@), present@) == Some(p@),
            None => spec_locate_runtime(platform, paths_view(bases@), present@) is None,
        },
{
    let ghost pv = paths_view(bases@);
    proof {
        assert(pv.skip(0) =~= pv);
        assert(present@.skip(0) =~= present@);
    }
    let mut i: usize = 0;
    while i < bases.len()
        invariant
            i <= bases@.len(),
            present@.len() == bases@.len(),
            pv == paths_view(bases@),
            spec_locate_runtime(platform, pv.skip(i as int), present@.skip(i as int))
                == spec_locate_runtime(platform, pv, present@),
        decreases bases@.len() - i,
    {
        if present[i] {
            proof {
                assert(pv.skip(i as int)[0] == bases@[i as int]@);
            }
            match bundled_runtime_path(platform, &bases[i]) {
                Some(p) => {
                    return Some(p);
                },
                None => {
                    proof {
                        lemma_locate_runtime_no_convention(platform, pv, present@);
                    }
                    return None;
                },
            }
        }
        proof {
            assert(pv.skip(i as int).drop_first() =~= pv.skip(i as int + 1));
            assert(present@.skip(i as int).drop_first() =~= present@.skip(i as int + 1));
        }
        i += 1;
    }
    proof {
        assert(pv.skip(bases@.len() as int).len() == 0);
    }
    None
}

/// Finds the server entry script: the first existing candidate wins, bases
/// in priority order and under each base the preferred location first.
/// `present` holds two flags per base, in that same order.
pub fn locate_script(bases: &Vec<FsPath>, present: &Vec<bool>) -> (r: Option<FsPath>)
    requires
        present@.len() == 2 * bases@.len(),
    ensures
        match r {
            Some(p) => spec_locate_script(paths_view(bases@), present@) == Some(p@),
            None => spec_locate_script(paths_view(bases@), present@) is None,
        },
{
    let ghost pv = paths_view(bases@);
    let n = present.len();
    proof {
        assert(pv.skip(0) =~= pv);
        assert(present@.skip(0) =~= present@);
    }
    let mut i: usize = 0;
    while i < bases.len()
        invariant
            i <= bases@.len(),
            present@.len() == 2 * bases@.len(),
            n == present@.len(),
            pv == paths_view(bases@),
            spec_locate_script(pv.skip(i as int), present@.skip(2 * i as int))
                == spec_locate_script(pv, present@),
        decreases bases@.len() - i,
    {
        let mut cands = script_candidate_paths(&bases[i]);
        proof {
            assert(pv.skip(i as int)[0] == bases@[i as int]@);
            assert(2 * (i as int) + 1 < n);
        }
        if present[2 * i] {
            let r = cands.remove(0);
            return Some(r);
        }
        if present[2 * i + 1] {
            let r = cands.remove(1);
            return Some(r);
        }
        proof {
            assert(pv.skip(i as int).drop_first() =~= pv.skip(i as int + 1));
            assert(present@.skip(2 * i as int).skip(2) =~= present@.skip(2 * (i as int + 1)));
        }
        i += 1;
    }
    proof {
        assert(pv.skip(bases@.len() as int).len() == 0);
    }
    None
}

/// The bundled-runtime lookup under the resource directory alone:
/// `node_present` reports whether the platform's candidate below
/// `resource_dir` exists on disk.
pub fn get_node_path(platform: Platform, resource_dir: &FsPath, node_present: bool) -> (r: Option<
    FsPath,
>)
    ensures
        match r {
            Some(p) => spec_locate_runtime(
                platform,
                seq![resource_dir@],
                seq![node_present],
            ) == Some(p@),
            None => spec_locate_runtime(platform, seq![resource_dir@], seq![node_present]) is None,
        },
{
    let mut bases: Vec<FsPath> = Vec::new();
    bases.push(resource_dir.clone_path());
    let mut present: Vec<bool> = Vec::new();
    present.push(node_present);
    proof {
        assert(paths_view(bases@) =~= seq![resource_dir@]);
        assert(present@ =~= seq![node_present]);
    }
    locate_runtime(platform, &bases, &present)
}

/// The script lookup under the resource directory alone: `present` holds
/// the existence of the preferred and the standalone candidate, in order.
pub fn get_server_path(resource_dir: &FsPath, present: &Vec<bool>) -> (r: Option<FsPath>)
    requires
        present@.len() == 2,
    ensures
        match r {
            Some(p) => spec_locate_script(seq![resource_dir@], present@) == Some(p@),
            None => spec_locate_script(seq![resource_dir@], present@) is None,
        },
{
    let mut bases: Vec<FsPath> = Vec::new();
    bases.push(resource_dir.clone_path());
    proof {
        assert(paths_view(bases@) =~= seq![resource_dir@]);
    }
    locate_script(&bases, present)
}

} // verus!
