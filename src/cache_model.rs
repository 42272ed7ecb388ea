use vstd::prelude::*;
use crate::resolver::{
    DirEntry, ResolveError, ResolveEvent, ResolveState, ResolveStep, advance, go, initial_state,
};

verus! {

/// The part of the filesystem and of the remote repository that a resolution
/// touches, as the program that carries out its steps sees it. Creating,
/// moving and removing directories succeed; cloning and parsing may fail.
pub ghost struct World {
    /// The cache directory of the environment exists.
    pub cache: bool,
    /// The temporary directory exists.
    pub tmp: bool,
    /// The clone holds a directory for the environment.
    pub cloned_env: bool,
    /// The repository publishes the environment.
    pub remote_has_env: bool,
    /// Cloning the repository succeeds.
    pub clone_ok: bool,
    /// The consolidated file exists and parses.
    pub consolidated_ok: bool,
    /// The merged sources parse.
    pub merged_ok: bool,
    pub top: Vec<DirEntry>,
    pub nested: Vec<DirEntry>,
    /// The message of any failure.
    pub fault: String,
}

pub open spec fn outcome_of(ok: bool, fault: String) -> Result<(), String> {
    if ok {
        Ok(())
    } else {
        Err(fault)
    }
}

/// Carries out `step` on `w`: the world after it, and the event reported.
pub open spec fn perform(w: World, step: ResolveStep) -> (World, ResolveEvent) {
    match step {
        ResolveStep::CheckCache => (w, ResolveEvent::CacheChecked(w.cache)),
        ResolveStep::CreateTmp => (World { tmp: true, ..w }, ResolveEvent::TmpCreated(Ok(()))),
        ResolveStep::CloneRepo => if w.clone_ok {
            (World { cloned_env: w.remote_has_env, ..w }, ResolveEvent::RepoCloned(Ok(())))
        } else {
            (w, ResolveEvent::RepoCloned(Err(w.fault)))
        },
        ResolveStep::CheckCloned => (w, ResolveEvent::ClonedChecked(w.cloned_env)),
        ResolveStep::MoveIntoCache => if w.cloned_env {
            (World { cache: true, cloned_env: false, ..w }, ResolveEvent::Moved(Ok(())))
        } else {
            (w, ResolveEvent::Moved(Err(w.fault)))
        },
        ResolveStep::RemoveTmp => (
            World { tmp: false, cloned_env: false, ..w },
            ResolveEvent::TmpRemoved(Ok(())),
        ),
        ResolveStep::LoadConsolidated => (
            w,
            ResolveEvent::ConsolidatedLoaded(outcome_of(w.consolidated_ok, w.fault)),
        ),
        ResolveStep::ListFiles => (w, ResolveEvent::FilesListed(w.top, w.nested)),
        ResolveStep::LoadMerged => (w, ResolveEvent::MergedLoaded(outcome_of(w.merged_ok, w.fault))),
        ResolveStep::Done => (w, ResolveEvent::CacheChecked(false)),
    }
}

/// How far along a resolution a step lies.
pub open spec fn rank(step: ResolveStep) -> int {
    match step {
        ResolveStep::CheckCache => 0,
        ResolveStep::CreateTmp => 1,
        ResolveStep::CloneRepo => 2,
        ResolveStep::CheckCloned => 3,
        ResolveStep::MoveIntoCache => 4,
        ResolveStep::RemoveTmp => 5,
        ResolveStep::LoadConsolidated => 6,
        ResolveStep::ListFiles => 7,
        ResolveStep::LoadMerged => 8,
        ResolveStep::Done => 9,
    }
}

/// Runs a resolution of `name` from `s` against `w` until it is done: the
/// final state, the final world, and the steps carried out, in order.
pub open spec fn run(s: ResolveState, name: String, fetch: bool, w: World) -> (
    ResolveState,
    World,
    Seq<ResolveStep>,
)
    decreases 9 - rank(s.step),
{
    if s.step == ResolveStep::Done {
        (s, w, seq![])
    } else {
        let done = perform(w, s.step);
        let next = advance(s, name, fetch, done.1);
        if rank(next.step) <= rank(s.step) {
            (next, done.0, seq![s.step])
        } else {
            let rest = run(next, name, fetch, done.0);
            (rest.0, rest.1, seq![s.step] + rest.2)
        }
    }
}

/// A resolution of `name` from its start against `w`.
pub open spec fn resolution(name: String, fetch: bool, w: World) -> (
    ResolveState,
    World,
    Seq<ResolveStep>,
) {
    run(initial_state(), name, fetch, w)
}

/// With the cache present, a resolution neither creates the temporary
/// directory nor clones the repository, and changes nothing on disk.
pub proof fn cached_environment_is_never_cloned(name: String, w: World)
    requires
        w.cache,
    ensures
        forall|i: int|
            0 <= i < resolution(name, true, w).2.len() ==> {
                let st = #[trigger] resolution(name, true, w).2[i];
                st != ResolveStep::CloneRepo && st != ResolveStep::CreateTmp
            },
        resolution(name, true, w).1 == w,
        resolution(name, true, w).0.step == ResolveStep::Done,
{
    reveal_with_fuel(run, 5);
}

/// With the cache absent, the clone succeeding and the environment
/// published, a resolution moves
/// the environment into the cache exactly once and leaves no temporary
/// directory, whether or not its configuration then parses.
pub proof fn published_environment_is_cached_once(name: String, w: World)
    requires
        !w.cache,
        w.remote_has_env,
        w.clone_ok,
    ensures
        resolution(name, true, w).1.cache,
        !resolution(name, true, w).1.tmp,
        exists|i: int|
            0 <= i < resolution(name, true, w).2.len() && #[trigger] resolution(name, true, w).2[i]
                == ResolveStep::MoveIntoCache && forall|j: int|
                0 <= j < resolution(name, true, w).2.len() && j != i ==> resolution(name, true, w).2[j]
                    != ResolveStep::MoveIntoCache,
{
    let s0 = initial_state();
    let s1 = go(s0, ResolveStep::CreateTmp);
    let s2 = go(s0, ResolveStep::CloneRepo);
    let s3 = go(s0, ResolveStep::CheckCloned);
    let s4 = go(s0, ResolveStep::MoveIntoCache);
    let s5 = go(s0, ResolveStep::RemoveTmp);
    let s6 = go(s0, ResolveStep::LoadConsolidated);
    let w2 = World { tmp: true, ..w };
    let w3 = World { cloned_env: true, ..w2 };
    let w5 = World { cache: true, cloned_env: false, ..w3 };
    let w6 = World { tmp: false, cloned_env: false, ..w5 };
    loading_touches_nothing(s6, name, true, w6);
    let r6 = run(s6, name, true, w6);
    let r5 = run(s5, name, true, w5);
    assert(r5.1 == r6.1 && r5.2 == seq![ResolveStep::RemoveTmp] + r6.2);
    let r4 = run(s4, name, true, w3);
    assert(r4.1 == r6.1 && r4.2 == seq![ResolveStep::MoveIntoCache] + r5.2);
    let r3 = run(s3, name, true, w3);
    assert(r3.1 == r6.1 && r3.2 == seq![ResolveStep::CheckCloned] + r4.2);
    let r2 = run(s2, name, true, w2);
    assert(r2.1 == r6.1 && r2.2 == seq![ResolveStep::CloneRepo] + r3.2);
    let r1 = run(s1, name, true, w);
    assert(r1.1 == r6.1 && r1.2 == seq![ResolveStep::CreateTmp] + r2.2);
    let r0 = run(s0, name, true, w);
    assert(r0.1 == r6.1 && r0.2 == seq![ResolveStep::CheckCache] + r1.2);
    let t = r0.2;
    assert(t[4] == ResolveStep::MoveIntoCache);
    assert forall|j: int| 0 <= j < t.len() && j != 4 implies t[j] != ResolveStep::MoveIntoCache by {
        if j >= 6 {
            assert(t[j] == r6.2[j - 6]);
        }
    }
}

/// Loading a present cache reads it and changes nothing.
proof fn loading_touches_nothing(s: ResolveState, name: String, fetch: bool, w: World)
    requires
        s.step == ResolveStep::LoadConsolidated,
    ensures
        run(s, name, fetch, w).1 == w,
        forall|i: int|
            0 <= i < run(s, name, fetch, w).2.len() ==> {
                let st = #[trigger] run(s, name, fetch, w).2[i];
                st == ResolveStep::LoadConsolidated || st == ResolveStep::ListFiles || st
                    == ResolveStep::LoadMerged
            },
{
    reveal_with_fuel(run, 4);
}

/// A cache-only resolution never creates the temporary directory, clones
/// or moves anything, and changes nothing on disk; with the cache absent it
/// fails with `EnvironmentNotFound(name)`.
pub proof fn cache_only_never_fetches(name: String, w: World)
    ensures
        forall|i: int|
            0 <= i < resolution(name, false, w).2.len() ==> {
                let st = #[trigger] resolution(name, false, w).2[i];
                st == ResolveStep::CheckCache || st == ResolveStep::LoadConsolidated || st
                    == ResolveStep::ListFiles || st == ResolveStep::LoadMerged
            },
        resolution(name, false, w).1 == w,
        !w.cache ==> resolution(name, false, w).0.failure == Some(
            ResolveError::EnvironmentNotFound(name),
        ),
{
    reveal_with_fuel(run, 5);
}

/// With the cache absent, a resolution leaves no temporary directory behind,
/// whatever comes of the clone.
pub proof fn fetch_leaves_no_tmp(name: String, w: World)
    requires
        !w.cache,
    ensures
        !resolution(name, true, w).1.tmp,
        resolution(name, true, w).0.step == ResolveStep::Done,
{
    reveal_with_fuel(run, 10);
}

/// With the cache absent, the clone succeeding and the environment missing
/// from the repository, a resolution fails with `EnvironmentNotFound(name)`
/// and creates no cache. (A clone that fails ends in `CloneFailed`.)
pub proof fn unpublished_environment_fails(name: String, w: World)
    requires
        !w.cache,
        !w.remote_has_env,
        w.clone_ok,
    ensures
        resolution(name, true, w).0.step == ResolveStep::Done,
        resolution(name, true, w).0.failure == Some(ResolveError::EnvironmentNotFound(name)),
        !resolution(name, true, w).1.cache,
        !resolution(name, true, w).1.tmp,
{
    reveal_with_fuel(run, 10);
}

} // verus!
