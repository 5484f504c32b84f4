use vstd::prelude::*;

use crate::faux_crate::ResolvedDependency;
use crate::lockfile::Dependency;
use crate::manifest::{single_source, DetailedRuneDependency, RuneDependency};
use crate::text::{path_join, path_join_exec};

verus! {

/// Why a dependency could not be resolved.
#[derive(Clone, Debug)]
pub enum ResolutionError {
    /// A network failure that may pass on retry.
    Transient(String),
    /// No source is known for the named dependency.
    NotFound(String),
    /// The fetched source of the named dependency does not match its checksum.
    ChecksumMismatch(String),
    /// The named dependency sets more than one of `path`, `git` and `registry`.
    ConflictingSources(String),
}

/// The revision of a git source to check out.
#[derive(Clone, Debug)]
pub enum GitRef {
    Rev(String),
    Tag(String),
    Branch(String),
}

/// Where a dependency is fetched from.
#[derive(Clone, Debug)]
pub enum FetchSource {
    /// A package registry: the default one when both fields are `None`.
    Registry { registry: Option<String>, index: Option<String> },
    /// A git repository, at the given revision or at its default branch.
    Git { url: String, reference: Option<GitRef> },
}

/// What the fetcher is asked to bring.
#[derive(Clone, Debug)]
pub struct FetchRequest {
    pub name: String,
    pub version: Option<String>,
    pub source: FetchSource,
    /// Where the source goes under the cache root.
    pub destination: String,
}

/// How a dependency is resolved before anything is fetched.
#[derive(Clone, Debug)]
pub enum Resolution {
    /// From the lock entry at this index, whose checksum still validates.
    Locked(usize),
    /// From this local directory; nothing is downloaded.
    Local(String),
    /// From a registry or a git repository.
    Fetch(FetchRequest),
}

/// What came of a fetch.
#[derive(Clone, Debug)]
pub enum FetchOutcome {
    /// The network or the remote failed.
    Unreachable,
    /// The remote has no such package or revision.
    Missing,
    /// The source was fetched to the request's destination; `checksum` is the
    /// checksum of what arrived, `expected` the one the remote published.
    Fetched { version: String, expected: Option<String>, checksum: String },
}

/// The local directory of a dependency that names only a `path`.
pub open spec fn local_path(dep: RuneDependency) -> Option<Seq<char>> {
    match dep {
        RuneDependency::Detailed(d) => if d.path is Some && d.git is None && d.registry is None {
            Some(d.path->Some_0@)
        } else {
            None
        },
        RuneDependency::Simple(_) => None,
    }
}

/// The lock entry at `k` records `name` and its checksum still validates.
pub open spec fn lock_matches(name: Seq<char>, lock: Seq<Dependency>, valid: Seq<bool>, k: int) -> bool {
    0 <= k < lock.len() && k < valid.len() && valid[k] && lock[k].name@ == name
}

pub open spec fn lock_hit(name: Seq<char>, lock: Seq<Dependency>, valid: Seq<bool>) -> bool {
    exists|k: int| lock_matches(name, lock, valid, k)
}

/// Where a locked dependency's source is: its recorded source, or its place
/// under the cache root.
pub open spec fn lock_path(cache_root: Seq<char>, e: Dependency) -> Seq<char> {
    match e.source {
        Some(s) => s@,
        None => path_join(cache_root, e.name@),
    }
}

/// The revision a git source is checked out at: `rev`, else `tag`, else
/// `branch`, the most specific that is set.
pub open spec fn git_ref(d: DetailedRuneDependency) -> Option<GitRef> {
    if d.rev is Some {
        Some(GitRef::Rev(d.rev->Some_0))
    } else if d.tag is Some {
        Some(GitRef::Tag(d.tag->Some_0))
    } else if d.branch is Some {
        Some(GitRef::Branch(d.branch->Some_0))
    } else {
        None
    }
}

pub open spec fn fetch_source(dep: RuneDependency) -> FetchSource {
    match dep {
        RuneDependency::Simple(_) => FetchSource::Registry { registry: None, index: None },
        RuneDependency::Detailed(d) => if d.git is Some {
            FetchSource::Git { url: d.git->Some_0, reference: git_ref(d) }
        } else {
            FetchSource::Registry { registry: d.registry, index: d.registry_index }
        },
    }
}

pub open spec fn requested_version(dep: RuneDependency) -> Option<String> {
    match dep {
        RuneDependency::Simple(v) => Some(v),
        RuneDependency::Detailed(d) => d.version,
    }
}

/// Resolvable without a fetch.
pub open spec fn resolvable(
    name: Seq<char>,
    dep: RuneDependency,
    lock: Seq<Dependency>,
    valid: Seq<bool>,
) -> bool {
    single_source(dep) && (lock_hit(name, lock, valid) || local_path(dep) is Some)
}

fn clone_opt(o: &Option<String>) -> (r: Option<String>)
    ensures
        r == *o,
{
    match o {
        Some(s) => Some(s.clone()),
        None => None,
    }
}

/// Decides how the dependency `name` is resolved. A dependency that names
/// more than one source is refused before anything is fetched; a lock entry
/// whose checksum still validates (`valid[k]`, checked by the caller) is used
/// without fetching; a path-only dependency is its directory, relative to the
/// manifest's; anything else is fetched into `cache_root/<name>`.
pub fn resolve_dependency(
    cache_root: &str,
    manifest_dir: &str,
    name: &String,
    dep: &RuneDependency,
    lock: &Vec<Dependency>,
    valid: &Vec<bool>,
) -> (r: Result<Resolution, ResolutionError>)
    ensures
        !single_source(*dep) ==> r is Err && r->Err_0 is ConflictingSources
            && r->Err_0->ConflictingSources_0@ == name@,
        single_source(*dep) ==> r is Ok,
        r matches Ok(Resolution::Locked(k)) ==> lock_matches(name@, lock@, valid@, k as int),
        single_source(*dep) && lock_hit(name@, lock@, valid@) ==> r matches Ok(Resolution::Locked(_)),
        single_source(*dep) && !lock_hit(name@, lock@, valid@) && local_path(*dep) is Some ==> (
        r matches Ok(Resolution::Local(p)) && p@ == path_join(manifest_dir@, local_path(*dep)->Some_0)),
        single_source(*dep) && !lock_hit(name@, lock@, valid@) && local_path(*dep) is None ==> (
        r matches Ok(Resolution::Fetch(q)) && q.name == *name && q.version == requested_version(*dep)
            && q.source == fetch_source(*dep) && q.destination@ == path_join(cache_root@, name@)),
{
    let single = match dep {
        RuneDependency::Simple(_) => true,
        RuneDependency::Detailed(d) => d.has_single_source(),
    };
    if !single {
        return Err(ResolutionError::ConflictingSources(name.clone()));
    }
    let mut k: usize = 0;
    while k < lock.len()
        invariant
            k <= lock.len(),
            single_source(*dep),
            forall|j: int| 0 <= j < k ==> !lock_matches(name@, lock@, valid@, j),
        decreases lock.len() - k,
    {
        if k < valid.len() && valid[k] && lock[k].name == *name {
            assert(lock_matches(name@, lock@, valid@, k as int));
            return Ok(Resolution::Locked(k));
        }
        k += 1;
    }
    assert(!lock_hit(name@, lock@, valid@));
    match dep {
        RuneDependency::Detailed(d) => {
            if d.git.is_none() && d.registry.is_none() {
                match &d.path {
                    Some(p) => {
                        return Ok(Resolution::Local(path_join_exec(manifest_dir, p.as_str())));
                    },
                    None => {},
                }
            }
        },
        RuneDependency::Simple(_) => {},
    }
    let version = match dep {
        RuneDependency::Simple(v) => Some(v.clone()),
        RuneDependency::Detailed(d) => clone_opt(&d.version),
    };
    let source = match dep {
        RuneDependency::Simple(_) => FetchSource::Registry { registry: None, index: None },
        RuneDependency::Detailed(d) => match &d.git {
            Some(url) => {
                let reference = match &d.rev {
                    Some(x) => Some(GitRef::Rev(x.clone())),
                    None => match &d.tag {
                        Some(x) => Some(GitRef::Tag(x.clone())),
                        None => match &d.branch {
                            Some(x) => Some(GitRef::Branch(x.clone())),
                            None => None,
                        },
                    },
                };
                FetchSource::Git { url: url.clone(), reference }
            },
            None => FetchSource::Registry {
                registry: clone_opt(&d.registry),
                index: clone_opt(&d.registry_index),
            },
        },
    };
    Ok(
        Resolution::Fetch(
            FetchRequest {
                name: name.clone(),
                version,
                source,
                destination: path_join_exec(cache_root, name.as_str()),
            },
        ),
    )
}

/// Resolves the declared dependencies in order, from the lock or from local
/// paths. No registry or git fetcher is wired in, so a dependency that would
/// need a fetch is reported as not found, before anything is fetched.
pub fn download_dependencies(
    cache_root: &str,
    manifest_dir: &str,
    dependencies: &Vec<(String, RuneDependency)>,
    lock: &Vec<Dependency>,
    valid: &Vec<bool>,
) -> (r: Result<Vec<ResolvedDependency>, ResolutionError>)
    ensures
        r is Ok <==> forall|i: int|
            0 <= i < dependencies@.len() ==> resolvable(
                #[trigger] dependencies@[i].0@,
                dependencies@[i].1,
                lock@,
                valid@,
            ),
        r is Ok ==> r->Ok_0@.len() == dependencies@.len() && forall|i: int|
            0 <= i < dependencies@.len() ==> ({
                let d = #[trigger] r->Ok_0@[i];
                let (n, spec) = dependencies@[i];
                &&& d.name == n
                &&& lock_hit(n@, lock@, valid@) ==> exists|k: int|
                    lock_matches(n@, lock@, valid@, k) && d.fetched_path@ == lock_path(
                        cache_root@,
                        lock@[k],
                    ) && d.resolved_version == lock@[k].version && d.checksum == lock@[k].checksum
                &&& !lock_hit(n@, lock@, valid@) ==> d.fetched_path@ == path_join(
                    manifest_dir@,
                    local_path(spec)->Some_0,
                ) && d.checksum is None
            }),
        r is Err ==> exists|i: int|
            0 <= i < dependencies@.len() && (forall|j: int|
                0 <= j < i ==> resolvable(
                    #[trigger] dependencies@[j].0@,
                    dependencies@[j].1,
                    lock@,
                    valid@,
                )) && !resolvable(dependencies@[i].0@, dependencies@[i].1, lock@, valid@) && (
            if single_source(dependencies@[i].1) {
                r->Err_0 is NotFound && r->Err_0->NotFound_0@ == dependencies@[i].0@
            } else {
                r->Err_0 is ConflictingSources && r->Err_0->ConflictingSources_0@
                    == dependencies@[i].0@
            }),
{
    let mut out: Vec<ResolvedDependency> = Vec::new();
    let mut i: usize = 0;
    while i < dependencies.len()
        invariant
            i <= dependencies.len(),
            out@.len() == i,
            forall|j: int|
                0 <= j < i ==> resolvable(
                    #[trigger] dependencies@[j].0@,
                    dependencies@[j].1,
                    lock@,
                    valid@,
                ),
            forall|j: int|
                0 <= j < i ==> ({
                    let d = #[trigger] out@[j];
                    let (n, spec) = dependencies@[j];
                    &&& d.name == n
                    &&& lock_hit(n@, lock@, valid@) ==> exists|k: int|
                        lock_matches(n@, lock@, valid@, k) && d.fetched_path@ == lock_path(
                            cache_root@,
                            lock@[k],
                        ) && d.resolved_version == lock@[k].version && d.checksum
                            == lock@[k].checksum
                    &&& !lock_hit(n@, lock@, valid@) ==> d.fetched_path@ == path_join(
                        manifest_dir@,
                        local_path(spec)->Some_0,
                    ) && d.checksum is None
                }),
        decreases dependencies.len() - i,
    {
        let name = &dependencies[i].0;
        let dep = &dependencies[i].1;
        match resolve_dependency(cache_root, manifest_dir, name, dep, lock, valid) {
            Err(e) => {
                return Err(e);
            },
            Ok(Resolution::Locked(k)) => {
                let e = &lock[k];
                let fetched_path = match &e.source {
                    Some(s) => s.clone(),
                    None => path_join_exec(cache_root, e.name.as_str()),
                };
                out.push(
                    ResolvedDependency {
                        name: name.clone(),
                        fetched_path,
                        resolved_version: e.version.clone(),
                        checksum: clone_opt(&e.checksum),
                    },
                );
            },
            Ok(Resolution::Local(p)) => {
                let resolved_version = match dep {
                    RuneDependency::Detailed(d) => match &d.version {
                        Some(v) => v.clone(),
                        None => String::new(),
                    },
                    RuneDependency::Simple(v) => v.clone(),
                };
                out.push(
                    ResolvedDependency { name: name.clone(), fetched_path: p, resolved_version, checksum: None },
                );
            },
            Ok(Resolution::Fetch(_)) => {
                return Err(ResolutionError::NotFound(name.clone()));
            },
        }
        i += 1;
    }
    Ok(out)
}

/// Takes what came of fetching `req`: an unreachable remote is transient, a
/// missing package is not found, a checksum that differs from the published
/// one is a mismatch, and otherwise the source at the destination is the
/// resolution.
pub fn fetch_result(req: &FetchRequest, outcome: FetchOutcome) -> (r: Result<
    ResolvedDependency,
    ResolutionError,
>)
    ensures
        outcome is Unreachable ==> r is Err && r->Err_0 is Transient && r->Err_0->Transient_0
            == req.name,
        outcome is Missing ==> r is Err && r->Err_0 is NotFound && r->Err_0->NotFound_0 == req.name,
        outcome is Fetched ==> (r is Ok <==> (outcome->expected is None
            || outcome->expected->Some_0@ == outcome->checksum@)),
        outcome is Fetched && r is Err ==> r->Err_0 is ChecksumMismatch
            && r->Err_0->ChecksumMismatch_0 == req.name,
        r is Ok ==> outcome is Fetched && r->Ok_0 == (ResolvedDependency {
            name: req.name,
            fetched_path: req.destination,
            resolved_version: outcome->version,
            checksum: Some(outcome->checksum),
        }),
{
    match outcome {
        FetchOutcome::Unreachable => Err(ResolutionError::Transient(req.name.clone())),
        FetchOutcome::Missing => Err(ResolutionError::NotFound(req.name.clone())),
        FetchOutcome::Fetched { version, expected, checksum } => {
            let matches = match &expected {
                Some(e) => *e == checksum,
                None => true,
            };
            if matches {
                Ok(
                    ResolvedDependency {
                        name: req.name.clone(),
                        fetched_path: req.destination.clone(),
                        resolved_version: version,
                        checksum: Some(checksum),
                    },
                )
            } else {
                Err(ResolutionError::ChecksumMismatch(req.name.clone()))
            }
        },
    }
}

/// Whether to fetch again after `attempts` tries ended in `e`: only a
/// transient failure is retried, and at most `max_attempts` tries are made.
pub fn should_retry(attempts: u32, max_attempts: u32, e: &ResolutionError) -> (r: bool)
    ensures
        r == (e is Transient && attempts < max_attempts),
{
    match e {
        ResolutionError::Transient(_) => attempts < max_attempts,
        _ => false,
    }
}

/// The lockfile entry that records a resolution.
pub fn to_lock_entry(resolved: &ResolvedDependency) -> (r: Dependency)
    ensures
        r.name == resolved.name,
        r.version == resolved.resolved_version,
        r.source == Some(resolved.fetched_path),
        r.checksum == resolved.checksum,
        r.dependencies is None,
{
    Dependency {
        name: resolved.name.clone(),
        version: resolved.resolved_version.clone(),
        source: Some(resolved.fetched_path.clone()),
        checksum: clone_opt(&resolved.checksum),
        dependencies: None,
    }
}

/// The output directory of a project: `<path>/target`.
pub fn create_output_dir(path: &str) -> (r: String)
    ensures
        r@ == path_join(path@, "target"@),
{
    path_join_exec(path, "target")
}

/// What to do about a directory that the build needs.
#[derive(Clone, Copy, Debug, PartialEq, Eq, Structural)]
pub enum DirStep {
    UseExisting,
    Create,
}

/// A file stands where a directory is needed.
#[derive(Clone, Copy, Debug, PartialEq, Eq, Structural)]
pub enum DirError {
    IsFile,
}

/// Given whether the path exists and whether it is a directory.
pub fn dir_step(exists: bool, is_dir: bool) -> (r: Result<DirStep, DirError>)
    ensures
        !exists ==> r == Ok::<DirStep, DirError>(DirStep::Create),
        exists && is_dir ==> r == Ok::<DirStep, DirError>(DirStep::UseExisting),
        exists && !is_dir ==> r == Err::<DirStep, DirError>(DirError::IsFile),
{
    if !exists {
        Ok(DirStep::Create)
    } else if is_dir {
        Ok(DirStep::UseExisting)
    } else {
        Err(DirError::IsFile)
    }
}

/// Why the host toolchain did not produce the program.
#[derive(Clone, Copy, Debug, PartialEq, Eq, Structural)]
pub enum ToolchainError {
    /// The toolchain could not be started.
    Spawn,
    /// The toolchain exited with a failure status.
    Failed,
}

/// A command line for the host toolchain.
#[derive(Clone, Debug)]
pub struct BuildInvocation {
    pub program: String,
    pub args: Vec<String>,
    pub cwd: String,
}

/// A release build of the host project in `crate_dir`, run afterwards when
/// `run` is set.
pub fn build_invocation(crate_dir: &str, run: bool) -> (r: BuildInvocation)
    ensures
        r.program@ == "cargo"@,
        r.args@.len() == 2,
        r.args@[0]@ == (if run { "run"@ } else { "build"@ }),
        r.args@[1]@ == "--release"@,
        r.cwd@ == crate_dir@,
{
    let mode = if run {
        String::from_str("run")
    } else {
        String::from_str("build")
    };
    let args = vec![mode, String::from_str("--release")];
    BuildInvocation { program: String::from_str("cargo"), args, cwd: String::from_str(crate_dir) }
}

/// The outcome of a toolchain run, given whether it started and whether it
/// exited successfully.
pub fn build_outcome(spawned: bool, exit_success: bool) -> (r: Result<(), ToolchainError>)
    ensures
        !spawned ==> r == Err::<(), ToolchainError>(ToolchainError::Spawn),
        spawned && !exit_success ==> r == Err::<(), ToolchainError>(ToolchainError::Failed),
        spawned && exit_success <==> r is Ok,
{
    if !spawned {
        Err(ToolchainError::Spawn)
    } else if !exit_success {
        Err(ToolchainError::Failed)
    } else {
        Ok(())
    }
}

} // verus!
