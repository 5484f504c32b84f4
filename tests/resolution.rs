use rune_deploy::faux_crate::ResolvedDependency;
use rune_deploy::lockfile::Dependency;
use rune_deploy::manifest::{DetailedRuneDependency, RuneDependency};
use rune_deploy::resolve::{
    build_invocation, build_outcome, create_output_dir, dir_step, download_dependencies,
    fetch_result, resolve_dependency, should_retry, to_lock_entry, DirError, DirStep, FetchOutcome,
    FetchRequest, FetchSource, GitRef, Resolution, ResolutionError, ToolchainError,
};

fn simple(name: &str, v: &str) -> (String, RuneDependency) {
    (name.to_string(), RuneDependency::Simple(v.to_string()))
}

fn locked(name: &str, source: Option<&str>) -> Dependency {
    Dependency {
        name: name.to_string(),
        version: "1.0.3".to_string(),
        source: source.map(|s| s.to_string()),
        checksum: Some("c0ffee".to_string()),
        dependencies: None,
    }
}

fn request() -> FetchRequest {
    FetchRequest {
        name: "foo".to_string(),
        version: Some("1.0".to_string()),
        source: FetchSource::Registry { registry: None, index: None },
        destination: "/cache/src/foo".to_string(),
    }
}

#[test]
fn unresolvable_dependency_is_not_found() {
    let deps = vec![simple("foo", "1.0")];
    match download_dependencies("/cache/src", "/p", &deps, &vec![], &vec![]) {
        Err(ResolutionError::NotFound(n)) => assert_eq!(n, "foo"),
        other => panic!("unexpected {:?}", other),
    }
}

#[test]
fn no_dependencies_resolve_to_nothing() {
    assert!(download_dependencies("/cache/src", "/p", &vec![], &vec![], &vec![]).unwrap().is_empty());
}

#[test]
fn valid_lock_entry_is_a_cache_hit() {
    let deps = vec![simple("foo", "1.0"), simple("bar", "2")];
    let lock = vec![locked("bar", None), locked("foo", Some("/elsewhere/foo"))];
    let r = download_dependencies("/cache/src", "/p", &deps, &lock, &vec![true, true]).unwrap();
    assert_eq!(r[0].name, "foo");
    assert_eq!(r[0].fetched_path, "/elsewhere/foo");
    assert_eq!(r[0].resolved_version, "1.0.3");
    assert_eq!(r[0].checksum.as_deref(), Some("c0ffee"));
    assert_eq!(r[1].fetched_path, "/cache/src/bar");
    // An entry whose checksum no longer validates is not used.
    assert!(matches!(
        download_dependencies("/cache/src", "/p", &deps, &lock, &vec![true, false]),
        Err(ResolutionError::NotFound(n)) if n == "foo"
    ));
}

#[test]
fn path_dependency_resolves_locally() {
    let mut d = DetailedRuneDependency::default();
    d.path = Some("../util".to_string());
    d.version = Some("0.2".to_string());
    let deps = vec![("util".to_string(), RuneDependency::Detailed(d))];
    let r = download_dependencies("/cache/src", "/p", &deps, &vec![], &vec![]).unwrap();
    assert_eq!(r[0].fetched_path, "/p/../util");
    assert_eq!(r[0].resolved_version, "0.2");
    assert!(r[0].checksum.is_none());
}

#[test]
fn conflicting_sources_are_refused_before_fetching() {
    let mut d = DetailedRuneDependency::default();
    d.path = Some("../util".to_string());
    d.registry = Some("alt".to_string());
    let dep = RuneDependency::Detailed(d);
    assert!(matches!(
        resolve_dependency("/c", "/p", &"util".to_string(), &dep, &vec![], &vec![]),
        Err(ResolutionError::ConflictingSources(n)) if n == "util"
    ));
}

#[test]
fn fetch_request_names_source_and_destination() {
    let mut d = DetailedRuneDependency::default();
    d.git = Some("https://example.org/foo".to_string());
    d.branch = Some("main".to_string());
    d.tag = Some("v1".to_string());
    let dep = RuneDependency::Detailed(d);
    match resolve_dependency("/c", "/p", &"foo".to_string(), &dep, &vec![], &vec![]) {
        Ok(Resolution::Fetch(q)) => {
            assert_eq!(q.destination, "/c/foo");
            assert!(q.version.is_none());
            match q.source {
                FetchSource::Git { url, reference: Some(GitRef::Tag(t)) } => {
                    assert_eq!(url, "https://example.org/foo");
                    assert_eq!(t, "v1");
                }
                other => panic!("unexpected {:?}", other),
            }
        }
        other => panic!("unexpected {:?}", other),
    }
    match resolve_dependency("/c", "/p", &"foo".to_string(), &RuneDependency::Simple("1.0".to_string()), &vec![], &vec![]) {
        Ok(Resolution::Fetch(q)) => assert_eq!(q.version.as_deref(), Some("1.0")),
        other => panic!("unexpected {:?}", other),
    }
}

#[test]
fn fetch_outcomes_map_to_errors() {
    assert!(matches!(fetch_result(&request(), FetchOutcome::Unreachable), Err(ResolutionError::Transient(n)) if n == "foo"));
    assert!(matches!(fetch_result(&request(), FetchOutcome::Missing), Err(ResolutionError::NotFound(_))));
    let bad = FetchOutcome::Fetched {
        version: "1.0.1".to_string(),
        expected: Some("aa".to_string()),
        checksum: "bb".to_string(),
    };
    assert!(matches!(fetch_result(&request(), bad), Err(ResolutionError::ChecksumMismatch(_))));
    let good = FetchOutcome::Fetched {
        version: "1.0.1".to_string(),
        expected: Some("aa".to_string()),
        checksum: "aa".to_string(),
    };
    let r = fetch_result(&request(), good).unwrap();
    assert_eq!(r.fetched_path, "/cache/src/foo");
    assert_eq!(r.resolved_version, "1.0.1");
    assert_eq!(r.checksum.as_deref(), Some("aa"));
}

#[test]
fn only_transient_failures_are_retried() {
    let t = ResolutionError::Transient("foo".to_string());
    assert!(should_retry(1, 3, &t));
    assert!(!should_retry(3, 3, &t));
    assert!(!should_retry(0, 3, &ResolutionError::NotFound("foo".to_string())));
}

#[test]
fn resolution_is_recorded_as_lock_entry() {
    let r = ResolvedDependency {
        name: "foo".to_string(),
        fetched_path: "/cache/src/foo".to_string(),
        resolved_version: "1.0.2".to_string(),
        checksum: Some("abc".to_string()),
    };
    let e = to_lock_entry(&r);
    assert_eq!(e.name, "foo");
    assert_eq!(e.version, "1.0.2");
    assert_eq!(e.source.as_deref(), Some("/cache/src/foo"));
    assert_eq!(e.checksum.as_deref(), Some("abc"));
}

#[test]
fn output_dir_steps() {
    assert_eq!(create_output_dir("/p"), "/p/target");
    assert_eq!(dir_step(false, false), Ok(DirStep::Create));
    assert_eq!(dir_step(true, true), Ok(DirStep::UseExisting));
    assert_eq!(dir_step(true, false), Err(DirError::IsFile));
}

#[test]
fn toolchain_invocation_and_outcome() {
    let b = build_invocation("/p/target/crate", true);
    assert_eq!(b.program, "cargo");
    assert_eq!(b.args, vec!["run".to_string(), "--release".to_string()]);
    assert_eq!(b.cwd, "/p/target/crate");
    assert_eq!(build_invocation("x", false).args[0], "build");
    assert_eq!(build_outcome(false, false), Err(ToolchainError::Spawn));
    assert_eq!(build_outcome(true, false), Err(ToolchainError::Failed));
    assert_eq!(build_outcome(true, true), Ok(()));
}
