use rune_deploy::manifest::{
    DetailedRuneDependency, ManifestError, RuneDependency, RuneKind, RuneManifest, RuneProject,
};

fn project() -> RuneProject {
    RuneProject::new("hello".to_string(), "0.1.0".to_string())
}

#[test]
fn duplicate_dependency_key_is_refused() {
    let deps = vec![
        ("foo".to_string(), RuneDependency::Simple("1.0".to_string())),
        ("bar".to_string(), RuneDependency::Simple("2.0".to_string())),
        ("foo".to_string(), RuneDependency::Simple("1.1".to_string())),
    ];
    match RuneManifest::new(project(), Some(deps)) {
        Err(ManifestError::DuplicateDependency(k)) => assert_eq!(k, "foo"),
        other => panic!("expected a duplicate key error, got {:?}", other),
    }
}

#[test]
fn distinct_dependency_keys_are_kept_in_order() {
    let deps = vec![
        ("foo".to_string(), RuneDependency::Simple("1.0".to_string())),
        (
            "bar".to_string(),
            RuneDependency::Detailed(DetailedRuneDependency::default()),
        ),
    ];
    let m = RuneManifest::new(project(), Some(deps)).unwrap();
    let d = m.dependencies.unwrap();
    assert_eq!(d.len(), 2);
    assert_eq!(d[0].0, "foo");
    assert_eq!(d[1].0, "bar");
}

#[test]
fn manifest_without_dependencies_loads() {
    let m = RuneManifest::new(project(), None).unwrap();
    assert_eq!(m.project.name, "hello");
    assert_eq!(m.project.version, "0.1.0");
    assert!(m.dependencies.is_none());
}

#[test]
fn missing_name_and_version_are_schema_errors() {
    assert!(matches!(
        RuneProject::from_required(None, Some("1".to_string())),
        Err(ManifestError::MissingName)
    ));
    assert!(matches!(
        RuneProject::from_required(Some("x".to_string()), None),
        Err(ManifestError::MissingVersion)
    ));
    let p = RuneProject::from_required(Some("x".to_string()), Some("1".to_string())).unwrap();
    assert_eq!(p.name, "x");
    assert_eq!(p.kind, RuneKind::Rune);
}

#[test]
fn default_kind_is_script_only() {
    assert_eq!(RuneKind::default(), RuneKind::Rune);
}

#[test]
fn detailed_dependency_sources() {
    let mut d = DetailedRuneDependency::default();
    assert!(d.version.is_none() && d.path.is_none() && d.public.is_none());
    assert!(d.has_single_source());
    d.path = Some("../foo".to_string());
    assert!(d.has_single_source());
    d.git = Some("https://example.org/foo".to_string());
    assert!(!d.has_single_source());
}

#[test]
fn dependency_with_two_sources_is_refused() {
    let mut d = DetailedRuneDependency::default();
    d.path = Some("../foo".to_string());
    d.git = Some("https://example.org/foo".to_string());
    let deps = vec![
        ("ok".to_string(), RuneDependency::Simple("1.0".to_string())),
        ("foo".to_string(), RuneDependency::Detailed(d)),
    ];
    match RuneManifest::new(project(), Some(deps)) {
        Err(ManifestError::ConflictingSources(k)) => assert_eq!(k, "foo"),
        other => panic!("expected a source conflict, got {:?}", other),
    }
}
