use rune_deploy::faux_crate::{
    create_crate_path, generate_cargo_toml, generate_fake_crate, generate_main_rs,
    ResolvedDependency, SynthesisError,
};
use rune_deploy::manifest::{RuneManifest, RuneProject};

fn hello() -> RuneManifest {
    RuneManifest::new(RuneProject::new("hello".to_string(), "0.1.0".to_string()), None).unwrap()
}

fn header() -> String {
    [
        "/* Runs the precompiled units of a script project. */",
        "use rune::{Unit, Context, Vm};",
        "use std::sync::Arc;",
        "use rune_modules::with_config;",
        "",
        "pub fn main() {",
        "    let mut context = with_config(true).unwrap();",
        "",
    ]
    .join("\n")
}

fn block(file: &str) -> String {
    [
        format!(
            "    let bytes = include_bytes!(concat!(env!(\"CARGO_MANIFEST_DIR\"), \"/../deps/\", \"{}\"));",
            file
        ),
        "    let unit: Unit = serde_cbor::from_slice(bytes).unwrap();".to_string(),
        "    let unit = Arc::new(unit);".to_string(),
        "    let runtime = Arc::new(context.runtime());".to_string(),
        "    let mut vm = Vm::new(runtime.clone(), unit.clone());".to_string(),
        "    vm.call([\"main\"], ()).unwrap();".to_string(),
        "".to_string(),
    ]
    .join("\n")
}

#[test]
fn hello_project_synthesizes_one_unit() {
    let c = generate_fake_crate(
        "/work/hello/target",
        &hello(),
        &vec![],
        &vec!["/work/hello/target/deps/hello.rnc".to_string()],
    )
    .unwrap();
    assert_eq!(c.crate_dir, "/work/hello/target/crate");
    assert_eq!(c.cargo_toml_path, "/work/hello/target/crate/Cargo.toml");
    assert_eq!(c.main_rs_path, "/work/hello/target/crate/src/main.rs");
    assert_eq!(c.main_rs, format!("{}{}}}", header(), block("hello.rnc")));
    assert_eq!(
        c.cargo_toml,
        [
            "[project]",
            "name = \"hello\"",
            "edition = \"2021\"",
            "authors = []",
            "version = \"0.1.0\"",
            "",
            "[dependencies]",
            "serde_cbor = \"*\"",
            "rune = { git = \"https://github.com/rune-rs/rune\" }",
            "rune-modules = { git = \"https://github.com/rune-rs/rune\" }",
        ]
        .join("\n")
    );
}

#[test]
fn zero_artifacts_is_a_synthesis_error() {
    assert!(matches!(generate_main_rs(&vec![]), Err(SynthesisError::NoArtifacts)));
    assert!(matches!(
        generate_fake_crate("t", &hello(), &vec![], &vec![]),
        Err(SynthesisError::NoArtifacts)
    ));
}

#[test]
fn units_are_embedded_in_discovery_order() {
    let text = generate_main_rs(&vec!["deps/b.rnc".to_string(), "a.rnc".to_string()]).unwrap();
    assert_eq!(text, format!("{}{}{}}}", header(), block("b.rnc"), block("a.rnc")));
}

#[test]
fn cargo_toml_lists_authors_and_resolved_dependencies() {
    let mut m = hello();
    m.project.authors = Some(vec!["Ann".to_string(), "Bo \"B\"".to_string()]);
    let r = vec![ResolvedDependency {
        name: "foo".to_string(),
        fetched_path: "/cache/src/foo".to_string(),
        resolved_version: "1.0.0".to_string(),
        checksum: None,
    }];
    let text = generate_cargo_toml(&m, &r);
    let lines: Vec<&str> = text.lines().collect();
    assert_eq!(lines[3], "authors = [\"Ann\", \"Bo \\\"B\\\"\"]");
    assert_eq!(lines[lines.len() - 1], "foo = { path = \"/cache/src/foo\" }");
    assert_eq!(lines.len(), 11);
}

#[test]
fn crate_path_is_under_the_output_dir() {
    assert_eq!(create_crate_path("out/"), "out/crate");
    assert_eq!(create_crate_path("out"), "out/crate");
    assert_eq!(create_crate_path(""), "crate");
}

#[test]
fn artifact_path_without_file_name_is_refused() {
    for bad in ["/", "", "a/..", "."] {
        match generate_main_rs(&vec!["ok.rnc".to_string(), bad.to_string()]) {
            Err(SynthesisError::NoFileName(p)) => assert_eq!(p, bad),
            other => panic!("unexpected {:?}", other),
        }
    }
}

#[test]
fn resolutions_must_match_declared_dependencies() {
    let extra = vec![ResolvedDependency {
        name: "foo".to_string(),
        fetched_path: "/cache/src/foo".to_string(),
        resolved_version: "1.0.0".to_string(),
        checksum: None,
    }];
    assert!(matches!(
        generate_fake_crate("t", &hello(), &extra, &vec!["a.rnc".to_string()]),
        Err(SynthesisError::UnresolvedDependencies)
    ));
}
