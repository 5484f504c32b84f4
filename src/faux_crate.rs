use vstd::prelude::*;

use crate::manifest::RuneManifest;
use crate::text::{
    base_name, base_name_exec, join_lines, join_lines_exec, path_join, path_join_exec,
    push_quoted, push_quoted_list, quoted, quoted_list, views, LiteralStyle,
};

verus! {

/// Why the host project could not be synthesized.
#[derive(Clone, Debug)]
pub enum SynthesisError {
    /// Precompilation produced no bytecode artifact, so there is nothing to run.
    NoArtifacts,
    /// This artifact path names no file: it is empty, ends in a separator,
    /// or ends in `.` or `..`.
    NoFileName(String),
    /// The resolved dependencies are not those the manifest declares, in order.
    UnresolvedDependencies,
}

/// A dependency whose source has been fetched.
#[derive(Clone, Debug)]
pub struct ResolvedDependency {
    pub name: String,
    pub fetched_path: String,
    pub resolved_version: String,
    pub checksum: Option<String>,
}

/// The files of a synthesized host project, with where they go.
#[derive(Clone, Debug)]
pub struct FauxCrate {
    pub crate_dir: String,
    pub cargo_toml_path: String,
    pub cargo_toml: String,
    pub main_rs_path: String,
    pub main_rs: String,
}

/// The first lines of the entry-point program.
pub open spec fn main_rs_header() -> Seq<Seq<char>> {
    seq![
        "/* Runs the precompiled units of a script project. */"@,
        "use rune::{Unit, Context, Vm};"@,
        "use std::sync::Arc;"@,
        "use rune_modules::with_config;"@,
        ""@,
        "pub fn main() {"@,
        "    let mut context = with_config(true).unwrap();"@,
    ]
}

/// The line that embeds the artifact file `f` into the binary at build time.
pub open spec fn embed_line(f: Seq<char>) -> Seq<char> {
    "    let bytes = include_bytes!(concat!(env!(\"CARGO_MANIFEST_DIR\"), \"/../deps/\", "@
        + quoted(f, LiteralStyle::Rust) + "));"@
}

/// A file name that an artifact can be embedded under.
pub open spec fn usable_name(n: Seq<char>) -> bool {
    n.len() > 0 && n != "."@ && n != ".."@
}

pub open spec fn all_named(files: Seq<Seq<char>>) -> bool {
    forall|i: int| 0 <= i < files.len() ==> usable_name(base_name(#[trigger] files[i]))
}

/// One resolution per declared dependency, in declaration order.
pub open spec fn resolves_manifest(m: RuneManifest, resolved: Seq<ResolvedDependency>) -> bool {
    match m.dependencies {
        None => resolved.len() == 0,
        Some(d) => resolved.len() == d@.len() && forall|i: int|
            0 <= i < resolved.len() ==> (#[trigger] resolved[i]).name@ == d@[i].0@,
    }
}

fn check_resolved(m: &RuneManifest, resolved: &Vec<ResolvedDependency>) -> (r: bool)
    ensures
        r == resolves_manifest(*m, resolved@),
{
    match &m.dependencies {
        None => resolved.len() == 0,
        Some(d) => {
            if resolved.len() != d.len() {
                return false;
            }
            let mut i: usize = 0;
            while i < resolved.len()
                invariant
                    i <= resolved.len() == d.len(),
                    m.dependencies == Some(*d),
                    forall|j: int| 0 <= j < i ==> (#[trigger] resolved@[j]).name@ == d@[j].0@,
                decreases resolved.len() - i,
            {
                if resolved[i].name != d[i].0 {
                    return false;
                }
                i += 1;
            }
            true
        },
    }
}

/// Embed, decode, construct a machine and call `main`, for the artifact file `f`.
pub open spec fn unit_block(f: Seq<char>) -> Seq<Seq<char>> {
    seq![
        embed_line(f),
        "    let unit: Unit = serde_cbor::from_slice(bytes).unwrap();"@,
        "    let unit = Arc::new(unit);"@,
        "    let runtime = Arc::new(context.runtime());"@,
        "    let mut vm = Vm::new(runtime.clone(), unit.clone());"@,
        "    vm.call([\"main\"], ()).unwrap();"@,
    ]
}

/// One block per artifact, in the order given.
pub open spec fn unit_blocks(files: Seq<Seq<char>>) -> Seq<Seq<char>>
    decreases files.len(),
{
    if files.len() == 0 {
        Seq::empty()
    } else {
        unit_blocks(files.drop_last()) + unit_block(base_name(files.last()))
    }
}

pub open spec fn main_rs_lines(files: Seq<Seq<char>>) -> Seq<Seq<char>> {
    main_rs_header() + unit_blocks(files) + seq!["}"@]
}

/// The dependencies that every host project needs to embed and run a unit.
pub open spec fn runtime_dependency_lines() -> Seq<Seq<char>> {
    seq![
        "serde_cbor = \"*\""@,
        "rune = { git = \"https://github.com/rune-rs/rune\" }"@,
        "rune-modules = { git = \"https://github.com/rune-rs/rune\" }"@,
    ]
}

pub open spec fn resolved_line(d: ResolvedDependency) -> Seq<char> {
    d.name@ + " = { path = "@ + quoted(d.fetched_path@, LiteralStyle::Toml) + " }"@
}

pub open spec fn resolved_lines(ds: Seq<ResolvedDependency>) -> Seq<Seq<char>> {
    ds.map_values(|d: ResolvedDependency| resolved_line(d))
}

pub open spec fn authors_of(m: RuneManifest) -> Seq<Seq<char>> {
    match m.project.authors {
        Some(a) => views(a@),
        None => Seq::empty(),
    }
}

pub open spec fn cargo_toml_lines(m: RuneManifest, resolved: Seq<ResolvedDependency>) -> Seq<
    Seq<char>,
> {
    seq![
        "[project]"@,
        "name = "@ + quoted(m.project.name@, LiteralStyle::Toml),
        "edition = \"2021\""@,
        "authors = "@ + quoted_list(authors_of(m)),
        "version = "@ + quoted(m.project.version@, LiteralStyle::Toml),
        ""@,
        "[dependencies]"@,
    ] + runtime_dependency_lines() + resolved_lines(resolved)
}

fn push_line(lines: &mut Vec<String>, s: String)
    ensures
        views(final(lines)@) == views(old(lines)@).push(s@),
{
    lines.push(s);
    assert(views(lines@) =~= views(old(lines)@).push(s@));
}

fn push_str_line(lines: &mut Vec<String>, s: &str)
    ensures
        views(final(lines)@) == views(old(lines)@).push(s@),
{
    push_line(lines, String::from_str(s));
}

/// The text of the host project's build descriptor.
pub fn generate_cargo_toml(manifest: &RuneManifest, resolved: &Vec<ResolvedDependency>) -> (r:
    String)
    ensures
        r@ == join_lines(cargo_toml_lines(*manifest, resolved@)),
{
    let mut lines: Vec<String> = Vec::new();
    assert(views(lines@) =~= Seq::empty());
    push_str_line(&mut lines, "[project]");
    let mut name = String::from_str("name = ");
    push_quoted(&mut name, manifest.project.name.as_str(), LiteralStyle::Toml);
    push_line(&mut lines, name);
    push_str_line(&mut lines, "edition = \"2021\"");
    let mut authors = String::from_str("authors = ");
    match &manifest.project.authors {
        Some(a) => push_quoted_list(&mut authors, a),
        None => {
            let none: Vec<String> = Vec::new();
            assert(views(none@) =~= Seq::empty());
            push_quoted_list(&mut authors, &none);
        },
    }
    push_line(&mut lines, authors);
    let mut version = String::from_str("version = ");
    push_quoted(&mut version, manifest.project.version.as_str(), LiteralStyle::Toml);
    push_line(&mut lines, version);
    push_str_line(&mut lines, "");
    push_str_line(&mut lines, "[dependencies]");
    push_str_line(&mut lines, "serde_cbor = \"*\"");
    push_str_line(&mut lines, "rune = { git = \"https://github.com/rune-rs/rune\" }");
    push_str_line(&mut lines, "rune-modules = { git = \"https://github.com/rune-rs/rune\" }");
    let ghost fixed = views(lines@);
    assert(fixed =~= cargo_toml_lines(*manifest, seq![]));
    let mut i: usize = 0;
    while i < resolved.len()
        invariant
            i <= resolved.len(),
            views(lines@) == fixed + resolved_lines(resolved@.take(i as int)),
        decreases resolved.len() - i,
    {
        let d = &resolved[i];
        let mut line = d.name.clone();
        line.append(" = { path = ");
        push_quoted(&mut line, d.fetched_path.as_str(), LiteralStyle::Toml);
        line.append(" }");
        push_line(&mut lines, line);
        assert(resolved_lines(resolved@.take(i + 1)) =~= resolved_lines(resolved@.take(i as int)).push(
            resolved_line(resolved@[i as int]),
        ));
        i += 1;
    }
    assert(resolved@.take(resolved.len() as int) =~= resolved@);
    assert(views(lines@) =~= cargo_toml_lines(*manifest, resolved@));
    join_lines_exec(&lines)
}

/// The text of the entry-point program that embeds and runs each artifact, in
/// the order given; refused when there is no artifact to run, or when an
/// artifact path names no file.
pub fn generate_main_rs(linked_files: &Vec<String>) -> (r: Result<String, SynthesisError>)
    ensures
        linked_files.len() == 0 <==> r matches Err(SynthesisError::NoArtifacts),
        r is Ok <==> linked_files.len() > 0 && all_named(views(linked_files@)),
        r matches Err(SynthesisError::NoFileName(p)) ==> exists|i: int|
            0 <= i < linked_files.len() && !usable_name(base_name(linked_files@[i]@))
                && linked_files@[i]@ == p@,
        r is Ok ==> r->Ok_0@ == join_lines(main_rs_lines(views(linked_files@))),
{
    if linked_files.len() == 0 {
        return Err(SynthesisError::NoArtifacts);
    }
    let mut lines: Vec<String> = Vec::new();
    assert(views(lines@) =~= Seq::empty());
    push_str_line(&mut lines, "/* Runs the precompiled units of a script project. */");
    push_str_line(&mut lines, "use rune::{Unit, Context, Vm};");
    push_str_line(&mut lines, "use std::sync::Arc;");
    push_str_line(&mut lines, "use rune_modules::with_config;");
    push_str_line(&mut lines, "");
    push_str_line(&mut lines, "pub fn main() {");
    push_str_line(&mut lines, "    let mut context = with_config(true).unwrap();");
    assert(views(lines@) =~= main_rs_header());
    let mut i: usize = 0;
    while i < linked_files.len()
        invariant
            i <= linked_files.len(),
            linked_files.len() > 0,
            views(lines@) == main_rs_header() + unit_blocks(views(linked_files@).take(i as int)),
            forall|k: int| 0 <= k < i ==> usable_name(base_name(#[trigger] linked_files@[k]@)),
        decreases linked_files.len() - i,
    {
        let file = base_name_exec(linked_files[i].as_str());
        let dot = String::from_str(".");
        let dotdot = String::from_str("..");
        if file.unicode_len() == 0 || file == dot || file == dotdot {
            assert(!usable_name(base_name(linked_files@[i as int]@)));
            assert(views(linked_files@)[i as int] == linked_files@[i as int]@);
            return Err(SynthesisError::NoFileName(linked_files[i].clone()));
        }
        let mut embed = String::from_str(
            "    let bytes = include_bytes!(concat!(env!(\"CARGO_MANIFEST_DIR\"), \"/../deps/\", ",
        );
        push_quoted(&mut embed, file.as_str(), LiteralStyle::Rust);
        embed.append("));");
        let ghost before = views(lines@);
        push_line(&mut lines, embed);
        push_str_line(&mut lines, "    let unit: Unit = serde_cbor::from_slice(bytes).unwrap();");
        push_str_line(&mut lines, "    let unit = Arc::new(unit);");
        push_str_line(&mut lines, "    let runtime = Arc::new(context.runtime());");
        push_str_line(&mut lines, "    let mut vm = Vm::new(runtime.clone(), unit.clone());");
        push_str_line(&mut lines, "    vm.call([\"main\"], ()).unwrap();");
        assert(views(lines@) =~= before + unit_block(file@));
        assert(views(linked_files@).take(i + 1).drop_last() =~= views(linked_files@).take(
            i as int,
        ));
        assert(views(lines@) =~= main_rs_header() + unit_blocks(
            views(linked_files@).take(i + 1),
        ));
        i += 1;
    }
    assert(views(linked_files@).take(linked_files.len() as int) =~= views(linked_files@));
    assert(all_named(views(linked_files@))) by {
        assert forall|k: int| 0 <= k < views(linked_files@).len() implies usable_name(
            base_name(#[trigger] views(linked_files@)[k]),
        ) by {
            assert(views(linked_files@)[k] == linked_files@[k]@);
        }
    }
    push_str_line(&mut lines, "}");
    assert(views(lines@) =~= main_rs_lines(views(linked_files@)));
    Ok(join_lines_exec(&lines))
}

/// The host project for `manifest` under `target_path`, embedding the given
/// artifacts and depending on the resolutions of the manifest's dependencies.
pub fn generate_fake_crate(
    target_path: &str,
    manifest: &RuneManifest,
    resolved: &Vec<ResolvedDependency>,
    linked_files: &Vec<String>,
) -> (r: Result<FauxCrate, SynthesisError>)
    ensures
        linked_files.len() == 0 <==> r matches Err(SynthesisError::NoArtifacts),
        r matches Err(SynthesisError::NoFileName(p)) ==> exists|i: int|
            0 <= i < linked_files.len() && !usable_name(base_name(linked_files@[i]@))
                && linked_files@[i]@ == p@,
        linked_files.len() > 0 && all_named(views(linked_files@)) && !resolves_manifest(
            *manifest,
            resolved@,
        ) ==> r matches Err(SynthesisError::UnresolvedDependencies),
        r is Ok <==> linked_files.len() > 0 && all_named(views(linked_files@)) && resolves_manifest(
            *manifest,
            resolved@,
        ),
        r is Ok ==> ({
            let c = r->Ok_0;
            &&& c.crate_dir@ == path_join(target_path@, "crate"@)
            &&& c.cargo_toml_path@ == path_join(c.crate_dir@, "Cargo.toml"@)
            &&& c.cargo_toml@ == join_lines(cargo_toml_lines(*manifest, resolved@))
            &&& c.main_rs_path@ == path_join(path_join(c.crate_dir@, "src"@), "main.rs"@)
            &&& c.main_rs@ == join_lines(main_rs_lines(views(linked_files@)))
        }),
{
    let crate_dir = create_crate_path(target_path);
    let cargo_toml = generate_cargo_toml(manifest, resolved);
    let main_rs = match generate_main_rs(linked_files) {
        Ok(text) => text,
        Err(e) => return Err(e),
    };
    if !check_resolved(manifest, resolved) {
        return Err(SynthesisError::UnresolvedDependencies);
    }
    let cargo_toml_path = path_join_exec(crate_dir.as_str(), "Cargo.toml");
    let src_dir = path_join_exec(crate_dir.as_str(), "src");
    let main_rs_path = path_join_exec(src_dir.as_str(), "main.rs");
    Ok(FauxCrate { crate_dir, cargo_toml_path, cargo_toml, main_rs_path, main_rs })
}

/// Where the host project goes under the output directory.
pub fn create_crate_path(path: &str) -> (r: String)
    ensures
        r@ == path_join(path@, "crate"@),
{
    path_join_exec(path, "crate")
}

} // verus!
