use vstd::prelude::*;

verus! {

/// What a script crate contains; decides which entry file is compiled.
#[derive(Clone, Copy, Debug, PartialEq, Eq, Structural)]
pub enum RuneKind {
    /// Native modules only.
    Rust,
    /// Script code only.
    Rune,
    /// A mix of script code and native modules.
    Mixed,
}

impl Default for RuneKind {
    fn default() -> (r: Self)
        ensures
            r == RuneKind::Rune,
    {
        RuneKind::Rune
    }
}

/// Why a manifest could not be loaded.
#[derive(Clone, Debug)]
pub enum ManifestError {
    /// The manifest file is absent.
    NotFound,
    /// The text is not a manifest; the parser's message.
    Parse(String),
    /// `project.name` is missing.
    MissingName,
    /// `project.version` is missing.
    MissingVersion,
    /// A dependency key is declared more than once.
    DuplicateDependency(String),
    /// The named dependency sets more than one of `path`, `git` and `registry`.
    ConflictingSources(String),
}

/// The `[project]` table of a manifest.
#[derive(Clone, Debug)]
pub struct RuneProject {
    pub name: String,
    pub version: String,
    pub kind: RuneKind,
    pub authors: Option<Vec<String>>,
    pub description: Option<String>,
    pub homepage: Option<String>,
    pub documentation: Option<String>,
    pub keywords: Option<Vec<String>>,
    pub categories: Option<Vec<String>>,
    pub license: Option<String>,
    pub license_file: Option<String>,
    pub repository: Option<String>,
}

impl RuneProject {
    /// A project with the given name and version, the default kind and no
    /// optional metadata.
    pub fn new(name: String, version: String) -> (r: RuneProject)
        ensures
            r.name == name,
            r.version == version,
            r.kind == RuneKind::Rune,
            r.authors is None,
            r.description is None,
            r.homepage is None,
            r.documentation is None,
            r.keywords is None,
            r.categories is None,
            r.license is None,
            r.license_file is None,
            r.repository is None,
    {
        RuneProject {
            name,
            version,
            kind: RuneKind::default(),
            authors: None,
            description: None,
            homepage: None,
            documentation: None,
            keywords: None,
            categories: None,
            license: None,
            license_file: None,
            repository: None,
        }
    }

    /// Checks the two required fields of a parsed `[project]` table.
    pub fn from_required(name: Option<String>, version: Option<String>) -> (r: Result<
        RuneProject,
        ManifestError,
    >)
        ensures
            name is None ==> r matches Err(ManifestError::MissingName),
            name is Some && version is None ==> r matches Err(ManifestError::MissingVersion),
            name is Some && version is Some <==> r is Ok,
            r is Ok ==> ({
                let p = r->Ok_0;
                &&& p.name == name->Some_0 && p.version == version->Some_0
                &&& p.kind == RuneKind::Rune && p.authors is None && p.description is None
                &&& p.homepage is None && p.documentation is None && p.keywords is None
                &&& p.categories is None && p.license is None && p.license_file is None
                &&& p.repository is None
            }),
    {
        match name {
            None => Err(ManifestError::MissingName),
            Some(n) => match version {
                None => Err(ManifestError::MissingVersion),
                Some(v) => Ok(RuneProject::new(n, v)),
            },
        }
    }
}

/// A detailed dependency table: `name = { version = "..", path = ".." }`.
#[derive(Clone, Debug)]
pub struct DetailedRuneDependency {
    pub version: Option<String>,
    pub registry: Option<String>,
    /// The URL of the `registry` field.
    pub registry_index: Option<String>,
    /// Relative to the manifest that declares it.
    pub path: Option<String>,
    pub git: Option<String>,
    pub branch: Option<String>,
    pub tag: Option<String>,
    pub rev: Option<String>,
    pub features: Option<Vec<String>>,
    pub optional: Option<bool>,
    pub default_features: Option<bool>,
    /// The same flag, spelled with an underscore.
    pub default_features2: Option<bool>,
    pub package: Option<String>,
    pub public: Option<bool>,
}

impl DetailedRuneDependency {
    /// How many of `path`, `git` and `registry` are set.
    pub open spec fn source_count(&self) -> nat {
        (if self.path is Some { 1nat } else { 0nat }) + (if self.git is Some { 1nat } else { 0nat })
            + (if self.registry is Some { 1nat } else { 0nat })
    }

    /// At most one field names where the dependency comes from.
    pub fn has_single_source(&self) -> (r: bool)
        ensures
            r == (self.source_count() <= 1),
    {
        let mut n: u8 = 0;
        if self.path.is_some() {
            n += 1;
        }
        if self.git.is_some() {
            n += 1;
        }
        if self.registry.is_some() {
            n += 1;
        }
        n <= 1
    }
}

impl Default for DetailedRuneDependency {
    fn default() -> (r: Self)
        ensures
            r.version is None,
            r.registry is None,
            r.registry_index is None,
            r.path is None,
            r.git is None,
            r.branch is None,
            r.tag is None,
            r.rev is None,
            r.features is None,
            r.optional is None,
            r.default_features is None,
            r.default_features2 is None,
            r.package is None,
            r.public is None,
    {
        DetailedRuneDependency {
            version: None,
            registry: None,
            registry_index: None,
            path: None,
            git: None,
            branch: None,
            tag: None,
            rev: None,
            features: None,
            optional: None,
            default_features: None,
            default_features2: None,
            package: None,
            public: None,
        }
    }
}

/// A declared dependency: a bare version string, or a detailed table.
#[derive(Clone, Debug)]
pub enum RuneDependency {
    /// `package = "<version>"`
    Simple(String),
    /// `package = { version = "<version>", .. }`
    Detailed(DetailedRuneDependency),
}

/// No two entries share a key.
pub open spec fn keys_unique(deps: Seq<(String, RuneDependency)>) -> bool {
    forall|i: int, j: int| 0 <= i < j < deps.len() ==> deps[i].0@ != deps[j].0@
}

/// A bare version, or a table that names at most one source.
pub open spec fn single_source(d: RuneDependency) -> bool {
    match d {
        RuneDependency::Simple(_) => true,
        RuneDependency::Detailed(x) => x.source_count() <= 1,
    }
}

pub open spec fn sources_single(deps: Seq<(String, RuneDependency)>) -> bool {
    forall|i: int| 0 <= i < deps.len() ==> single_source(#[trigger] deps[i].1)
}

pub open spec fn deps_valid(deps: Seq<(String, RuneDependency)>) -> bool {
    keys_unique(deps) && sources_single(deps)
}

/// The declared dependencies, in declaration order.
#[derive(Clone, Debug)]
pub struct RuneManifest {
    pub project: RuneProject,
    pub dependencies: Option<Vec<(String, RuneDependency)>>,
}

impl RuneManifest {
    pub open spec fn wf(&self) -> bool {
        match self.dependencies {
            None => true,
            Some(d) => deps_valid(d@),
        }
    }

    /// Builds a manifest; a dependency key declared twice is refused, never
    /// resolved by keeping one of the entries, and so is a dependency that
    /// names more than one source.
    pub fn new(project: RuneProject, dependencies: Option<Vec<(String, RuneDependency)>>) -> (r:
        Result<RuneManifest, ManifestError>)
        ensures
            r is Ok <==> (dependencies is None || deps_valid(dependencies->Some_0@)),
            r is Ok ==> r->Ok_0.project == project && r->Ok_0.dependencies == dependencies
                && r->Ok_0.wf(),
            dependencies is Some && !keys_unique(dependencies->Some_0@) ==> r is Err
                && r->Err_0 is DuplicateDependency && exists|i: int, j: int|
                0 <= i < j < dependencies->Some_0@.len()
                    && dependencies->Some_0@[i].0@ == dependencies->Some_0@[j].0@
                    && dependencies->Some_0@[j].0@ == r->Err_0->DuplicateDependency_0@,
            dependencies is Some && keys_unique(dependencies->Some_0@) && !sources_single(
                dependencies->Some_0@,
            ) ==> r is Err && r->Err_0 is ConflictingSources && exists|i: int|
                0 <= i < dependencies->Some_0@.len() && !single_source(
                    dependencies->Some_0@[i].1,
                ) && dependencies->Some_0@[i].0@ == r->Err_0->ConflictingSources_0@,
    {
        match &dependencies {
            None => {},
            Some(d) => {
                let mut j: usize = 0;
                while j < d.len()
                    invariant
                        j <= d.len(),
                        dependencies == Some(*d),
                        forall|a: int, b: int| 0 <= a < b < j ==> d@[a].0@ != d@[b].0@,
                    decreases d.len() - j,
                {
                    let mut i: usize = 0;
                    while i < j
                        invariant
                            i <= j < d.len(),
                            dependencies == Some(*d),
                            forall|a: int| 0 <= a < i ==> d@[a].0@ != d@[j as int].0@,
                        decreases j - i,
                    {
                        if d[i].0 == d[j].0 {
                            assert(d@[i as int].0@ == d@[j as int].0@);
                            let key = d[j].0.clone();
                            assert(key@ == dependencies->Some_0@[j as int].0@);
                            assert(dependencies->Some_0@[i as int].0@ == dependencies->Some_0@[j as int].0@);
                            return Err(ManifestError::DuplicateDependency(key));
                        }
                        i += 1;
                    }
                    j += 1;
                }
                let mut k: usize = 0;
                while k < d.len()
                    invariant
                        k <= d.len(),
                        dependencies == Some(*d),
                        keys_unique(d@),
                        forall|a: int| 0 <= a < k ==> single_source(#[trigger] d@[a].1),
                    decreases d.len() - k,
                {
                    match &d[k].1 {
                        RuneDependency::Detailed(x) => {
                            if !x.has_single_source() {
                                let key = d[k].0.clone();
                                assert(!single_source(d@[k as int].1));
                                return Err(ManifestError::ConflictingSources(key));
                            }
                        },
                        RuneDependency::Simple(_) => {},
                    }
                    k += 1;
                }
            },
        }
        Ok(RuneManifest { project, dependencies })
    }
}

} // verus!
