use vstd::prelude::*;

use crate::manifest::RuneManifest;
use crate::text::{path_join, path_join_exec};

verus! {

/// Which entry file of a crate is compiled.
#[derive(Clone, Copy, Debug, PartialEq, Eq, Structural)]
pub enum CrateKind {
    Library,
    Executable,
}

pub open spec fn entry_file(kind: CrateKind) -> Seq<char> {
    match kind {
        CrateKind::Library => "lib.rn"@,
        CrateKind::Executable => "main.rn"@,
    }
}

/// `<crate_path>/src/lib.rn` or `<crate_path>/src/main.rn`.
pub fn entry_source_path(crate_path: &str, kind: CrateKind) -> (r: String)
    ensures
        r@ == path_join(path_join(crate_path@, "src"@), entry_file(kind)),
{
    let src = path_join_exec(crate_path, "src");
    match kind {
        CrateKind::Library => path_join_exec(src.as_str(), "lib.rn"),
        CrateKind::Executable => path_join_exec(src.as_str(), "main.rn"),
    }
}

/// The directory of serialized units under a target directory.
pub fn deps_dir(target_dir: &str) -> (r: String)
    ensures
        r@ == path_join(target_dir@, "deps"@),
{
    path_join_exec(target_dir, "deps")
}

/// `<target_dir>/deps/<crate_name>.rnc`: where the unit of a crate is cached.
pub fn bytecode_path(target_dir: &str, crate_name: &str) -> (r: String)
    ensures
        r@ == path_join(path_join(target_dir@, "deps"@), crate_name@ + ".rnc"@),
{
    let deps = deps_dir(target_dir);
    let mut file = String::from_str(crate_name);
    file.append(".rnc");
    path_join_exec(deps.as_str(), file.as_str())
}

/// Why a crate could not be precompiled.
#[derive(Clone, Debug)]
pub enum PrecompileError {
    /// The entry source file is absent.
    SourceNotFound(String),
    /// The compiler refused the source, with this many diagnostics.
    Compile { diagnostics: usize },
    /// The artifact could not be written.
    Write,
    /// The artifact did not read back as the unit that was written.
    CacheCorruption,
    /// An event came that the current stage does not expect.
    OutOfOrder,
}

/// Where a precompilation stands.
#[derive(Clone, Copy, Debug, PartialEq, Eq, Structural)]
pub enum Stage {
    Start,
    Loading,
    Compiling,
    Reporting { ok: bool, diagnostics: usize },
    Encoding,
    Writing,
    Verifying,
    Decoding,
    Done,
    Failed,
}

/// What the outside world reports back after an action.
#[derive(Clone, Debug)]
pub enum PrecompileEvent {
    Begin,
    SourceLoaded,
    SourceMissing,
    /// The compiler finished; `ok` when it produced a unit.
    Compiled { ok: bool, diagnostics: usize },
    DiagnosticsEmitted,
    /// The unit, serialized.
    Encoded(Vec<u8>),
    EncodeFailed,
    Written,
    WriteFailed,
    /// The artifact's bytes, read back from the cache.
    ReadBack(Vec<u8>),
    ReadFailed,
    /// Whether the bytes read back decode into a unit.
    Decoded { ok: bool },
}

/// What the outside world is asked to do next.
#[derive(Clone, Debug)]
pub enum PrecompileAction {
    ReadSource(String),
    /// Compile the loaded source; link checks are left to the host project.
    Compile { link_checks: bool },
    /// Render the compiler's diagnostics, whatever the outcome.
    EmitDiagnostics,
    Encode,
    /// Write the encoded bytes to this path.
    WriteArtifact(String),
    ReadArtifact(String),
    /// Decode the bytes that were read back.
    Decode,
    /// The artifact at this path is written and verified.
    Succeed(String),
    /// Stop with this error, after removing the file at `discard` if any.
    Fail { error: PrecompileError, discard: Option<String> },
}

/// The precompilation of one crate's entry module into a cached unit.
/// Every run compiles: an artifact is only ever written from the unit that
/// this run's compilation produced, never reused from an earlier run.
pub struct Precompiler {
    pub stage: Stage,
    pub source_path: String,
    pub artifact_path: String,
    /// The encoded unit, once there is one.
    pub bytes: Vec<u8>,
}

pub open spec fn fail(error: PrecompileError, discard: Option<String>) -> (Stage, PrecompileAction) {
    (Stage::Failed, PrecompileAction::Fail { error, discard })
}

/// The transition table of a precompilation.
pub open spec fn transition(
    stage: Stage,
    event: PrecompileEvent,
    bytes: Seq<u8>,
    source_path: String,
    artifact_path: String,
) -> (Stage, PrecompileAction) {
    match (stage, event) {
        (Stage::Start, PrecompileEvent::Begin) => (
            Stage::Loading,
            PrecompileAction::ReadSource(source_path),
        ),
        (Stage::Loading, PrecompileEvent::SourceLoaded) => (
            Stage::Compiling,
            PrecompileAction::Compile { link_checks: false },
        ),
        (Stage::Loading, PrecompileEvent::SourceMissing) => fail(
            PrecompileError::SourceNotFound(source_path),
            None,
        ),
        (Stage::Compiling, PrecompileEvent::Compiled { ok, diagnostics }) => (
            Stage::Reporting { ok, diagnostics },
            PrecompileAction::EmitDiagnostics,
        ),
        (Stage::Reporting { ok, diagnostics }, PrecompileEvent::DiagnosticsEmitted) => if ok {
            (Stage::Encoding, PrecompileAction::Encode)
        } else {
            fail(PrecompileError::Compile { diagnostics }, None)
        },
        (Stage::Encoding, PrecompileEvent::Encoded(_)) => (
            Stage::Writing,
            PrecompileAction::WriteArtifact(artifact_path),
        ),
        (Stage::Encoding, PrecompileEvent::EncodeFailed) => fail(
            PrecompileError::CacheCorruption,
            None,
        ),
        (Stage::Writing, PrecompileEvent::Written) => (
            Stage::Verifying,
            PrecompileAction::ReadArtifact(artifact_path),
        ),
        (Stage::Writing, PrecompileEvent::WriteFailed) => fail(
            PrecompileError::Write,
            Some(artifact_path),
        ),
        (Stage::Verifying, PrecompileEvent::ReadBack(read)) => if read@ == bytes {
            (Stage::Decoding, PrecompileAction::Decode)
        } else {
            fail(PrecompileError::CacheCorruption, Some(artifact_path))
        },
        (Stage::Verifying, PrecompileEvent::ReadFailed) => fail(
            PrecompileError::CacheCorruption,
            Some(artifact_path),
        ),
        (Stage::Decoding, PrecompileEvent::Decoded { ok }) => if ok {
            (Stage::Done, PrecompileAction::Succeed(artifact_path))
        } else {
            fail(PrecompileError::CacheCorruption, Some(artifact_path))
        },
        _ => fail(PrecompileError::OutOfOrder, None),
    }
}

/// Every run compiles afresh: an artifact is written only in the stage that
/// follows a successful compilation of this run, whose diagnostics were
/// rendered first, and always to the run's own artifact path.
pub proof fn lemma_write_only_after_compile(
    stage: Stage,
    event: PrecompileEvent,
    bytes: Seq<u8>,
    source_path: String,
    artifact_path: String,
)
    ensures
        ({
            let (next, action) = transition(stage, event, bytes, source_path, artifact_path);
            &&& action is WriteArtifact ==> stage == Stage::Encoding && event is Encoded
                && action->WriteArtifact_0 == artifact_path
            &&& next == Stage::Encoding ==> (stage matches Stage::Reporting { ok: true, .. })
                && event is DiagnosticsEmitted
            &&& (next matches Stage::Reporting { .. }) ==> stage == Stage::Compiling
                && event is Compiled && action is EmitDiagnostics
        }),
{
}

/// Success is reported only for an artifact whose bytes read back equal the
/// bytes encoded and then decoded; bytes that differ, or that cannot be read
/// back or decoded, fail the run as cache corruption and discard the file.
pub proof fn lemma_round_trip_checked(
    stage: Stage,
    event: PrecompileEvent,
    bytes: Seq<u8>,
    source_path: String,
    artifact_path: String,
)
    ensures
        ({
            let (next, action) = transition(stage, event, bytes, source_path, artifact_path);
            &&& action is Succeed ==> stage == Stage::Decoding && (event matches PrecompileEvent::Decoded { ok: true })
                && action->Succeed_0 == artifact_path
            &&& next == Stage::Decoding ==> stage == Stage::Verifying && event is ReadBack
                && event->ReadBack_0@ == bytes
            &&& stage == Stage::Verifying && event is ReadBack && event->ReadBack_0@ != bytes
                ==> action == PrecompileAction::Fail {
                error: PrecompileError::CacheCorruption,
                discard: Some(artifact_path),
            }
        }),
{
}

/// A compilation that fails ends the run with its diagnostics count after they
/// were rendered, and nothing is written or discarded.
pub proof fn lemma_compile_failure_writes_nothing(
    diagnostics: usize,
    bytes: Seq<u8>,
    source_path: String,
    artifact_path: String,
)
    ensures
        transition(
            Stage::Reporting { ok: false, diagnostics },
            PrecompileEvent::DiagnosticsEmitted,
            bytes,
            source_path,
            artifact_path,
        ) == (Stage::Failed, PrecompileAction::Fail {
            error: PrecompileError::Compile { diagnostics },
            discard: None,
        }),
{
}

fn bytes_equal(a: &Vec<u8>, b: &Vec<u8>) -> (r: bool)
    ensures
        r == (a@ == b@),
{
    if a.len() != b.len() {
        return false;
    }
    let mut i: usize = 0;
    while i < a.len()
        invariant
            a.len() == b.len(),
            i <= a.len(),
            forall|k: int| 0 <= k < i ==> a@[k] == b@[k],
        decreases a.len() - i,
    {
        if a[i] != b[i] {
            return false;
        }
        i += 1;
    }
    assert(a@ =~= b@);
    true
}

impl Precompiler {
    /// A precompilation of the `crate_kind` entry of the crate at `crate_path`,
    /// cached as `crate_name` under `target_dir`.
    pub fn new(target_dir: &str, crate_kind: CrateKind, crate_name: &str, crate_path: &str) -> (r:
        Precompiler)
        ensures
            r.stage == Stage::Start,
            r.source_path@ == path_join(path_join(crate_path@, "src"@), entry_file(crate_kind)),
            r.artifact_path@ == path_join(path_join(target_dir@, "deps"@), crate_name@ + ".rnc"@),
            r.bytes@.len() == 0,
    {
        Precompiler {
            stage: Stage::Start,
            source_path: entry_source_path(crate_path, crate_kind),
            artifact_path: bytecode_path(target_dir, crate_name),
            bytes: Vec::new(),
        }
    }

    /// Takes the outcome of the last action and says what to do next.
    pub fn step(&mut self, event: PrecompileEvent) -> (r: PrecompileAction)
        ensures
            (final(self).stage, r) == transition(
                old(self).stage,
                event,
                old(self).bytes@,
                old(self).source_path,
                old(self).artifact_path,
            ),
            final(self).source_path == old(self).source_path,
            final(self).artifact_path == old(self).artifact_path,
            final(self).bytes@ == (match event {
                PrecompileEvent::Encoded(b) => if old(self).stage == Stage::Encoding {
                    b@
                } else {
                    old(self).bytes@
                },
                _ => old(self).bytes@,
            }),
    {
        let (stage, action) = match (self.stage, event) {
            (Stage::Start, PrecompileEvent::Begin) => (
                Stage::Loading,
                PrecompileAction::ReadSource(self.source_path.clone()),
            ),
            (Stage::Loading, PrecompileEvent::SourceLoaded) => (
                Stage::Compiling,
                PrecompileAction::Compile { link_checks: false },
            ),
            (Stage::Loading, PrecompileEvent::SourceMissing) => (
                Stage::Failed,
                PrecompileAction::Fail {
                    error: PrecompileError::SourceNotFound(self.source_path.clone()),
                    discard: None,
                },
            ),
            (Stage::Compiling, PrecompileEvent::Compiled { ok, diagnostics }) => (
                Stage::Reporting { ok, diagnostics },
                PrecompileAction::EmitDiagnostics,
            ),
            (Stage::Reporting { ok, diagnostics }, PrecompileEvent::DiagnosticsEmitted) => {
                if ok {
                    (Stage::Encoding, PrecompileAction::Encode)
                } else {
                    (
                        Stage::Failed,
                        PrecompileAction::Fail {
                            error: PrecompileError::Compile { diagnostics },
                            discard: None,
                        },
                    )
                }
            },
            (Stage::Encoding, PrecompileEvent::Encoded(b)) => {
                self.bytes = b;
                (Stage::Writing, PrecompileAction::WriteArtifact(self.artifact_path.clone()))
            },
            (Stage::Encoding, PrecompileEvent::EncodeFailed) => (
                Stage::Failed,
                PrecompileAction::Fail { error: PrecompileError::CacheCorruption, discard: None },
            ),
            (Stage::Writing, PrecompileEvent::Written) => (
                Stage::Verifying,
                PrecompileAction::ReadArtifact(self.artifact_path.clone()),
            ),
            (Stage::Writing, PrecompileEvent::WriteFailed) => (
                Stage::Failed,
                PrecompileAction::Fail {
                    error: PrecompileError::Write,
                    discard: Some(self.artifact_path.clone()),
                },
            ),
            (Stage::Verifying, PrecompileEvent::ReadBack(read)) => {
                if bytes_equal(&read, &self.bytes) {
                    (Stage::Decoding, PrecompileAction::Decode)
                } else {
                    (
                        Stage::Failed,
                        PrecompileAction::Fail {
                            error: PrecompileError::CacheCorruption,
                            discard: Some(self.artifact_path.clone()),
                        },
                    )
                }
            },
            (Stage::Verifying, PrecompileEvent::ReadFailed) => (
                Stage::Failed,
                PrecompileAction::Fail {
                    error: PrecompileError::CacheCorruption,
                    discard: Some(self.artifact_path.clone()),
                },
            ),
            (Stage::Decoding, PrecompileEvent::Decoded { ok }) => {
                if ok {
                    (Stage::Done, PrecompileAction::Succeed(self.artifact_path.clone()))
                } else {
                    (
                        Stage::Failed,
                        PrecompileAction::Fail {
                            error: PrecompileError::CacheCorruption,
                            discard: Some(self.artifact_path.clone()),
                        },
                    )
                }
            },
            _ => (
                Stage::Failed,
                PrecompileAction::Fail { error: PrecompileError::OutOfOrder, discard: None },
            ),
        };
        self.stage = stage;
        action
    }
}

/// The precompilation of the project's own executable entry, cached under
/// `target_dir`.
pub fn precompile_rune_code(root_dir: &str, target_dir: &str, manifest: &RuneManifest) -> (r:
    Precompiler)
    ensures
        r.stage == Stage::Start,
        r.bytes@.len() == 0,
        r.source_path@ == path_join(path_join(root_dir@, "src"@), "main.rn"@),
        r.artifact_path@ == path_join(
            path_join(target_dir@, "deps"@),
            manifest.project.name@ + ".rnc"@,
        ),
{
    Precompiler::new(target_dir, CrateKind::Executable, manifest.project.name.as_str(), root_dir)
}

} // verus!
