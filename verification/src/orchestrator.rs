//! The build orchestrator: sequences target builds in manifest order with
//! uniform fail-fast error propagation. The caller performs the actual
//! outside work (locating the project root, reading and parsing the
//! manifest, creating the output directory, spawning the compiler) and hands
//! the outcomes back; every decision is made here.

use vstd::prelude::*;

use crate::args::{assemble, assembled};
use crate::config::Config;
use crate::defs::{derived_defs, get_definitions};

verus! {

/// The terminal errors of a run. The first error encountered anywhere aborts
/// all remaining work; none are retried.
#[derive(Debug, PartialEq, Eq)]
pub enum BuildError {
    ManifestNotFound,
    ManifestParseError,
    ProjectRootNotFound,
    OutputDirectoryCreateError,
    CompilerSpawnError { target: String },
    CompilerNonSuccessExit { target: String },
}

/// What went wrong during the setup steps that precede any compilation, as
/// observed by the caller doing the outside work.
#[derive(Debug, Clone, Copy, PartialEq, Eq)]
pub enum SetupFailure {
    RootNotFound,
    ManifestMissing,
    ManifestUnparsable,
    OutputDirFailed,
}

/// The outcome of one external compiler call: the process could not be
/// spawned, or it exited and its exit status maps to a success flag.
#[derive(Debug, Clone, Copy, PartialEq, Eq)]
pub enum CompileOutcome {
    SpawnFailed,
    Exited { success: bool },
}

/// Drives the targets of one configuration strictly in order, one pending
/// target at a time.
#[derive(Debug)]
pub struct Orchestrator {
    pub config: Config,
    pub defs: Vec<(String, String)>,
    pub next: usize,
}

impl Orchestrator {
    /// The stored definitions are exactly those derived from the package,
    /// and `next` points at the pending target, or one past the last.
    pub open spec fn wf(self) -> bool {
        &&& self.defs@.map_values(|d: (String, String)| (d.0@, d.1@)) == derived_defs(
            self.config.package.name@,
            self.config.package.version@,
        )
        &&& self.next <= self.config.bin@.len()
    }

    /// True while at least one target has not been built yet.
    pub open spec fn pending(self) -> bool {
        self.next < self.config.bin@.len()
    }

    /// Prepares a run over the configuration's targets, deriving the macro
    /// definitions once; no target is built yet.
    pub fn new(config: Config) -> (o: Orchestrator)
        ensures
            o.wf(),
            o.config == config,
            o.next == 0,
    {
        let defs = get_definitions(&config);
        Orchestrator { config, defs, next: 0 }
    }

    /// The argument list of the pending target's compiler invocation, built
    /// with the output directory `build`, or `None` once every target has
    /// been built.
    pub fn next_invocation(&self) -> (r: Option<Vec<String>>)
        requires
            self.wf(),
        ensures
            match r {
                Some(args) => self.pending() && args@.map_values(|s: String| s@) == assembled(
                    derived_defs(self.config.package.name@, self.config.package.version@),
                    self.config.package.edition@,
                    self.config.bin@[self.next as int].name@,
                    self.config.bin@[self.next as int].path@,
                    "build"@,
                ),
                None => !self.pending(),
            },
    {
        if self.next < self.config.bin.len() {
            let target = &self.config.bin[self.next];
            Some(assemble(&self.defs, self.config.package.edition.as_str(), target, "build"))
        } else {
            None
        }
    }

    /// Records the outcome of the pending target's compile call. On success
    /// the orchestrator advances to the next target; on a spawn failure or a
    /// non-success exit it stops where it is and reports an error naming the
    /// offending target, so no later target is ever invoked after a failure.
    /// With no target pending there is nothing to record.
    pub fn on_compile_result(&mut self, outcome: CompileOutcome) -> (r: Result<(), BuildError>)
        requires
            old(self).wf(),
        ensures
            final(self).wf(),
            final(self).config == old(self).config,
            final(self).defs == old(self).defs,
            !old(self).pending() ==> r == Ok::<(), BuildError>(()) && final(self).next == old(
                self,
            ).next,
            old(self).pending() ==> match outcome {
                CompileOutcome::Exited { success: true } => {
                    &&& r == Ok::<(), BuildError>(())
                    &&& final(self).next == old(self).next + 1
                },
                CompileOutcome::Exited { success: false } => {
                    &&& final(self).next == old(self).next
                    &&& r matches Err(BuildError::CompilerNonSuccessExit { target }) && target@
                        == old(self).config.bin@[old(self).next as int].name@
                },
                CompileOutcome::SpawnFailed => {
                    &&& final(self).next == old(self).next
                    &&& r matches Err(BuildError::CompilerSpawnError { target }) && target@ == old(
                        self,
                    ).config.bin@[old(self).next as int].name@
                },
            },
    {
        if self.next < self.config.bin.len() {
            match outcome {
                CompileOutcome::Exited { success } => {
                    if success {
                        self.next = self.next + 1;
                        Ok(())
                    } else {
                        Err(
                            BuildError::CompilerNonSuccessExit {
                                target: self.config.bin[self.next].name.clone(),
                            },
                        )
                    }
                },
                CompileOutcome::SpawnFailed => {
                    Err(
                        BuildError::CompilerSpawnError {
                            target: self.config.bin[self.next].name.clone(),
                        },
                    )
                },
            }
        } else {
            Ok(())
        }
    }
}

/// Maps the outcome of the setup steps (root location, manifest loading and
/// parsing, output-directory creation) to a ready orchestrator or to the
/// corresponding terminal error. A setup failure aborts the run before any
/// compiler invocation exists.
pub fn start_build(setup: Result<Config, SetupFailure>) -> (r: Result<Orchestrator, BuildError>)
    ensures
        match setup {
            Ok(config) => r matches Ok(o) && o.wf() && o.config == config && o.next == 0,
            Err(SetupFailure::RootNotFound) => r == Err::<Orchestrator, BuildError>(
                BuildError::ProjectRootNotFound,
            ),
            Err(SetupFailure::ManifestMissing) => r == Err::<Orchestrator, BuildError>(
                BuildError::ManifestNotFound,
            ),
            Err(SetupFailure::ManifestUnparsable) => r == Err::<Orchestrator, BuildError>(
                BuildError::ManifestParseError,
            ),
            Err(SetupFailure::OutputDirFailed) => r == Err::<Orchestrator, BuildError>(
                BuildError::OutputDirectoryCreateError,
            ),
        },
{
    match setup {
        Ok(config) => Ok(Orchestrator::new(config)),
        Err(SetupFailure::RootNotFound) => Err(BuildError::ProjectRootNotFound),
        Err(SetupFailure::ManifestMissing) => Err(BuildError::ManifestNotFound),
        Err(SetupFailure::ManifestUnparsable) => Err(BuildError::ManifestParseError),
        Err(SetupFailure::OutputDirFailed) => Err(BuildError::OutputDirectoryCreateError),
    }
}

} // verus!
