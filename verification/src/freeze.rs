//! The freeze state machines.
//!
//! A freeze turns an abstract dependency spec into a pinned, sigil-stamped
//! lockfile.  The decisions are made here, step by step, as pure
//! transitions from state and event to next state and action; the driver
//! outside the library performs each action (read a file, run the package
//! manager or the container engine, write the lockfile) and hands the
//! outcome back as the next event.  Each machine runs its steps strictly
//! sequentially and stops at the first failure; a failed step never leaves
//! a partially written lockfile, and the cross-platform machine instructs
//! the removal of its scratch directory on every exit path that created
//! one.

use vstd::prelude::*;
use vstd::string::StringSliceAdditionalSpecFns;

use crate::commands::{conda_create_args, conda_export_args, spec_create_args, spec_export_args};
use crate::container::{
    docker_build_args, interpolate_dockerfile, image_name, run_container, spec_dockerfile,
    spec_image_name, spec_run_container_args,
};
use crate::deps::DepEntry;
use crate::errors::LockError;
use crate::hashing::sha1_hex_of;
use crate::sigil::{
    is_clean_hash, lemma_hash_text_clean, lockfile_is_up_to_date, render_lockfile,
    spec_decode_sigil, spec_encode_sigil, spec_up_to_date,
};
use crate::yamlio::{
    entries_match, normalize_export, read_dependency_doc, read_env_name_and_hash, spec_doc_items,
    spec_doc_name, spec_normalized_export, spec_retrieved_valid, validate_retrieved,
};

verus! {

/// How a finished freeze ended.
#[derive(Debug, Clone, PartialEq, Eq)]
pub enum FreezeOutcome {
    /// The existing lockfile already carries the spec's hash; nothing was
    /// done and nothing on disk changed.
    AlreadyFresh,
    /// A fresh, validated lockfile was handed out for writing.
    Committed,
    /// The freeze failed; nothing on disk changed.
    Failed(LockError),
}

/// The stations of a same-host freeze.
#[derive(Debug, Clone, Copy, PartialEq, Eq, Structural)]
pub enum SameHostStep {
    /// Waiting for the existing lockfile's contents.
    CheckFresh,
    /// Waiting for the package manager to resolve the spec into the scratch
    /// environment.
    CreateEnv,
    /// Waiting for the package manager to export the scratch environment.
    ExportEnv,
    /// Terminal: committed or already fresh.
    Done,
    /// Terminal: failed, nothing written.
    Failed,
}

/// What a same-host freeze asks its driver to observe.
pub enum SameHostEvent {
    /// The target lockfile's contents, or `None` when it cannot be read.
    LockfileRead(Option<String>),
    /// The package manager could not be located.
    ToolMissing,
    /// Whether the resolve invocation succeeded.
    CreateFinished(bool),
    /// The export invocation's captured output, or `None` when it failed.
    ExportFinished(Option<String>),
}

/// What a same-host freeze asks its driver to do next.
pub enum SameHostAction {
    /// Read the target lockfile and report its contents.
    ReadLockfile,
    /// Run the package manager with these arguments to resolve the spec.
    RunCreate { args: Vec<String> },
    /// Run the package manager with these arguments and capture its output.
    RunExport { args: Vec<String> },
    /// Commit: write exactly these bytes as the whole lockfile.
    WriteLockfile { contents: String },
    /// Stop with this outcome; no further work.
    Finish { outcome: FreezeOutcome },
}

/// Which events fit which station.
pub open spec fn same_host_expects(step: SameHostStep, event: SameHostEvent) -> bool {
    match step {
        SameHostStep::CheckFresh => event is LockfileRead,
        SameHostStep::CreateEnv => event is ToolMissing || event is CreateFinished,
        SameHostStep::ExportEnv => event is ToolMissing || event is ExportFinished,
        SameHostStep::Done => false,
        SameHostStep::Failed => false,
    }
}

/// The same-host freezer: resolves a spec locally and commits a
/// sigil-stamped lockfile, unless the existing lockfile is already fresh.
pub struct SameHostFreezer {
    pub step: SameHostStep,
    pub env_name: String,
    pub env_hash: String,
    pub depfile_path: String,
}

impl SameHostFreezer {
    /// The machine's invariant: its hash is a well-formed digest, so the
    /// sigil line it stamps decodes back to it.
    pub open spec fn wf(self) -> bool {
        is_clean_hash(self.env_hash@)
    }

    /// Starts a same-host freeze from the spec file's text: the hash is
    /// the digest of exactly those bytes, the name is the document's
    /// declared name, and the first action is to look at the existing
    /// lockfile.  Fails with `MalformedSpec` exactly when the text does not
    /// parse to a document with a string `name` field and a `dependencies`
    /// sequence.
    pub fn new(depfile_path: String, depfile_contents: &str) -> (r: Result<
        (SameHostFreezer, SameHostAction),
        LockError,
    >)
        ensures
            match (spec_doc_name(depfile_contents@), spec_doc_items(depfile_contents@)) {
                (Some(n), Some(_)) => r matches Ok(p) && {
                    &&& p.0.wf()
                    &&& p.0.step == SameHostStep::CheckFresh
                    &&& p.0.env_name@ == n
                    &&& p.0.env_hash@ == sha1_hex_of(depfile_contents.spec_bytes())
                    &&& p.0.depfile_path == depfile_path
                    &&& p.1 is ReadLockfile
                },
                _ => r matches Err(e) && e == LockError::MalformedSpec,
            },
    {
        let (env_name, env_hash) = match read_env_name_and_hash(depfile_contents) {
            Ok(p) => p,
            Err(e) => {
                return Err(e);
            },
        };
        proof {
            lemma_hash_text_clean(env_hash@);
        }
        let freezer = SameHostFreezer {
            step: SameHostStep::CheckFresh,
            env_name,
            env_hash,
            depfile_path,
        };
        Ok((freezer, SameHostAction::ReadLockfile))
    }

    /// One transition of the same-host freeze.
    ///
    /// An already-fresh lockfile stops the machine at once: no resolve, no
    /// export, no write — the lockfile stays byte-for-byte unchanged.
    /// Otherwise the machine resolves into the fixed scratch environment,
    /// exports it, normalizes the export, and commits sigil line plus body
    /// in one write; any failing step ends the freeze with nothing written.
    pub fn step(&mut self, event: SameHostEvent) -> (action: SameHostAction)
        requires
            old(self).wf(),
            same_host_expects(old(self).step, event),
        ensures
            final(self).wf(),
            final(self).env_hash == old(self).env_hash,
            final(self).env_name == old(self).env_name,
            final(self).depfile_path == old(self).depfile_path,
            old(self).step == SameHostStep::CheckFresh ==> (event matches
                SameHostEvent::LockfileRead(contents) && {
                if spec_up_to_date(contents, old(self).env_hash@) {
                    &&& final(self).step == SameHostStep::Done
                    &&& action == SameHostAction::Finish { outcome: FreezeOutcome::AlreadyFresh }
                } else {
                    &&& final(self).step == SameHostStep::CreateEnv
                    &&& (action matches SameHostAction::RunCreate { args } && args@.map_values(
                        |s: String| s@,
                    ) == spec_create_args(old(self).depfile_path@))
                }
            }),
            old(self).step == SameHostStep::CreateEnv ==> (match event {
                SameHostEvent::ToolMissing => {
                    &&& final(self).step == SameHostStep::Failed
                    &&& action == SameHostAction::Finish {
                        outcome: FreezeOutcome::Failed(LockError::ToolNotFound),
                    }
                },
                SameHostEvent::CreateFinished(ok) => {
                    if ok {
                        &&& final(self).step == SameHostStep::ExportEnv
                        &&& (action matches SameHostAction::RunExport { args } && args@.map_values(
                            |s: String| s@,
                        ) == spec_export_args())
                    } else {
                        &&& final(self).step == SameHostStep::Failed
                        &&& action == SameHostAction::Finish {
                            outcome: FreezeOutcome::Failed(LockError::ExternalCommandFailed),
                        }
                    }
                },
                _ => false,
            }),
            old(self).step == SameHostStep::ExportEnv ==> (match event {
                SameHostEvent::ToolMissing => {
                    &&& final(self).step == SameHostStep::Failed
                    &&& action == SameHostAction::Finish {
                        outcome: FreezeOutcome::Failed(LockError::ToolNotFound),
                    }
                },
                SameHostEvent::ExportFinished(output) => {
                    match output {
                        Some(lock_data) => {
                            match spec_normalized_export(lock_data@, old(self).env_name@) {
                                Some(body) => {
                                    &&& final(self).step == SameHostStep::Done
                                    &&& (action matches SameHostAction::WriteLockfile { contents }
                                        && contents@ == spec_encode_sigil(old(self).env_hash@)
                                        + body && spec_decode_sigil(contents@) == Some(
                                        old(self).env_hash@,
                                    ))
                                },
                                None => {
                                    &&& final(self).step == SameHostStep::Failed
                                    &&& action == SameHostAction::Finish {
                                        outcome: FreezeOutcome::Failed(LockError::MalformedSpec),
                                    }
                                },
                            }
                        },
                        None => {
                            &&& final(self).step == SameHostStep::Failed
                            &&& action == SameHostAction::Finish {
                                outcome: FreezeOutcome::Failed(LockError::ExternalCommandFailed),
                            }
                        },
                    }
                },
                _ => false,
            }),
    {
        match self.step {
            SameHostStep::CheckFresh => {
                match event {
                    SameHostEvent::LockfileRead(contents) => {
                        if lockfile_is_up_to_date(&contents, self.env_hash.as_str()) {
                            self.step = SameHostStep::Done;
                            SameHostAction::Finish { outcome: FreezeOutcome::AlreadyFresh }
                        } else {
                            self.step = SameHostStep::CreateEnv;
                            let args = conda_create_args(self.depfile_path.as_str());
                            SameHostAction::RunCreate { args }
                        }
                    },
                    _ => vstd::pervasive::unreached(),
                }
            },
            SameHostStep::CreateEnv => {
                match event {
                    SameHostEvent::ToolMissing => {
                        self.step = SameHostStep::Failed;
                        SameHostAction::Finish {
                            outcome: FreezeOutcome::Failed(LockError::ToolNotFound),
                        }
                    },
                    SameHostEvent::CreateFinished(ok) => {
                        if ok {
                            self.step = SameHostStep::ExportEnv;
                            let args = conda_export_args();
                            SameHostAction::RunExport { args }
                        } else {
                            self.step = SameHostStep::Failed;
                            SameHostAction::Finish {
                                outcome: FreezeOutcome::Failed(LockError::ExternalCommandFailed),
                            }
                        }
                    },
                    _ => vstd::pervasive::unreached(),
                }
            },
            SameHostStep::ExportEnv => {
                match event {
                    SameHostEvent::ToolMissing => {
                        self.step = SameHostStep::Failed;
                        SameHostAction::Finish {
                            outcome: FreezeOutcome::Failed(LockError::ToolNotFound),
                        }
                    },
                    SameHostEvent::ExportFinished(output) => {
                        match output {
                            Some(lock_data) => {
                                match normalize_export(lock_data.as_str(), self.env_name.as_str()) {
                                    Ok(body) => {
                                        self.step = SameHostStep::Done;
                                        let contents = render_lockfile(
                                            self.env_hash.as_str(),
                                            body.as_str(),
                                        );
                                        SameHostAction::WriteLockfile { contents }
                                    },
                                    Err(_) => {
                                        self.step = SameHostStep::Failed;
                                        SameHostAction::Finish {
                                            outcome: FreezeOutcome::Failed(
                                                LockError::MalformedSpec,
                                            ),
                                        }
                                    },
                                }
                            },
                            None => {
                                self.step = SameHostStep::Failed;
                                SameHostAction::Finish {
                                    outcome: FreezeOutcome::Failed(
                                        LockError::ExternalCommandFailed,
                                    ),
                                }
                            },
                        }
                    },
                    _ => vstd::pervasive::unreached(),
                }
            },
            SameHostStep::Done => vstd::pervasive::unreached(),
            SameHostStep::Failed => vstd::pervasive::unreached(),
        }
    }
}

/// The stations of a cross-platform freeze: capturing a Linux environment
/// from a Darwin host inside a disposable container.
#[derive(Debug, Clone, Copy, PartialEq, Eq, Structural)]
pub enum CrossStep {
    /// Waiting for the existing lockfile's contents.
    CheckFresh,
    /// Waiting for the container engine to build the disposable image.
    BuildImage,
    /// Waiting for the driver to stage the spec and the environment name
    /// into a fresh scratch directory.
    StageInputs,
    /// Waiting for the container run to finish.
    RunBuild,
    /// Waiting for the exported document to be read back from the scratch
    /// directory.
    Retrieve,
    /// Terminal: committed or already fresh.
    Done,
    /// Terminal: failed, nothing written.
    Failed,
}

/// What a cross-platform freeze asks its driver to observe.
pub enum CrossEvent {
    /// The target lockfile's contents, or `None` when it cannot be read.
    LockfileRead(Option<String>),
    /// The container engine could not be located.
    ToolMissing,
    /// Whether the image build succeeded.
    ImageBuilt(bool),
    /// The scratch directory's path once the spec file and the environment
    /// name were staged into it, or `None` when staging failed and no
    /// scratch directory remains.
    Staged(Option<String>),
    /// Whether the container run succeeded.
    RunFinished(bool),
    /// The exported document read back from the scratch directory, or
    /// `None` when it cannot be read.
    Retrieved(Option<String>),
}

/// What a cross-platform freeze asks its driver to do next.
pub enum CrossAction {
    /// Read the target lockfile and report its contents.
    ReadLockfile,
    /// Build the disposable image from exactly this image definition,
    /// piped to the container engine's standard input.
    BuildImage { dockerfile: String, args: Vec<String> },
    /// Create a scratch directory, copy the spec file into it as
    /// `deps.yml`, and write the environment name into `env_name` beside
    /// it.
    StageInputs { env_name: String },
    /// Run the container engine with these arguments and wait for it.
    RunContainer { args: Vec<String> },
    /// Read `deps.lock.yml` from the scratch directory.
    ReadScratchLock,
    /// Commit: write exactly these bytes as the whole lockfile, and remove
    /// the scratch directory when told to.
    WriteLockfile { contents: String, cleanup_scratch: bool },
    /// Stop with this outcome, removing the scratch directory when told
    /// to; no further work.
    Finish { outcome: FreezeOutcome, cleanup_scratch: bool },
}

/// Which events fit which station.
pub open spec fn cross_expects(step: CrossStep, event: CrossEvent) -> bool {
    match step {
        CrossStep::CheckFresh => event is LockfileRead,
        CrossStep::BuildImage => event is ToolMissing || event is ImageBuilt,
        CrossStep::StageInputs => event is Staged,
        CrossStep::RunBuild => event is ToolMissing || event is RunFinished,
        CrossStep::Retrieve => event is Retrieved,
        CrossStep::Done => false,
        CrossStep::Failed => false,
    }
}

/// The cross-platform freezer: builds a disposable image, resolves the
/// spec inside it against a scratch directory, validates the retrieved
/// document against the requested package sets, and commits a
/// sigil-stamped lockfile.
pub struct CrossPlatformFreezer {
    pub step: CrossStep,
    /// Whether a scratch directory exists that this machine owns and must
    /// see removed on every exit path.
    pub scratch_exists: bool,
    pub env_name: String,
    pub env_hash: String,
    pub depfile_path: String,
    /// The requested dependency entries, kept for superset validation of
    /// the retrieved document.
    pub spec_entries: Vec<DepEntry>,
}

impl CrossPlatformFreezer {
    /// The machine's invariant: its hash is a well-formed digest, so the
    /// sigil line it stamps decodes back to it.
    pub open spec fn wf(self) -> bool {
        is_clean_hash(self.env_hash@)
    }

    /// Starts a cross-platform freeze from the spec file's text: the hash
    /// is the digest of exactly those bytes, the name and the requested
    /// entries come from the parsed document, no scratch directory exists
    /// yet, and the first action is to look at the existing lockfile.
    /// Fails with `MalformedSpec` exactly when the text does not parse to a
    /// document with a string `name` field and a `dependencies` sequence.
    pub fn new(depfile_path: String, depfile_contents: &str) -> (r: Result<
        (CrossPlatformFreezer, CrossAction),
        LockError,
    >)
        ensures
            match (spec_doc_name(depfile_contents@), spec_doc_items(depfile_contents@)) {
                (Some(n), Some(items)) => r matches Ok(p) && {
                    &&& p.0.wf()
                    &&& p.0.step == CrossStep::CheckFresh
                    &&& !p.0.scratch_exists
                    &&& p.0.env_name@ == n
                    &&& entries_match(items, p.0.spec_entries@)
                    &&& p.0.env_hash@ == sha1_hex_of(depfile_contents.spec_bytes())
                    &&& p.0.depfile_path == depfile_path
                    &&& p.1 is ReadLockfile
                },
                _ => r matches Err(e) && e == LockError::MalformedSpec,
            },
    {
        let spec = match read_dependency_doc(depfile_contents) {
            Ok(spec) => spec,
            Err(e) => {
                return Err(e);
            },
        };
        let env_hash = crate::hashing::compute_file_hash(depfile_contents);
        proof {
            lemma_hash_text_clean(env_hash@);
        }
        let freezer = CrossPlatformFreezer {
            step: CrossStep::CheckFresh,
            scratch_exists: false,
            env_name: spec.name,
            env_hash,
            depfile_path,
            spec_entries: spec.entries,
        };
        Ok((freezer, CrossAction::ReadLockfile))
    }

    /// One transition of the cross-platform freeze.
    ///
    /// An already-fresh lockfile stops the machine at once: no image
    /// build, no container run, no write.  Otherwise the machine builds
    /// the image, stages the inputs into a scratch directory, runs the
    /// container, validates the retrieved document against the requested
    /// package sets, and commits sigil line plus retrieved body in one
    /// write.  Every terminal action — commit or failure — instructs the
    /// removal of the scratch directory exactly when one was created, so
    /// no exit path leaves it behind.
    pub fn step(&mut self, event: CrossEvent) -> (action: CrossAction)
        requires
            old(self).wf(),
            cross_expects(old(self).step, event),
        ensures
            final(self).wf(),
            final(self).env_hash == old(self).env_hash,
            final(self).env_name == old(self).env_name,
            final(self).depfile_path == old(self).depfile_path,
            final(self).spec_entries == old(self).spec_entries,
            // Scratch-directory discipline: every terminal action
            // instructs removal exactly when a scratch directory exists.
            action matches CrossAction::Finish { cleanup_scratch, .. } ==> cleanup_scratch == old(
                self,
            ).scratch_exists,
            action matches CrossAction::WriteLockfile { cleanup_scratch, .. }
                ==> cleanup_scratch == old(self).scratch_exists,
            // A failure is always terminal, with nothing written.
            final(self).step == CrossStep::Failed ==> (action matches CrossAction::Finish {
                outcome, .. } && outcome matches FreezeOutcome::Failed(_)),
            old(self).step == CrossStep::CheckFresh ==> (event matches
                CrossEvent::LockfileRead(contents) && {
                if spec_up_to_date(contents, old(self).env_hash@) {
                    &&& final(self).step == CrossStep::Done
                    &&& action == CrossAction::Finish {
                        outcome: FreezeOutcome::AlreadyFresh,
                        cleanup_scratch: old(self).scratch_exists,
                    }
                } else {
                    &&& final(self).step == CrossStep::BuildImage
                    &&& final(self).scratch_exists == old(self).scratch_exists
                    &&& (action matches CrossAction::BuildImage { dockerfile, args } && dockerfile@
                        == spec_dockerfile() && args@.map_values(|s: String| s@) == seq![
                        "build"@,
                        "-t"@,
                        spec_image_name(),
                        "-"@,
                    ])
                }
            }),
            old(self).step == CrossStep::BuildImage ==> (match event {
                CrossEvent::ToolMissing => {
                    &&& final(self).step == CrossStep::Failed
                    &&& action == CrossAction::Finish {
                        outcome: FreezeOutcome::Failed(LockError::ToolNotFound),
                        cleanup_scratch: old(self).scratch_exists,
                    }
                },
                CrossEvent::ImageBuilt(ok) => {
                    if ok {
                        &&& final(self).step == CrossStep::StageInputs
                        &&& final(self).scratch_exists == old(self).scratch_exists
                        &&& (action matches CrossAction::StageInputs { env_name } && env_name
                            == old(self).env_name)
                    } else {
                        &&& final(self).step == CrossStep::Failed
                        &&& action == CrossAction::Finish {
                            outcome: FreezeOutcome::Failed(LockError::ExternalCommandFailed),
                            cleanup_scratch: old(self).scratch_exists,
                        }
                    }
                },
                _ => false,
            }),
            old(self).step == CrossStep::StageInputs ==> (event matches CrossEvent::Staged(scratch)
                && (match scratch {
                Some(dir) => {
                    &&& final(self).step == CrossStep::RunBuild
                    &&& final(self).scratch_exists
                    &&& (action matches CrossAction::RunContainer { args } && args@.map_values(
                        |s: String| s@,
                    ) == spec_run_container_args(dir@, spec_image_name()))
                },
                None => {
                    &&& final(self).step == CrossStep::Failed
                    &&& action == CrossAction::Finish {
                        outcome: FreezeOutcome::Failed(LockError::ExternalCommandFailed),
                        cleanup_scratch: old(self).scratch_exists,
                    }
                },
            })),
            old(self).step == CrossStep::RunBuild ==> (match event {
                CrossEvent::ToolMissing => {
                    &&& final(self).step == CrossStep::Failed
                    &&& action == CrossAction::Finish {
                        outcome: FreezeOutcome::Failed(LockError::ToolNotFound),
                        cleanup_scratch: old(self).scratch_exists,
                    }
                },
                CrossEvent::RunFinished(ok) => {
                if ok {
                    &&& final(self).step == CrossStep::Retrieve
                    &&& final(self).scratch_exists == old(self).scratch_exists
                    &&& action is ReadScratchLock
                } else {
                    &&& final(self).step == CrossStep::Failed
                    &&& action == CrossAction::Finish {
                        outcome: FreezeOutcome::Failed(LockError::ExternalCommandFailed),
                        cleanup_scratch: old(self).scratch_exists,
                    }
                }
                },
                _ => false,
            }),
            old(self).step == CrossStep::Retrieve ==> (event matches CrossEvent::Retrieved(doc)
                && (match doc {
                Some(lock_text) => {
                    if spec_retrieved_valid(old(self).spec_entries@, lock_text@) {
                        &&& final(self).step == CrossStep::Done
                        &&& (action matches CrossAction::WriteLockfile {
                            contents,
                            cleanup_scratch,
                        } && contents@ == spec_encode_sigil(old(self).env_hash@) + lock_text@
                            && spec_decode_sigil(contents@) == Some(old(self).env_hash@))
                    } else {
                        &&& final(self).step == CrossStep::Failed
                        &&& action == CrossAction::Finish {
                            outcome: FreezeOutcome::Failed(LockError::InvalidLock),
                            cleanup_scratch: old(self).scratch_exists,
                        }
                    }
                },
                None => {
                    &&& final(self).step == CrossStep::Failed
                    &&& action == CrossAction::Finish {
                        outcome: FreezeOutcome::Failed(LockError::ExternalCommandFailed),
                        cleanup_scratch: old(self).scratch_exists,
                    }
                },
            })),
    {
        match self.step {
            CrossStep::CheckFresh => {
                match event {
                    CrossEvent::LockfileRead(contents) => {
                        if lockfile_is_up_to_date(&contents, self.env_hash.as_str()) {
                            self.step = CrossStep::Done;
                            CrossAction::Finish {
                                outcome: FreezeOutcome::AlreadyFresh,
                                cleanup_scratch: self.scratch_exists,
                            }
                        } else {
                            self.step = CrossStep::BuildImage;
                            let dockerfile = interpolate_dockerfile();
                            let args = docker_build_args();
                            proof {
                                assert(args@.map_values(|s: String| s@) =~= seq![
                                    "build"@,
                                    "-t"@,
                                    spec_image_name(),
                                    "-"@,
                                ]);
                            }
                            CrossAction::BuildImage { dockerfile, args }
                        }
                    },
                    _ => vstd::pervasive::unreached(),
                }
            },
            CrossStep::BuildImage => {
                match event {
                    CrossEvent::ToolMissing => {
                        self.step = CrossStep::Failed;
                        CrossAction::Finish {
                            outcome: FreezeOutcome::Failed(LockError::ToolNotFound),
                            cleanup_scratch: self.scratch_exists,
                        }
                    },
                    CrossEvent::ImageBuilt(ok) => {
                        if ok {
                            self.step = CrossStep::StageInputs;
                            let env_name = self.env_name.clone();
                            CrossAction::StageInputs { env_name }
                        } else {
                            self.step = CrossStep::Failed;
                            CrossAction::Finish {
                                outcome: FreezeOutcome::Failed(LockError::ExternalCommandFailed),
                                cleanup_scratch: self.scratch_exists,
                            }
                        }
                    },
                    _ => vstd::pervasive::unreached(),
                }
            },
            CrossStep::StageInputs => {
                match event {
                    CrossEvent::Staged(scratch) => {
                        match scratch {
                            Some(dir) => {
                                self.step = CrossStep::RunBuild;
                                self.scratch_exists = true;
                                let img = image_name();
                                let args = run_container(dir.as_str(), img.as_str());
                                CrossAction::RunContainer { args }
                            },
                            None => {
                                self.step = CrossStep::Failed;
                                CrossAction::Finish {
                                    outcome: FreezeOutcome::Failed(
                                        LockError::ExternalCommandFailed,
                                    ),
                                    cleanup_scratch: self.scratch_exists,
                                }
                            },
                        }
                    },
                    _ => vstd::pervasive::unreached(),
                }
            },
            CrossStep::RunBuild => {
                match event {
                    CrossEvent::ToolMissing => {
                        self.step = CrossStep::Failed;
                        CrossAction::Finish {
                            outcome: FreezeOutcome::Failed(LockError::ToolNotFound),
                            cleanup_scratch: self.scratch_exists,
                        }
                    },
                    CrossEvent::RunFinished(ok) => {
                        if ok {
                            self.step = CrossStep::Retrieve;
                            CrossAction::ReadScratchLock
                        } else {
                            self.step = CrossStep::Failed;
                            CrossAction::Finish {
                                outcome: FreezeOutcome::Failed(LockError::ExternalCommandFailed),
                                cleanup_scratch: self.scratch_exists,
                            }
                        }
                    },
                    _ => vstd::pervasive::unreached(),
                }
            },
            CrossStep::Retrieve => {
                match event {
                    CrossEvent::Retrieved(doc) => {
                        match doc {
                            Some(lock_text) => {
                                let valid = validate_retrieved(
                                    &self.spec_entries,
                                    lock_text.as_str(),
                                );
                                if valid {
                                    self.step = CrossStep::Done;
                                    let contents = render_lockfile(
                                        self.env_hash.as_str(),
                                        lock_text.as_str(),
                                    );
                                    CrossAction::WriteLockfile {
                                        contents,
                                        cleanup_scratch: self.scratch_exists,
                                    }
                                } else {
                                    self.step = CrossStep::Failed;
                                    CrossAction::Finish {
                                        outcome: FreezeOutcome::Failed(LockError::InvalidLock),
                                        cleanup_scratch: self.scratch_exists,
                                    }
                                }
                            },
                            None => {
                                self.step = CrossStep::Failed;
                                CrossAction::Finish {
                                    outcome: FreezeOutcome::Failed(
                                        LockError::ExternalCommandFailed,
                                    ),
                                    cleanup_scratch: self.scratch_exists,
                                }
                            },
                        }
                    },
                    _ => vstd::pervasive::unreached(),
                }
            },
            CrossStep::Done => vstd::pervasive::unreached(),
            CrossStep::Failed => vstd::pervasive::unreached(),
        }
    }
}

} // verus!
