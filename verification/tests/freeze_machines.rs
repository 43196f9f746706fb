use conda_lockfile::errors::LockError;
use conda_lockfile::freeze::{
    CrossAction, CrossEvent, CrossPlatformFreezer, CrossStep, FreezeOutcome, SameHostAction,
    SameHostEvent, SameHostFreezer, SameHostStep,
};
use conda_lockfile::platform::{parse_platform, plan_freeze, FreezeMode, Platform};
use conda_lockfile::sigil::render_lockfile;

const SPEC_TEXT: &str = "name: demo\ndependencies:\n  - numpy=1.21.0\n  - - requests\n";

const GOOD_LOCK: &str =
    "name: demo\ndependencies:\n  - numpy=1.21.0=py39h1\n  - openssl=1.1.1\n  - - requests=2.0\n    - idna=3.1\n";

const BAD_LOCK: &str = "name: demo\ndependencies:\n  - openssl=1.1.1\n  - - requests=2.0\n";

#[test]
fn plan_freeze_same_platform() {
    assert_eq!(
        plan_freeze(Platform::Linux, Platform::Linux),
        Ok(FreezeMode::SameHost)
    );
    assert_eq!(
        plan_freeze(Platform::Darwin, Platform::Darwin),
        Ok(FreezeMode::SameHost)
    );
}

#[test]
fn plan_freeze_supports_only_linux_from_darwin() {
    assert_eq!(
        plan_freeze(Platform::Darwin, Platform::Linux),
        Ok(FreezeMode::LinuxOnDarwin)
    );
    assert_eq!(
        plan_freeze(Platform::Linux, Platform::Darwin),
        Err(LockError::UnsupportedPlatformPair {
            execution: "Linux".to_string(),
            target: "Darwin".to_string(),
        })
    );
}

#[test]
fn parse_platform_recognizes_canonical_names() {
    assert_eq!(parse_platform("Linux"), Some(Platform::Linux));
    assert_eq!(parse_platform("Darwin"), Some(Platform::Darwin));
    assert_eq!(parse_platform("Windows"), None);
    assert_eq!(parse_platform("linux"), None);
}

#[test]
fn same_host_fresh_lockfile_is_a_no_op() {
    let (mut m, action) = SameHostFreezer::new("deps.yml".to_string(), SPEC_TEXT).unwrap();
    assert!(matches!(action, SameHostAction::ReadLockfile));
    let fresh = render_lockfile(&m.env_hash.clone(), GOOD_LOCK);
    let action = m.step(SameHostEvent::LockfileRead(Some(fresh)));
    assert!(matches!(
        action,
        SameHostAction::Finish { outcome: FreezeOutcome::AlreadyFresh }
    ));
    assert_eq!(m.step, SameHostStep::Done);
}

#[test]
fn same_host_happy_path_commits_stamped_lockfile() {
    let (mut m, _) = SameHostFreezer::new("deps.yml".to_string(), SPEC_TEXT).unwrap();
    assert_eq!(m.env_name, "demo");
    let action = m.step(SameHostEvent::LockfileRead(None));
    match action {
        SameHostAction::RunCreate { args } => {
            assert_eq!(
                args,
                vec![
                    "env".to_string(),
                    "create".to_string(),
                    "-f".to_string(),
                    "deps.yml".to_string(),
                    "-n".to_string(),
                    "___conda_lockfile_temp".to_string(),
                    "--yes".to_string(),
                ]
            );
        },
        _ => panic!("expected the resolve invocation"),
    }
    let action = m.step(SameHostEvent::CreateFinished(true));
    match action {
        SameHostAction::RunExport { args } => {
            assert_eq!(
                args,
                vec![
                    "env".to_string(),
                    "export".to_string(),
                    "-n".to_string(),
                    "___conda_lockfile_temp".to_string(),
                ]
            );
        },
        _ => panic!("expected the export invocation"),
    }
    let export = "name: ___conda_lockfile_temp\nprefix: /tmp/envs/x\ndependencies:\n  - numpy=1.21.0\n";
    let action = m.step(SameHostEvent::ExportFinished(Some(export.to_string())));
    match action {
        SameHostAction::WriteLockfile { contents } => {
            assert!(contents.starts_with(&format!("# ENVHASH: {}\n", m.env_hash)));
            assert!(contents.contains("name: demo"));
            assert!(!contents.contains("prefix"));
        },
        _ => panic!("expected the commit"),
    }
    assert_eq!(m.step, SameHostStep::Done);
}

#[test]
fn same_host_failures_commit_nothing() {
    let (mut m, _) = SameHostFreezer::new("deps.yml".to_string(), SPEC_TEXT).unwrap();
    m.step(SameHostEvent::LockfileRead(None));
    let action = m.step(SameHostEvent::ToolMissing);
    assert!(matches!(
        action,
        SameHostAction::Finish { outcome: FreezeOutcome::Failed(LockError::ToolNotFound) }
    ));
    assert_eq!(m.step, SameHostStep::Failed);

    let (mut m, _) = SameHostFreezer::new("deps.yml".to_string(), SPEC_TEXT).unwrap();
    m.step(SameHostEvent::LockfileRead(None));
    let action = m.step(SameHostEvent::CreateFinished(false));
    assert!(matches!(
        action,
        SameHostAction::Finish {
            outcome: FreezeOutcome::Failed(LockError::ExternalCommandFailed)
        }
    ));

    let (mut m, _) = SameHostFreezer::new("deps.yml".to_string(), SPEC_TEXT).unwrap();
    m.step(SameHostEvent::LockfileRead(None));
    m.step(SameHostEvent::CreateFinished(true));
    let action = m.step(SameHostEvent::ExportFinished(None));
    assert!(matches!(
        action,
        SameHostAction::Finish {
            outcome: FreezeOutcome::Failed(LockError::ExternalCommandFailed)
        }
    ));
}

#[test]
fn same_host_tool_missing_at_export_fails_with_tool_not_found() {
    let (mut m, _) = SameHostFreezer::new("deps.yml".to_string(), SPEC_TEXT).unwrap();
    m.step(SameHostEvent::LockfileRead(None));
    m.step(SameHostEvent::CreateFinished(true));
    let action = m.step(SameHostEvent::ToolMissing);
    assert!(matches!(
        action,
        SameHostAction::Finish { outcome: FreezeOutcome::Failed(LockError::ToolNotFound) }
    ));
    assert_eq!(m.step, SameHostStep::Failed);
}

#[test]
fn same_host_commits_normalized_export_body() {
    let (mut m, _) = SameHostFreezer::new("deps.yml".to_string(), SPEC_TEXT).unwrap();
    m.step(SameHostEvent::LockfileRead(None));
    m.step(SameHostEvent::CreateFinished(true));
    let export = "name: ___conda_lockfile_temp\nprefix: /tmp/envs/x\ndependencies:\n  - numpy=1.21.0\n";
    let expected_hash = m.env_hash.clone();
    let action = m.step(SameHostEvent::ExportFinished(Some(export.to_string())));
    match action {
        SameHostAction::WriteLockfile { contents } => {
            assert_eq!(
                contents.lines().next().unwrap(),
                format!("# ENVHASH: {}", expected_hash)
            );
        },
        _ => panic!("expected the commit"),
    }

    // An export that is not a mapping cannot be normalized: nothing written.
    let (mut m, _) = SameHostFreezer::new("deps.yml".to_string(), SPEC_TEXT).unwrap();
    m.step(SameHostEvent::LockfileRead(None));
    m.step(SameHostEvent::CreateFinished(true));
    let action = m.step(SameHostEvent::ExportFinished(Some("- a\n- b\n".to_string())));
    assert!(matches!(
        action,
        SameHostAction::Finish { outcome: FreezeOutcome::Failed(LockError::MalformedSpec) }
    ));
    assert_eq!(m.step, SameHostStep::Failed);
}

#[test]
fn same_host_rejects_malformed_spec() {
    assert!(matches!(
        SameHostFreezer::new("deps.yml".to_string(), "- not\n- a\n- mapping\n"),
        Err(LockError::MalformedSpec)
    ));
}

#[test]
fn cross_fresh_lockfile_is_a_no_op() {
    let (mut m, action) = CrossPlatformFreezer::new("deps.yml".to_string(), SPEC_TEXT).unwrap();
    assert!(matches!(action, CrossAction::ReadLockfile));
    assert!(!m.scratch_exists);
    let fresh = render_lockfile(&m.env_hash.clone(), GOOD_LOCK);
    let action = m.step(CrossEvent::LockfileRead(Some(fresh)));
    assert!(matches!(
        action,
        CrossAction::Finish { outcome: FreezeOutcome::AlreadyFresh, cleanup_scratch: false }
    ));
    assert_eq!(m.step, CrossStep::Done);
}

#[test]
fn cross_happy_path_validates_and_commits() {
    let (mut m, _) = CrossPlatformFreezer::new("deps.yml".to_string(), SPEC_TEXT).unwrap();
    assert_eq!(m.env_name, "demo");
    let action = m.step(CrossEvent::LockfileRead(None));
    match action {
        CrossAction::BuildImage { dockerfile, args } => {
            assert!(dockerfile.starts_with("\nFROM debian:stretch"));
            assert!(dockerfile.contains(
                "RUN echo 'set -e;cd artifacts;ENV_NAME=$(cat env_name);\
$CONDA_ROOT/bin/conda env create -f deps.yml -n $ENV_NAME;\
$CONDA_ROOT/bin/conda env export -n $ENV_NAME | grep -v \"^prefix:\" > deps.lock.yml' > build_lockfile.sh"
            ));
            assert_eq!(
                args,
                vec![
                    "build".to_string(),
                    "-t".to_string(),
                    "lock_file_maker".to_string(),
                    "-".to_string(),
                ]
            );
        },
        _ => panic!("expected the image build"),
    }
    let action = m.step(CrossEvent::ImageBuilt(true));
    match action {
        CrossAction::StageInputs { env_name } => assert_eq!(env_name, "demo"),
        _ => panic!("expected the staging request"),
    }
    let action = m.step(CrossEvent::Staged(Some("/tmp/scratch1".to_string())));
    assert!(m.scratch_exists);
    match action {
        CrossAction::RunContainer { args } => {
            assert_eq!(
                args,
                vec![
                    "run".to_string(),
                    "-v".to_string(),
                    "/tmp/scratch1:/app/artifacts".to_string(),
                    "-t".to_string(),
                    "lock_file_maker".to_string(),
                ]
            );
        },
        _ => panic!("expected the container run"),
    }
    let action = m.step(CrossEvent::RunFinished(true));
    assert!(matches!(action, CrossAction::ReadScratchLock));
    let action = m.step(CrossEvent::Retrieved(Some(GOOD_LOCK.to_string())));
    match action {
        CrossAction::WriteLockfile { contents, cleanup_scratch } => {
            assert_eq!(
                contents,
                format!("# ENVHASH: {}\n{}", m.env_hash, GOOD_LOCK)
            );
            assert!(cleanup_scratch);
        },
        _ => panic!("expected the commit"),
    }
    assert_eq!(m.step, CrossStep::Done);
}

#[test]
fn cross_invalid_lock_aborts_and_cleans_scratch() {
    let (mut m, _) = CrossPlatformFreezer::new("deps.yml".to_string(), SPEC_TEXT).unwrap();
    m.step(CrossEvent::LockfileRead(None));
    m.step(CrossEvent::ImageBuilt(true));
    m.step(CrossEvent::Staged(Some("/tmp/scratch2".to_string())));
    m.step(CrossEvent::RunFinished(true));
    let action = m.step(CrossEvent::Retrieved(Some(BAD_LOCK.to_string())));
    assert!(matches!(
        action,
        CrossAction::Finish {
            outcome: FreezeOutcome::Failed(LockError::InvalidLock),
            cleanup_scratch: true,
        }
    ));
    assert_eq!(m.step, CrossStep::Failed);
}

#[test]
fn cross_failures_clean_scratch_at_every_step() {
    // Image build failure: no scratch directory exists yet.
    let (mut m, _) = CrossPlatformFreezer::new("deps.yml".to_string(), SPEC_TEXT).unwrap();
    m.step(CrossEvent::LockfileRead(None));
    let action = m.step(CrossEvent::ImageBuilt(false));
    assert!(matches!(
        action,
        CrossAction::Finish {
            outcome: FreezeOutcome::Failed(LockError::ExternalCommandFailed),
            cleanup_scratch: false,
        }
    ));

    // Tool missing: no scratch directory exists yet.
    let (mut m, _) = CrossPlatformFreezer::new("deps.yml".to_string(), SPEC_TEXT).unwrap();
    m.step(CrossEvent::LockfileRead(None));
    let action = m.step(CrossEvent::ToolMissing);
    assert!(matches!(
        action,
        CrossAction::Finish {
            outcome: FreezeOutcome::Failed(LockError::ToolNotFound),
            cleanup_scratch: false,
        }
    ));

    // Staging failure: the driver reports no scratch directory survived.
    let (mut m, _) = CrossPlatformFreezer::new("deps.yml".to_string(), SPEC_TEXT).unwrap();
    m.step(CrossEvent::LockfileRead(None));
    m.step(CrossEvent::ImageBuilt(true));
    let action = m.step(CrossEvent::Staged(None));
    assert!(matches!(
        action,
        CrossAction::Finish { cleanup_scratch: false, .. }
    ));

    // Engine vanished before the run: the scratch directory exists and must go.
    let (mut m, _) = CrossPlatformFreezer::new("deps.yml".to_string(), SPEC_TEXT).unwrap();
    m.step(CrossEvent::LockfileRead(None));
    m.step(CrossEvent::ImageBuilt(true));
    m.step(CrossEvent::Staged(Some("/tmp/scratch5".to_string())));
    let action = m.step(CrossEvent::ToolMissing);
    assert!(matches!(
        action,
        CrossAction::Finish {
            outcome: FreezeOutcome::Failed(LockError::ToolNotFound),
            cleanup_scratch: true,
        }
    ));
    assert_eq!(m.step, CrossStep::Failed);

    // Run failure: the scratch directory exists and must go.
    let (mut m, _) = CrossPlatformFreezer::new("deps.yml".to_string(), SPEC_TEXT).unwrap();
    m.step(CrossEvent::LockfileRead(None));
    m.step(CrossEvent::ImageBuilt(true));
    m.step(CrossEvent::Staged(Some("/tmp/scratch3".to_string())));
    let action = m.step(CrossEvent::RunFinished(false));
    assert!(matches!(
        action,
        CrossAction::Finish { cleanup_scratch: true, .. }
    ));
    assert_eq!(m.step, CrossStep::Failed);

    // Retrieval failure: the scratch directory exists and must go.
    let (mut m, _) = CrossPlatformFreezer::new("deps.yml".to_string(), SPEC_TEXT).unwrap();
    m.step(CrossEvent::LockfileRead(None));
    m.step(CrossEvent::ImageBuilt(true));
    m.step(CrossEvent::Staged(Some("/tmp/scratch4".to_string())));
    m.step(CrossEvent::RunFinished(true));
    let action = m.step(CrossEvent::Retrieved(None));
    assert!(matches!(
        action,
        CrossAction::Finish { cleanup_scratch: true, .. }
    ));
    assert_eq!(m.step, CrossStep::Failed);
}
