use conda_lockfile::audit::{check_env_hash, check_locks, LockfileEntry, LockMismatch};
use conda_lockfile::commands::{
    conda_create_from_lock_args, conda_prefix, default_lockfile_name, embedded_lockfile_path,
    find_conda,
};
use conda_lockfile::container::interpolate_dockerfile;
use conda_lockfile::errors::LockError;
use conda_lockfile::hashing::compute_file_hash;
use conda_lockfile::platform::Platform;
use conda_lockfile::sigil::render_lockfile;
use conda_lockfile::yamlio::normalize_export;

fn entry(path: &str, contents: String) -> LockfileEntry {
    LockfileEntry { path: path.to_string(), contents }
}

#[test]
fn check_env_hash_accepts_matching_hash() {
    let hash = compute_file_hash("name: demo\ndependencies: []\n");
    let lockfile = render_lockfile(&hash, "name: demo\ndependencies: []\n");
    assert_eq!(check_env_hash(&hash, &lockfile), Ok(()));
}

#[test]
fn check_env_hash_reports_both_hashes_on_mismatch() {
    let expected = compute_file_hash("new spec text");
    let embedded = compute_file_hash("old spec text");
    let lockfile = render_lockfile(&embedded, "name: demo\n");
    assert_eq!(
        check_env_hash(&expected, &lockfile),
        Err(LockError::HashMismatch { expected: expected.clone(), found: embedded })
    );
}

#[test]
fn check_env_hash_requires_a_sigil() {
    let expected = compute_file_hash("spec");
    assert_eq!(
        check_env_hash(&expected, "name: demo\ndependencies: []\n"),
        Err(LockError::NoSigil)
    );
}

#[test]
fn batch_audit_names_exactly_the_mismatched_file() {
    let h = compute_file_hash("the spec");
    let h_prime = compute_file_hash("another spec");
    let locks = vec![
        entry("deps.Linux.lock.yml", render_lockfile(&h, "a: 1\n")),
        entry("deps.Darwin.lock.yml", render_lockfile(&h, "b: 2\n")),
        entry("deps.stale.lock.yml", render_lockfile(&h_prime, "c: 3\n")),
    ];
    let mismatched = check_locks(&h, &locks).unwrap();
    assert_eq!(
        mismatched,
        vec![LockMismatch { path: "deps.stale.lock.yml".to_string(), found: h_prime }]
    );
}

#[test]
fn batch_audit_passes_when_all_match() {
    let h = compute_file_hash("the spec");
    let locks = vec![
        entry("deps.Linux.lock.yml", render_lockfile(&h, "a: 1\n")),
        entry("deps.Darwin.lock.yml", render_lockfile(&h, "b: 2\n")),
    ];
    assert_eq!(check_locks(&h, &locks).unwrap(), Vec::<LockMismatch>::new());
    assert_eq!(check_locks(&h, &vec![]).unwrap(), Vec::<LockMismatch>::new());
}

#[test]
fn batch_audit_fails_on_a_lockfile_without_sigil() {
    let h = compute_file_hash("the spec");
    let locks = vec![
        entry("deps.Linux.lock.yml", render_lockfile(&h, "a: 1\n")),
        entry("deps.raw.lock.yml", "no marker at all\n".to_string()),
    ];
    assert_eq!(check_locks(&h, &locks), Err(LockError::NoSigil));
}

#[test]
fn find_conda_prefers_primary_location() {
    assert_eq!(
        find_conda(Some("/opt/conda".to_string()), Some("/usr/bin/conda".to_string())),
        Ok("/opt/conda".to_string())
    );
    assert_eq!(
        find_conda(None, Some("/usr/bin/conda".to_string())),
        Ok("/usr/bin/conda".to_string())
    );
    assert_eq!(find_conda(None, None), Err(LockError::ToolNotFound));
}

#[test]
fn create_from_lock_invocation_is_exact() {
    let args = conda_create_from_lock_args("demo", "deps.Linux.lock.yml");
    assert_eq!(
        args,
        vec![
            "env".to_string(),
            "create".to_string(),
            "--yes".to_string(),
            "-q".to_string(),
            "--json".to_string(),
            "--name".to_string(),
            "demo".to_string(),
            "-f".to_string(),
            "deps.Linux.lock.yml".to_string(),
        ]
    );
}

#[test]
fn environment_paths_are_fixed() {
    assert_eq!(conda_prefix("/var/lib/conda", "demo"), "/var/lib/conda/envs/demo");
    assert_eq!(
        embedded_lockfile_path("/var/lib/conda", "demo"),
        "/var/lib/conda/envs/demo/deps.lock.yml"
    );
}

#[test]
fn default_lockfile_names_follow_the_platform() {
    assert_eq!(default_lockfile_name(Platform::Linux), "deps.Linux.lock.yml");
    assert_eq!(default_lockfile_name(Platform::Darwin), "deps.Darwin.lock.yml");
}

#[test]
fn normalize_export_overwrites_name_and_drops_prefix() {
    let export = "name: ___conda_lockfile_temp\nprefix: /tmp/envs/x\ndependencies:\n  - numpy=1.21.0\n";
    let body = normalize_export(export, "demo").unwrap();
    assert!(body.contains("name: demo"));
    assert!(!body.contains("___conda_lockfile_temp"));
    assert!(!body.contains("prefix"));
    assert!(body.contains("numpy=1.21.0"));
    assert_eq!(normalize_export("- a\n- b\n", "demo"), Err(LockError::MalformedSpec));
}

#[test]
fn dockerfile_is_interpolated_from_the_build_script() {
    let dockerfile = interpolate_dockerfile();
    assert!(dockerfile.starts_with("\nFROM debian:stretch\n"));
    assert!(dockerfile.ends_with("ENTRYPOINT [\"/bin/bash\", \"./build_lockfile.sh\"]\n"));
    // The inlined command holds every non-comment script line, ;-joined.
    assert!(dockerfile.contains("set -e;cd artifacts;ENV_NAME=$(cat env_name)"));
    // Comment lines of the script do not survive interpolation.
    assert!(!dockerfile.contains("workaround"));
}
