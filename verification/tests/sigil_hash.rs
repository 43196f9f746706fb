use conda_lockfile::errors::LockError;
use conda_lockfile::hashing::compute_file_hash;
use conda_lockfile::sigil::{encode_sigil, lockfile_is_up_to_date, read_sigil_hash, render_lockfile};

#[test]
fn hash_is_deterministic() {
    let a = compute_file_hash("name: demo\ndependencies:\n  - numpy\n");
    let b = compute_file_hash("name: demo\ndependencies:\n  - numpy\n");
    assert_eq!(a, b);
}

#[test]
fn hash_changes_with_any_byte() {
    let base = compute_file_hash("name: demo\ndependencies:\n  - numpy\n");
    let comment = compute_file_hash("name: demo\ndependencies:\n  - numpy\n# note\n");
    let tweaked = compute_file_hash("name: demo\ndependencies:\n  - numpy \n");
    assert_ne!(base, comment);
    assert_ne!(base, tweaked);
}

#[test]
fn hash_known_value() {
    assert_eq!(
        compute_file_hash("Hello World!"),
        "2ef7bde608ce5404e97d5f042f95f89f1c232871"
    );
    assert_eq!(compute_file_hash(""), "da39a3ee5e6b4b0d3255bfef95601890afd80709");
}

#[test]
fn sigil_round_trip() {
    let hash = "2ef7bde608ce5404e97d5f042f95f89f1c232871";
    let line = encode_sigil(hash);
    assert_eq!(line, format!("# ENVHASH: {}\n", hash));
    assert_eq!(read_sigil_hash(&line).unwrap(), hash);
}

#[test]
fn sigil_decode_scans_all_lines() {
    let doc = "name: demo\ndependencies: []\n# ENVHASH: cafe1234\nrest: value\n";
    assert_eq!(read_sigil_hash(doc).unwrap(), "cafe1234");
}

#[test]
fn sigil_decode_returns_first_match_trimmed() {
    let doc = "# ENVHASH:  abc \n# ENVHASH: def\n";
    assert_eq!(read_sigil_hash(doc).unwrap(), "abc");
}

#[test]
fn sigil_decode_without_marker_fails() {
    let doc = "name: demo\ndependencies:\n  - numpy\n";
    assert_eq!(read_sigil_hash(doc), Err(LockError::NoSigil));
    assert_eq!(read_sigil_hash(""), Err(LockError::NoSigil));
}

#[test]
fn rendered_lockfile_decodes_to_its_hash() {
    let hash = compute_file_hash("name: demo\ndependencies: []\n");
    let contents = render_lockfile(&hash, "name: demo\ndependencies: []\n");
    assert!(contents.starts_with(&format!("# ENVHASH: {}\n", hash)));
    assert_eq!(read_sigil_hash(&contents).unwrap(), hash);
}

#[test]
fn up_to_date_only_with_matching_hash() {
    let hash = compute_file_hash("spec body");
    let fresh = render_lockfile(&hash, "name: demo\n");
    assert!(lockfile_is_up_to_date(&Some(fresh), &hash));
    let other = render_lockfile(&compute_file_hash("other body"), "name: demo\n");
    assert!(!lockfile_is_up_to_date(&Some(other), &hash));
    assert!(!lockfile_is_up_to_date(&Some("no sigil here\n".to_string()), &hash));
    assert!(!lockfile_is_up_to_date(&None, &hash));
}
