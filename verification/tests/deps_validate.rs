use conda_lockfile::deps::{get_deps, only_pkg_names, pkg_name, validate_lock, DepEntry};
use conda_lockfile::errors::LockError;
use conda_lockfile::yamlio::{lockfile_is_valid, read_dependency_doc, read_doc_entries};

fn direct(token: &str) -> DepEntry {
    DepEntry::Direct(token.to_string())
}

fn nested(tokens: &[&str]) -> DepEntry {
    DepEntry::Nested(tokens.iter().map(|t| t.to_string()).collect())
}

#[test]
fn pkg_name_strips_version_qualifiers() {
    assert_eq!(pkg_name("numpy=1.21.0=py39h1"), "numpy");
    assert_eq!(pkg_name("numpy"), "numpy");
}

#[test]
fn pkg_name_is_idempotent() {
    let once = pkg_name("numpy=1.21.0=py39h1");
    assert_eq!(pkg_name(&once), once);
    let plain = pkg_name("pandas");
    assert_eq!(pkg_name(&plain), plain);
}

#[test]
fn pkg_name_edge_cases() {
    assert_eq!(pkg_name(""), "");
    assert_eq!(pkg_name("=1.0"), "");
    assert_eq!(pkg_name("a=b=c=d"), "a");
}

#[test]
fn only_pkg_names_normalizes_and_dedups() {
    let deps = vec![
        "numpy=1.21.0".to_string(),
        "pandas".to_string(),
        "numpy=1.22.0".to_string(),
    ];
    let mut names = only_pkg_names(&deps);
    names.sort();
    assert_eq!(names, vec!["numpy".to_string(), "pandas".to_string()]);
}

#[test]
fn get_deps_separates_direct_and_nested() {
    let entries = vec![
        direct("numpy=1.21.0"),
        nested(&["requests=2.0", "flask"]),
        direct("pandas"),
        DepEntry::Unrecognized,
    ];
    let sets = get_deps(&entries);
    let mut d = sets.direct.clone();
    d.sort();
    assert_eq!(d, vec!["numpy".to_string(), "pandas".to_string()]);
    let mut n = sets.nested.clone();
    n.sort();
    assert_eq!(n, vec!["flask".to_string(), "requests".to_string()]);
}

#[test]
fn superset_validation_accepts_extras() {
    let requested = vec![direct("a"), direct("b"), nested(&["c"])];
    let resolved = vec![
        direct("a=1.0"),
        direct("b=2.0"),
        direct("d=3.0"),
        nested(&["c=0.1", "e=0.2"]),
    ];
    assert!(validate_lock(&requested, &resolved));
}

#[test]
fn superset_validation_rejects_missing_direct() {
    let requested = vec![direct("a"), direct("b"), nested(&["c"])];
    let resolved = vec![direct("a=1.0"), direct("d=3.0"), nested(&["c=0.1", "e=0.2"])];
    assert!(!validate_lock(&requested, &resolved));
}

#[test]
fn superset_validation_rejects_missing_nested() {
    let requested = vec![direct("a"), direct("b"), nested(&["c"])];
    let resolved = vec![direct("a=1.0"), direct("b=2.0"), direct("d=3.0"), nested(&["e=0.2"])];
    assert!(!validate_lock(&requested, &resolved));
}

#[test]
fn superset_validation_empty_request_always_passes() {
    let requested: Vec<DepEntry> = vec![];
    let resolved = vec![direct("anything")];
    assert!(validate_lock(&requested, &resolved));
    assert!(validate_lock(&requested, &requested));
}

#[test]
fn read_dependency_doc_parses_name_and_entries() {
    let text = "name: demo\ndependencies:\n  - numpy=1.21.0\n  - pandas\n  - - requests=2.0\n    - flask\n";
    let spec = read_dependency_doc(text).unwrap();
    assert_eq!(spec.name, "demo");
    assert_eq!(spec.entries.len(), 3);
    assert_eq!(spec.entries[0], DepEntry::Direct("numpy=1.21.0".to_string()));
    assert_eq!(spec.entries[1], DepEntry::Direct("pandas".to_string()));
    assert_eq!(
        spec.entries[2],
        DepEntry::Nested(vec!["requests=2.0".to_string(), "flask".to_string()])
    );
}

#[test]
fn read_dependency_doc_rejects_malformed_documents() {
    assert_eq!(read_dependency_doc(""), Err(LockError::MalformedSpec));
    assert_eq!(read_dependency_doc("- a\n- b\n"), Err(LockError::MalformedSpec));
    assert_eq!(
        read_dependency_doc("dependencies:\n  - numpy\n"),
        Err(LockError::MalformedSpec)
    );
    assert_eq!(read_dependency_doc("name: demo\n"), Err(LockError::MalformedSpec));
    assert_eq!(
        read_dependency_doc("name: demo\ndependencies: 17\n"),
        Err(LockError::MalformedSpec)
    );
}

#[test]
fn read_doc_entries_skips_unrecognized_shapes() {
    let text = "dependencies:\n  - numpy\n  - 42\n  - key: value\n";
    let entries = read_doc_entries(text).unwrap();
    assert_eq!(entries.len(), 3);
    assert_eq!(entries[0], DepEntry::Direct("numpy".to_string()));
    assert_eq!(entries[1], DepEntry::Unrecognized);
    assert_eq!(entries[2], DepEntry::Unrecognized);
}

#[test]
fn lockfile_is_valid_through_yaml_texts() {
    let spec = "name: demo\ndependencies:\n  - a\n  - b\n  - - c\n";
    let good = "name: demo\ndependencies:\n  - a=1.0\n  - b=2.0\n  - d=3.0\n  - - c=0.1\n    - e=0.2\n";
    let missing_b = "name: demo\ndependencies:\n  - a=1.0\n  - d=3.0\n  - - c=0.1\n";
    assert!(lockfile_is_valid(spec, good));
    assert!(!lockfile_is_valid(spec, missing_b));
    assert!(!lockfile_is_valid(spec, "not: a\nlock: file\n"));
    assert!(!lockfile_is_valid("no dependencies here", good));
}
