//! Reading dependency documents through the external YAML parser.
//!
//! The parser's values are opaque to verification, so every call into it
//! sits behind a small trusted wrapper.  Each wrapper's result is a
//! function of its arguments alone (parsing, field access, field rewriting
//! and emitting are deterministic), so each carries a name for that result;
//! the readers and the normalizer below are verified, with contracts exact
//! over those names, and everything downstream is verified for every value
//! the parser can hand back.

use vstd::prelude::*;
use vstd::string::StringSliceAdditionalSpecFns;

use crate::deps::{
    direct_tokens, nested_tokens, name_set, spec_direct_names, spec_nested_names, validate_lock,
    DepEntry, DependencySpec,
};
use crate::errors::LockError;
use crate::hashing::{compute_file_hash, is_hash_text, sha1_hex_of};

verus! {

#[verifier::external_type_specification]
#[verifier::external_body]
pub struct ExYaml(yaml_rust::Yaml);

/// The documents the external parser yields for a text, in order; `None`
/// when the text does not scan.
pub uninterp spec fn yaml_docs_of(text: Seq<char>) -> Option<Seq<yaml_rust::Yaml>>;

/// The value of a document's field: the entry under the key when the
/// document is a mapping that has it, and the parser's bad-value marker
/// otherwise.
pub uninterp spec fn yaml_field_of(doc: yaml_rust::Yaml, key: Seq<char>) -> yaml_rust::Yaml;

/// The characters of a scalar string node; `None` for any other node.
pub uninterp spec fn yaml_str_of(node: yaml_rust::Yaml) -> Option<Seq<char>>;

/// The items of a sequence node; `None` for any other node.
pub uninterp spec fn yaml_items_of(node: yaml_rust::Yaml) -> Option<Seq<yaml_rust::Yaml>>;

/// The document with the field under the key set to a scalar of the given
/// characters; `None` when the document is not a mapping.
pub uninterp spec fn yaml_set_field_of(
    doc: yaml_rust::Yaml,
    key: Seq<char>,
    value: Seq<char>,
) -> Option<yaml_rust::Yaml>;

/// The document with the field under the key removed; `None` when the
/// document is not a mapping.
pub uninterp spec fn yaml_drop_field_of(doc: yaml_rust::Yaml, key: Seq<char>) -> Option<
    yaml_rust::Yaml,
>;

/// The YAML text the emitter writes for a document; `None` when emitting
/// fails.
pub uninterp spec fn yaml_emitted_of(doc: yaml_rust::Yaml) -> Option<Seq<char>>;

/// Relies on yaml_rust::YamlLoader::load_from_str: parses a YAML stream
/// into its documents, a function of the text alone; `None` when the text
/// does not scan.
#[verifier::external_body]
fn load_yaml_docs(text: &str) -> (r: Option<Vec<yaml_rust::Yaml>>)
    ensures
        match r {
            Some(docs) => yaml_docs_of(text@) == Some(docs@),
            None => yaml_docs_of(text@) is None,
        },
{
    yaml_rust::YamlLoader::load_from_str(text).ok()
}

/// Relies on yaml_rust::Yaml's `Index<&str>`: looks a key up in a mapping
/// document, falling back to the bad-value marker; a function of document
/// and key alone.
#[verifier::external_body]
fn yaml_field(doc: &yaml_rust::Yaml, key: &str) -> (r: yaml_rust::Yaml)
    ensures
        r == yaml_field_of(*doc, key@),
{
    doc[key].clone()
}

/// Relies on yaml_rust::Yaml::as_str: the scalar string value of a node, if
/// it is one; a function of the node alone.
#[verifier::external_body]
fn yaml_as_string(node: &yaml_rust::Yaml) -> (r: Option<String>)
    ensures
        match r {
            Some(s) => yaml_str_of(*node) == Some(s@),
            None => yaml_str_of(*node) is None,
        },
{
    node.as_str().map(|s| s.to_owned())
}

/// Relies on yaml_rust::Yaml::as_vec: the items of a sequence node, if it
/// is one; a function of the node alone.
#[verifier::external_body]
fn yaml_as_vec(node: &yaml_rust::Yaml) -> (r: Option<Vec<yaml_rust::Yaml>>)
    ensures
        match r {
            Some(items) => yaml_items_of(*node) == Some(items@),
            None => yaml_items_of(*node) is None,
        },
{
    node.as_vec().cloned()
}

/// Relies on yaml_rust::Yaml::into_hash and the Hash map's insert: sets the
/// field under the key to a scalar of the given value; `None` when the
/// document is not a mapping.
#[verifier::external_body]
fn yaml_set_str_field(doc: &yaml_rust::Yaml, key: &str, value: &str) -> (r: Option<
    yaml_rust::Yaml,
>)
    ensures
        r == yaml_set_field_of(*doc, key@, value@),
{
    let mut h = match doc.clone().into_hash() {
        Some(h) => h,
        None => {
            return None;
        },
    };
    h.insert(yaml_rust::Yaml::from_str(key), yaml_rust::Yaml::from_str(value));
    Some(yaml_rust::Yaml::Hash(h))
}

/// Relies on yaml_rust::Yaml::into_hash and the Hash map's remove: removes
/// the field under the key; `None` when the document is not a mapping.
#[verifier::external_body]
fn yaml_remove_field(doc: &yaml_rust::Yaml, key: &str) -> (r: Option<yaml_rust::Yaml>)
    ensures
        r == yaml_drop_field_of(*doc, key@),
{
    let mut h = match doc.clone().into_hash() {
        Some(h) => h,
        None => {
            return None;
        },
    };
    h.remove(&yaml_rust::Yaml::from_str(key));
    Some(yaml_rust::Yaml::Hash(h))
}

/// Relies on yaml_rust::YamlEmitter::dump: serializes a document back to
/// YAML text, a function of the document alone; `None` when emitting fails.
#[verifier::external_body]
fn yaml_emit(doc: &yaml_rust::Yaml) -> (r: Option<String>)
    ensures
        match r {
            Some(s) => yaml_emitted_of(*doc) == Some(s@),
            None => yaml_emitted_of(*doc) is None,
        },
{
    let mut out = String::new();
    let mut emitter = yaml_rust::YamlEmitter::new(&mut out);
    match emitter.dump(doc) {
        Ok(()) => Some(out),
        Err(_) => None,
    }
}

/// The first document of a text, if the text scans and holds one.
pub open spec fn spec_first_doc(text: Seq<char>) -> Option<yaml_rust::Yaml> {
    match yaml_docs_of(text) {
        Some(docs) => if docs.len() > 0 {
            Some(docs[0])
        } else {
            None
        },
        None => None,
    }
}

/// The first document's `name` field, when it is a scalar string.
pub open spec fn spec_doc_name(text: Seq<char>) -> Option<Seq<char>> {
    match spec_first_doc(text) {
        Some(doc) => yaml_str_of(yaml_field_of(doc, "name"@)),
        None => None,
    }
}

/// The first document's `dependencies` sequence, when it has one.
pub open spec fn spec_doc_items(text: Seq<char>) -> Option<Seq<yaml_rust::Yaml>> {
    match spec_first_doc(text) {
        Some(doc) => yaml_items_of(yaml_field_of(doc, "dependencies"@)),
        None => None,
    }
}

/// The scalar string members of a sequence's items, in order; other shapes
/// contribute nothing.
pub open spec fn group_strings_of(items: Seq<yaml_rust::Yaml>) -> Seq<Seq<char>>
    decreases items.len(),
{
    if items.len() == 0 {
        Seq::empty()
    } else {
        group_strings_of(items.drop_last()) + (match yaml_str_of(items.last()) {
            Some(t) => seq![t],
            None => Seq::empty(),
        })
    }
}

/// How one parsed item converts: a scalar string is a direct package token,
/// a sequence is a nested group keeping its scalar string members, and any
/// other shape is tolerated as unrecognized.
pub open spec fn entry_matches(item: yaml_rust::Yaml, e: DepEntry) -> bool {
    match yaml_str_of(item) {
        Some(t) => (e matches DepEntry::Direct(s) && s@ == t),
        None => match yaml_items_of(item) {
            Some(members) => (e matches DepEntry::Nested(g) && g@.map_values(|s: String| s@)
                == group_strings_of(members)),
            None => e is Unrecognized,
        },
    }
}

/// How a parsed `dependencies` sequence converts, item by item.
pub open spec fn entries_match(items: Seq<yaml_rust::Yaml>, es: Seq<DepEntry>) -> bool {
    &&& es.len() == items.len()
    &&& forall|i: int| 0 <= i < items.len() ==> #[trigger] entry_matches(items[i], es[i])
}

/// Converts one parsed dependency entry into the library's closed entry
/// type, exactly as `entry_matches` describes.
fn entry_from_yaml(item: &yaml_rust::Yaml) -> (e: DepEntry)
    ensures
        entry_matches(*item, e),
{
    match yaml_as_string(item) {
        Some(token) => DepEntry::Direct(token),
        None => match yaml_as_vec(item) {
            Some(members) => {
                let ghost mseq = members@;
                let mut group: Vec<String> = Vec::new();
                proof {
                    assert(group@.map_values(|s: String| s@) =~= group_strings_of(mseq.take(0)));
                }
                let mut j: usize = 0;
                while j < members.len()
                    invariant
                        mseq == members@,
                        0 <= j <= mseq.len(),
                        group@.map_values(|s: String| s@) == group_strings_of(
                            mseq.take(j as int),
                        ),
                    decreases mseq.len() - j,
                {
                    let ghost pre = group@.map_values(|s: String| s@);
                    proof {
                        assert(mseq.take(j + 1).drop_last() =~= mseq.take(j as int));
                        assert(mseq.take(j + 1).last() == mseq[j as int]);
                    }
                    match yaml_as_string(&members[j]) {
                        Some(token) => {
                            group.push(token);
                            proof {
                                assert(group@.map_values(|s: String| s@) =~= pre + seq![
                                    mseq[j as int],
                                ].map_values(|y: yaml_rust::Yaml| yaml_str_of(y)->Some_0));
                                assert(group_strings_of(mseq.take(j + 1)) =~= pre + seq![
                                    yaml_str_of(mseq[j as int])->Some_0,
                                ]);
                                assert(group@.map_values(|s: String| s@) =~= group_strings_of(
                                    mseq.take(j + 1),
                                ));
                            }
                        },
                        None => {
                            proof {
                                assert(group_strings_of(mseq.take(j + 1)) =~= pre);
                            }
                        },
                    }
                    j += 1;
                }
                proof {
                    assert(mseq.take(mseq.len() as int) =~= mseq);
                }
                DepEntry::Nested(group)
            },
            None => DepEntry::Unrecognized,
        },
    }
}

/// Parses a document and extracts its dependency entries; the `name` field
/// is not required.  Succeeds exactly when the text scans to a document
/// with a `dependencies` sequence, converting each item as `entries_match`
/// describes; fails with `MalformedSpec` otherwise.
pub fn read_doc_entries(text: &str) -> (r: Result<Vec<DepEntry>, LockError>)
    ensures
        match spec_doc_items(text@) {
            Some(items) => (r matches Ok(es) && entries_match(items, es@)),
            None => r == Err::<Vec<DepEntry>, LockError>(LockError::MalformedSpec),
        },
{
    let docs = match load_yaml_docs(text) {
        Some(docs) => docs,
        None => {
            return Err(LockError::MalformedSpec);
        },
    };
    if docs.len() == 0 {
        return Err(LockError::MalformedSpec);
    }
    let field = yaml_field(&docs[0], "dependencies");
    let items = match yaml_as_vec(&field) {
        Some(items) => items,
        None => {
            return Err(LockError::MalformedSpec);
        },
    };
    Ok(entries_from_items(&items))
}

/// Converts every parsed item of a `dependencies` sequence.
fn entries_from_items(items: &Vec<yaml_rust::Yaml>) -> (es: Vec<DepEntry>)
    ensures
        entries_match(items@, es@),
{
    let mut es: Vec<DepEntry> = Vec::new();
    let mut i: usize = 0;
    while i < items.len()
        invariant
            0 <= i <= items@.len(),
            es@.len() == i,
            forall|k: int| 0 <= k < i ==> #[trigger] entry_matches(items@[k], es@[k]),
        decreases items@.len() - i,
    {
        let e = entry_from_yaml(&items[i]);
        es.push(e);
        i += 1;
    }
    es
}

/// Parses a dependency specification document into its normalized in-memory
/// form.  Succeeds exactly when the text scans to a document with a string
/// `name` field and a `dependencies` sequence; fails with `MalformedSpec`
/// otherwise (no top-level mapping, no name, or no dependencies).
pub fn read_dependency_doc(text: &str) -> (r: Result<DependencySpec, LockError>)
    ensures
        match (spec_doc_name(text@), spec_doc_items(text@)) {
            (Some(n), Some(items)) => (r matches Ok(spec) && spec.name@ == n && entries_match(
                items,
                spec.entries@,
            )),
            _ => r == Err::<DependencySpec, LockError>(LockError::MalformedSpec),
        },
{
    let docs = match load_yaml_docs(text) {
        Some(docs) => docs,
        None => {
            return Err(LockError::MalformedSpec);
        },
    };
    if docs.len() == 0 {
        return Err(LockError::MalformedSpec);
    }
    let name_field = yaml_field(&docs[0], "name");
    let name = match yaml_as_string(&name_field) {
        Some(name) => name,
        None => {
            return Err(LockError::MalformedSpec);
        },
    };
    let deps_field = yaml_field(&docs[0], "dependencies");
    let items = match yaml_as_vec(&deps_field) {
        Some(items) => items,
        None => {
            return Err(LockError::MalformedSpec);
        },
    };
    let entries = entries_from_items(&items);
    Ok(DependencySpec { name, entries })
}

/// Reads a dependency spec's environment name and content hash from its
/// text.  Succeeds exactly when the document parses; the name is the
/// document's `name` field and the hash is the digest of exactly the
/// text's bytes, independent of the parse.
pub fn read_env_name_and_hash(contents: &str) -> (r: Result<(String, String), LockError>)
    ensures
        match (spec_doc_name(contents@), spec_doc_items(contents@)) {
            (Some(n), Some(_)) => (r matches Ok(p) && p.0@ == n && p.1@ == sha1_hex_of(
                contents.spec_bytes(),
            ) && is_hash_text(p.1@)),
            _ => r == Err::<(String, String), LockError>(LockError::MalformedSpec),
        },
{
    let spec = match read_dependency_doc(contents) {
        Ok(spec) => spec,
        Err(e) => {
            return Err(e);
        },
    };
    let env_hash = compute_file_hash(contents);
    Ok((spec.name, env_hash))
}

/// The direct package tokens a parsed `dependencies` sequence carries: its
/// scalar string items, in order.
pub open spec fn direct_tokens_of_items(items: Seq<yaml_rust::Yaml>) -> Seq<Seq<char>>
    decreases items.len(),
{
    if items.len() == 0 {
        Seq::empty()
    } else {
        direct_tokens_of_items(items.drop_last()) + (match yaml_str_of(items.last()) {
            Some(t) => seq![t],
            None => Seq::empty(),
        })
    }
}

/// The nested package tokens a parsed `dependencies` sequence carries: the
/// scalar string members of its sequence items, in order.
pub open spec fn nested_tokens_of_items(items: Seq<yaml_rust::Yaml>) -> Seq<Seq<char>>
    decreases items.len(),
{
    if items.len() == 0 {
        Seq::empty()
    } else {
        nested_tokens_of_items(items.drop_last()) + (match yaml_str_of(items.last()) {
            Some(_) => Seq::empty(),
            None => match yaml_items_of(items.last()) {
                Some(members) => group_strings_of(members),
                None => Seq::empty(),
            },
        })
    }
}

/// Converted entries carry exactly the parsed items' tokens: the library's
/// token extraction agrees with the item-level one.
pub proof fn lemma_entries_tokens(items: Seq<yaml_rust::Yaml>, es: Seq<DepEntry>)
    requires
        entries_match(items, es),
    ensures
        direct_tokens(es) == direct_tokens_of_items(items),
        nested_tokens(es) == nested_tokens_of_items(items),
    decreases items.len(),
{
    if items.len() == 0 {
        assert(direct_tokens(es) =~= direct_tokens_of_items(items));
        assert(nested_tokens(es) =~= nested_tokens_of_items(items));
    } else {
        assert(entries_match(items.drop_last(), es.drop_last())) by {
            assert forall|i: int| 0 <= i < items.drop_last().len() implies #[trigger] entry_matches(
                items.drop_last()[i],
                es.drop_last()[i],
            ) by {
                assert(entry_matches(items[i], es[i]));
            }
        }
        lemma_entries_tokens(items.drop_last(), es.drop_last());
        assert(entry_matches(items.last(), es.last())) by {
            assert(entry_matches(items[items.len() - 1], es[es.len() - 1]));
        }
        match yaml_str_of(items.last()) {
            Some(t) => {
                assert(es.last() matches DepEntry::Direct(s) && s@ == t);
                assert(direct_tokens(es) =~= direct_tokens_of_items(items));
                assert(nested_tokens(es) =~= nested_tokens_of_items(items));
            },
            None => {
                match yaml_items_of(items.last()) {
                    Some(members) => {
                        assert(es.last() matches DepEntry::Nested(g) && g@.map_values(
                            |s: String| s@,
                        ) == group_strings_of(members));
                        assert(direct_tokens(es) =~= direct_tokens_of_items(items));
                        assert(nested_tokens(es) =~= nested_tokens_of_items(items));
                    },
                    None => {
                        assert(es.last() is Unrecognized);
                        assert(direct_tokens(es) =~= direct_tokens_of_items(items));
                        assert(nested_tokens(es) =~= nested_tokens_of_items(items));
                    },
                }
            },
        }
    }
}

/// Whether a resolved lock text is a valid result for a dependency spec
/// text: both parse to documents with `dependencies` sequences, and the
/// resolved package-name sets are supersets of the requested ones.
pub open spec fn spec_lock_valid(deps_text: Seq<char>, lock_text: Seq<char>) -> bool {
    match (spec_doc_items(deps_text), spec_doc_items(lock_text)) {
        (Some(requested), Some(resolved)) => {
            &&& name_set(direct_tokens_of_items(requested)).subset_of(
                name_set(direct_tokens_of_items(resolved)),
            )
            &&& name_set(nested_tokens_of_items(requested)).subset_of(
                name_set(nested_tokens_of_items(resolved)),
            )
        },
        _ => false,
    }
}

/// Whether a resolved lock document is a valid result for a dependency
/// spec: both texts parse and the resolved package-name sets pass superset
/// validation against the requested ones.  A document that does not parse
/// never validates.
pub fn lockfile_is_valid(depsfile_data: &str, lockfile_data: &str) -> (r: bool)
    ensures
        r == spec_lock_valid(depsfile_data@, lockfile_data@),
{
    let requested = match read_doc_entries(depsfile_data) {
        Ok(entries) => entries,
        Err(_) => {
            return false;
        },
    };
    let resolved = match read_doc_entries(lockfile_data) {
        Ok(entries) => entries,
        Err(_) => {
            return false;
        },
    };
    proof {
        lemma_entries_tokens(spec_doc_items(depsfile_data@)->Some_0, requested@);
        lemma_entries_tokens(spec_doc_items(lockfile_data@)->Some_0, resolved@);
    }
    validate_lock(&requested, &resolved)
}

/// Whether a retrieved lock text is a valid result for already-parsed
/// requested entries: it parses to a document with a `dependencies`
/// sequence whose package-name sets are supersets of the requested ones.
pub open spec fn spec_retrieved_valid(requested: Seq<DepEntry>, lock_text: Seq<char>) -> bool {
    match spec_doc_items(lock_text) {
        Some(resolved) => {
            &&& spec_direct_names(requested).subset_of(
                name_set(direct_tokens_of_items(resolved)),
            )
            &&& spec_nested_names(requested).subset_of(
                name_set(nested_tokens_of_items(resolved)),
            )
        },
        None => false,
    }
}

/// Validates a retrieved lock text against requested entries, exactly as
/// `spec_retrieved_valid` describes.
pub fn validate_retrieved(requested: &Vec<DepEntry>, lock_text: &str) -> (r: bool)
    ensures
        r == spec_retrieved_valid(requested@, lock_text@),
{
    match read_doc_entries(lock_text) {
        Ok(resolved) => {
            proof {
                lemma_entries_tokens(spec_doc_items(lock_text@)->Some_0, resolved@);
            }
            validate_lock(requested, &resolved)
        },
        Err(_) => false,
    }
}

/// What normalizing and re-emitting a resolved environment export yields:
/// the export's first document with its `name` field overwritten by the
/// given name and its machine-local `prefix` field removed, emitted back to
/// YAML text; `None` when the export does not scan to a mapping document or
/// cannot be re-emitted.
pub open spec fn spec_normalized_export(lock_data: Seq<char>, env_name: Seq<char>) -> Option<
    Seq<char>,
> {
    match spec_first_doc(lock_data) {
        Some(doc) => match yaml_set_field_of(doc, "name"@, env_name) {
            Some(named) => match yaml_drop_field_of(named, "prefix"@) {
                Some(cleaned) => yaml_emitted_of(cleaned),
                None => None,
            },
            None => None,
        },
        None => None,
    }
}

/// Normalizes a resolved environment export and serializes it, exactly as
/// `spec_normalized_export` describes; fails with `MalformedSpec` when any
/// step yields nothing.
pub fn normalize_export(lock_data: &str, env_name: &str) -> (r: Result<String, LockError>)
    ensures
        match spec_normalized_export(lock_data@, env_name@) {
            Some(body) => (r matches Ok(s) && s@ == body),
            None => r == Err::<String, LockError>(LockError::MalformedSpec),
        },
{
    let docs = match load_yaml_docs(lock_data) {
        Some(docs) => docs,
        None => {
            return Err(LockError::MalformedSpec);
        },
    };
    if docs.len() == 0 {
        return Err(LockError::MalformedSpec);
    }
    let named = match yaml_set_str_field(&docs[0], "name", env_name) {
        Some(named) => named,
        None => {
            return Err(LockError::MalformedSpec);
        },
    };
    let cleaned = match yaml_remove_field(&named, "prefix") {
        Some(cleaned) => cleaned,
        None => {
            return Err(LockError::MalformedSpec);
        },
    };
    match yaml_emit(&cleaned) {
        Some(text) => Ok(text),
        None => Err(LockError::MalformedSpec),
    }
}

} // verus!
