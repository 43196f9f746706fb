//! Auditing environments and lockfiles for staleness.
//!
//! An installed environment or an on-disk lockfile is fresh for a spec
//! exactly when the hash embedded behind its sigil equals the spec's
//! current content hash.  Batch auditing checks a set of lockfiles against
//! one spec and names every mismatched file instead of stopping at the
//! first.

use vstd::prelude::*;

use crate::errors::LockError;
use crate::sigil::{read_sigil_hash, spec_decode_sigil};
use crate::strutil::str_eq;

verus! {

/// Compares a spec's content hash with the hash embedded in an installed
/// environment's lockfile: succeeds exactly when the embedded hash is
/// present and equal; a missing sigil fails with `NoSigil`, a differing
/// hash with `HashMismatch` carrying both values.
pub fn check_env_hash(expected_hash: &str, lockfile_contents: &str) -> (r: Result<(), LockError>)
    ensures
        match spec_decode_sigil(lockfile_contents@) {
            Some(found) => if found == expected_hash@ {
                r == Ok::<(), LockError>(())
            } else {
                r matches Err(e) && (e matches LockError::HashMismatch { expected, found: f }
                    && expected@ == expected_hash@ && f@ == found)
            },
            None => r == Err::<(), LockError>(LockError::NoSigil),
        },
{
    match read_sigil_hash(lockfile_contents) {
        Ok(found) => {
            if str_eq(found.as_str(), expected_hash) {
                Ok(())
            } else {
                Err(
                    LockError::HashMismatch {
                        expected: expected_hash.to_owned(),
                        found,
                    },
                )
            }
        },
        Err(e) => Err(e),
    }
}

/// One lockfile under audit: where it lives and what it holds.
#[derive(Debug, Clone, PartialEq, Eq)]
pub struct LockfileEntry {
    pub path: String,
    pub contents: String,
}

/// One reported mismatch: the lockfile's path and the hash found behind
/// its sigil.
#[derive(Debug, Clone, PartialEq, Eq)]
pub struct LockMismatch {
    pub path: String,
    pub found: String,
}

/// The batch-audit result: `None` when some lockfile carries no sigil
/// line; else, for exactly those lockfiles whose embedded hash differs
/// from the expected one and in their given order, the path beside the
/// hash that was found.
pub open spec fn spec_check_locks(expected: Seq<char>, locks: Seq<LockfileEntry>) -> Option<
    Seq<(Seq<char>, Seq<char>)>,
>
    decreases locks.len(),
{
    if locks.len() == 0 {
        Some(Seq::empty())
    } else {
        match spec_decode_sigil(locks[0].contents@) {
            Some(found) => match spec_check_locks(expected, locks.skip(1)) {
                Some(rest) => if found == expected {
                    Some(rest)
                } else {
                    Some(seq![(locks[0].path@, found)] + rest)
                },
                None => None,
            },
            None => None,
        }
    }
}

/// Prefixes an already-collected mismatch list onto a pending result.
pub open spec fn prepend_mismatches(
    collected: Seq<(Seq<char>, Seq<char>)>,
    pending: Option<Seq<(Seq<char>, Seq<char>)>>,
) -> Option<Seq<(Seq<char>, Seq<char>)>> {
    match pending {
        Some(rest) => Some(collected + rest),
        None => None,
    }
}

/// Audits a set of lockfiles against one spec hash: reports, for exactly
/// the lockfiles whose embedded hash differs from the expected one, the
/// path beside the hash that was found, leaving the matching ones
/// unreported; fails with `NoSigil` when some lockfile carries no sigil
/// line.  The audit as a whole passed exactly when the returned list is
/// empty.
pub fn check_locks(expected_hash: &str, locks: &Vec<LockfileEntry>) -> (r: Result<
    Vec<LockMismatch>,
    LockError,
>)
    ensures
        match r {
            Ok(mismatched) => spec_check_locks(expected_hash@, locks@) == Some(
                mismatched@.map_values(|m: LockMismatch| (m.path@, m.found@)),
            ),
            Err(e) => spec_check_locks(expected_hash@, locks@) is None && e == LockError::NoSigil,
        },
{
    let mut mismatched: Vec<LockMismatch> = Vec::new();
    proof {
        assert(locks@.skip(0) =~= locks@);
        assert(mismatched@.map_values(|m: LockMismatch| (m.path@, m.found@)) =~= Seq::<
            (Seq<char>, Seq<char>),
        >::empty());
    }
    let mut i: usize = 0;
    while i < locks.len()
        invariant
            0 <= i <= locks@.len(),
            spec_check_locks(expected_hash@, locks@) == prepend_mismatches(
                mismatched@.map_values(|m: LockMismatch| (m.path@, m.found@)),
                spec_check_locks(expected_hash@, locks@.skip(i as int)),
            ),
        decreases locks@.len() - i,
    {
        let ghost collected = mismatched@.map_values(|m: LockMismatch| (m.path@, m.found@));
        let ghost rest = locks@.skip(i as int);
        proof {
            assert(rest[0] == locks@[i as int]);
            assert(rest.skip(1) =~= locks@.skip(i + 1));
        }
        match read_sigil_hash(locks[i].contents.as_str()) {
            Ok(found) => {
                if !str_eq(found.as_str(), expected_hash) {
                    let ghost pair = (locks@[i as int].path@, found@);
                    let path = locks[i].path.clone();
                    mismatched.push(LockMismatch { path, found });
                    proof {
                        assert(mismatched@.map_values(|m: LockMismatch| (m.path@, m.found@))
                            =~= collected + seq![pair]);
                        assert forall|pending: Option<Seq<(Seq<char>, Seq<char>)>>|
                            prepend_mismatches(collected, prepend_mismatches(seq![pair], pending))
                            == prepend_mismatches(collected + seq![pair], pending)
                        by {
                            match pending {
                                Some(r2) => {
                                    assert(collected + (seq![pair] + r2) =~= (collected + seq![
                                        pair,
                                    ]) + r2);
                                },
                                None => {},
                            }
                        }
                    }
                }
            },
            Err(_) => {
                proof {
                    assert(spec_check_locks(expected_hash@, rest) is None);
                }
                return Err(LockError::NoSigil);
            },
        }
        i += 1;
    }
    proof {
        assert(locks@.skip(locks@.len() as int).len() == 0);
        assert(mismatched@.map_values(|m: LockMismatch| (m.path@, m.found@)) + Seq::<
            (Seq<char>, Seq<char>),
        >::empty() =~= mismatched@.map_values(|m: LockMismatch| (m.path@, m.found@)));
    }
    Ok(mismatched)
}

} // verus!
