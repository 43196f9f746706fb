//! Verified core of a conda environment lockfile manager.
//!
//! The library freezes an abstract dependency specification into a pinned,
//! hash-stamped lockfile and later audits lockfiles and installed
//! environments for staleness.  The pure decision logic (sigil encoding and
//! decoding, package-name normalization, superset validation, freeze
//! planning and the freeze state machines, hash auditing) is verified here;
//! file and process I/O live outside the library.

pub mod audit;
pub mod commands;
pub mod container;
pub mod deps;
pub mod errors;
pub mod freeze;
pub mod hashing;
pub mod platform;
pub mod sigil;
pub mod strutil;
pub mod yamlio;
