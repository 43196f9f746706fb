//! Platforms and freeze planning.
//!
//! Only two platforms are known, and only one cross-platform freeze pair is
//! supported: capturing a Linux environment from a Darwin host.

use vstd::prelude::*;

use crate::errors::LockError;
use crate::strutil::str_eq;

verus! {

/// A platform an environment can be frozen on or for.
#[derive(Debug, Clone, Copy, PartialEq, Eq, Structural)]
pub enum Platform {
    Linux,
    Darwin,
}

/// How a freeze will be carried out.
#[derive(Debug, Clone, Copy, PartialEq, Eq, Structural)]
pub enum FreezeMode {
    /// Execution and target platform match: resolve locally.
    SameHost,
    /// Capture a Linux environment from a Darwin host inside a container.
    LinuxOnDarwin,
}

impl Platform {
    /// The platform's canonical name, as it appears in lockfile names.
    pub open spec fn spec_name(self) -> Seq<char> {
        match self {
            Platform::Linux => "Linux"@,
            Platform::Darwin => "Darwin"@,
        }
    }

    /// Returns the platform's canonical name.
    pub fn name(self) -> (r: String)
        ensures
            r@ == self.spec_name(),
    {
        match self {
            Platform::Linux => "Linux".to_owned(),
            Platform::Darwin => "Darwin".to_owned(),
        }
    }
}

/// Parses a platform name; only the two canonical names are recognized.
pub fn parse_platform(name: &str) -> (r: Option<Platform>)
    ensures
        r == (if name@ == "Linux"@ {
            Some(Platform::Linux)
        } else if name@ == "Darwin"@ {
            Some(Platform::Darwin)
        } else {
            None::<Platform>
        }),
{
    if str_eq(name, "Linux") {
        Some(Platform::Linux)
    } else if str_eq(name, "Darwin") {
        Some(Platform::Darwin)
    } else {
        None
    }
}

/// The freeze procedure for a platform pair, if one exists: the same
/// platform resolves locally, a Darwin host can target Linux through a
/// container, and every other pair is unsupported.
pub open spec fn spec_plan_freeze(execution: Platform, target: Platform) -> Option<FreezeMode> {
    if execution == target {
        Some(FreezeMode::SameHost)
    } else if execution == Platform::Darwin && target == Platform::Linux {
        Some(FreezeMode::LinuxOnDarwin)
    } else {
        None
    }
}

/// Chooses the freeze procedure for an execution/target platform pair.
///
/// Fails with `UnsupportedPlatformPair`, naming both platforms, exactly when
/// no procedure exists; no external tool is consulted.
pub fn plan_freeze(execution: Platform, target: Platform) -> (r: Result<FreezeMode, LockError>)
    ensures
        match r {
            Ok(mode) => spec_plan_freeze(execution, target) == Some(mode),
            Err(e) => spec_plan_freeze(execution, target) is None && (e matches
                LockError::UnsupportedPlatformPair { execution: e2, target: t2 }
                && e2@ == execution.spec_name() && t2@ == target.spec_name()),
        },
{
    if execution == target {
        Ok(FreezeMode::SameHost)
    } else if execution == Platform::Darwin && target == Platform::Linux {
        Ok(FreezeMode::LinuxOnDarwin)
    } else {
        Err(LockError::UnsupportedPlatformPair { execution: execution.name(), target: target.name() })
    }
}

} // verus!
