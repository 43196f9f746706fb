//! Locating the external package manager and building its invocations, and
//! the fixed paths the pipeline uses.
//!
//! The library only decides what to invoke and where to look; spawning the
//! processes and touching the filesystem happen outside it.

use vstd::prelude::*;
use vstd::string::StringExecFns;

use crate::errors::LockError;
use crate::platform::Platform;
use crate::strutil::concat3;

verus! {

/// The scratch environment name a same-host freeze resolves into: fixed and
/// collision-resistant, distinct from any user environment name, so a
/// freeze never clobbers a pre-existing environment.
pub open spec fn spec_temp_env_name() -> Seq<char> {
    "___conda_lockfile_temp"@
}

/// Returns the fixed scratch environment name of a same-host freeze.
pub fn temp_env_name() -> (r: String)
    ensures
        r@ == spec_temp_env_name(),
{
    "___conda_lockfile_temp".to_owned()
}

/// Picks the package-manager executable from the primary and fallback
/// locations the environment offers: the primary wins, the fallback stands
/// in for it, and with neither the tool is missing.
pub fn find_conda(primary: Option<String>, fallback: Option<String>) -> (r: Result<
    String,
    LockError,
>)
    ensures
        match primary {
            Some(p) => r == Ok::<String, LockError>(p),
            None => match fallback {
                Some(f) => r == Ok::<String, LockError>(f),
                None => r == Err::<String, LockError>(LockError::ToolNotFound),
            },
        },
{
    match primary {
        Some(p) => Ok(p),
        None => match fallback {
            Some(f) => Ok(f),
            None => Err(LockError::ToolNotFound),
        },
    }
}

/// The invocation that resolves a spec file into the fixed scratch
/// environment.
pub open spec fn spec_create_args(depfile_path: Seq<char>) -> Seq<Seq<char>> {
    seq!["env"@, "create"@, "-f"@, depfile_path, "-n"@, spec_temp_env_name(), "--yes"@]
}

/// The arguments that resolve a spec file into the fixed scratch
/// environment.
pub fn conda_create_args(depfile_path: &str) -> (args: Vec<String>)
    ensures
        args@.map_values(|s: String| s@) == spec_create_args(depfile_path@),
{
    let mut args: Vec<String> = Vec::new();
    args.push("env".to_owned());
    args.push("create".to_owned());
    args.push("-f".to_owned());
    args.push(depfile_path.to_owned());
    args.push("-n".to_owned());
    args.push(temp_env_name());
    args.push("--yes".to_owned());
    proof {
        assert(args@.map_values(|s: String| s@) =~= spec_create_args(depfile_path@));
    }
    args
}

/// The invocation that exports the resolved scratch environment.
pub open spec fn spec_export_args() -> Seq<Seq<char>> {
    seq!["env"@, "export"@, "-n"@, spec_temp_env_name()]
}

/// The arguments that export the resolved scratch environment.
pub fn conda_export_args() -> (args: Vec<String>)
    ensures
        args@.map_values(|s: String| s@) == spec_export_args(),
{
    let mut args: Vec<String> = Vec::new();
    args.push("env".to_owned());
    args.push("export".to_owned());
    args.push("-n".to_owned());
    args.push(temp_env_name());
    proof {
        assert(args@.map_values(|s: String| s@) =~= spec_export_args());
    }
    args
}

/// The arguments that materialize an environment from a pinned lockfile.
pub fn conda_create_from_lock_args(env_name: &str, lockfile_path: &str) -> (args: Vec<String>)
    ensures
        args@.len() == 9,
        args@[0]@ == "env"@,
        args@[1]@ == "create"@,
        args@[2]@ == "--yes"@,
        args@[3]@ == "-q"@,
        args@[4]@ == "--json"@,
        args@[5]@ == "--name"@,
        args@[6]@ == env_name@,
        args@[7]@ == "-f"@,
        args@[8]@ == lockfile_path@,
{
    let mut args: Vec<String> = Vec::new();
    args.push("env".to_owned());
    args.push("create".to_owned());
    args.push("--yes".to_owned());
    args.push("-q".to_owned());
    args.push("--json".to_owned());
    args.push("--name".to_owned());
    args.push(env_name.to_owned());
    args.push("-f".to_owned());
    args.push(lockfile_path.to_owned());
    args
}

/// The installation root of a named environment under the package manager's
/// root directory.
pub fn conda_prefix(conda_root: &str, env_name: &str) -> (r: String)
    ensures
        r@ == conda_root@ + "/envs/"@ + env_name@,
{
    concat3(conda_root, "/envs/", env_name)
}

/// The fixed path of the lockfile embedded inside an installed environment.
pub fn embedded_lockfile_path(conda_root: &str, env_name: &str) -> (r: String)
    ensures
        r@ == conda_root@ + "/envs/"@ + env_name@ + "/deps.lock.yml"@,
{
    let mut r = conda_prefix(conda_root, env_name);
    r.append("/deps.lock.yml");
    r
}

/// The default lockfile name for a target platform.
pub fn default_lockfile_name(platform: Platform) -> (r: String)
    ensures
        r@ == "deps."@ + platform.spec_name() + ".lock.yml"@,
{
    let name = platform.name();
    concat3("deps.", name.as_str(), ".lock.yml")
}

} // verus!
