//! The disposable build image for cross-platform freezes.
//!
//! The image definition inlines a fixed shell script that resolves the spec
//! inside the container and exports the result next to the mount point.  The
//! script's non-comment lines are folded into one `;`-separated command that
//! the image definition writes into its entrypoint script.  The image is
//! rebuilt on every invocation; no caching is attempted.

use vstd::prelude::*;
use vstd::string::StringExecFns;

use crate::strutil::{join_semi, join_semicolon, split_lines, split_on_nl, starts_with, concat3};

verus! {

/// The shell script the build image runs: it reads the environment name
/// from a staged file, resolves the spec into an environment of that name,
/// and exports it with the machine-local prefix line removed.
pub open spec fn spec_build_script() -> Seq<char> {
    "set -e
cd artifacts
# We need the name of the environment for exporting the environment.
# Unfortunately, `conda env create` doesn't return any information identifying
# the name of the environment it created. As a workaround, provide an explicit
# name to `conda env create` so there is no ambiguity when calling `conda env
# export`.  This name *ought* be what is specified in `env.yml` itself.
ENV_NAME=$(cat env_name)
$CONDA_ROOT/bin/conda env create -f deps.yml -n $ENV_NAME
# The prefix line includes an absolute path from inside this container.
# Remove it to avoid confusion.
$CONDA_ROOT/bin/conda env export -n $ENV_NAME | grep -v \"^prefix:\" > deps.lock.yml"@
}

/// A shell comment line.
pub open spec fn is_comment_line(l: Seq<char>) -> bool {
    l.len() > 0 && l[0] == '#'
}

/// The lines of a script that are not comments, in order.
pub open spec fn non_comment_lines(lines: Seq<Seq<char>>) -> Seq<Seq<char>>
    decreases lines.len(),
{
    if lines.len() == 0 {
        Seq::empty()
    } else {
        let rest = non_comment_lines(lines.drop_last());
        if is_comment_line(lines.last()) {
            rest
        } else {
            rest.push(lines.last())
        }
    }
}

/// The script's non-comment lines folded into one `;`-separated command.
pub open spec fn spec_one_line_command() -> Seq<char> {
    join_semi(non_comment_lines(split_on_nl(spec_build_script())))
}

/// Everything of the image definition before the inlined command.
pub open spec fn spec_dockerfile_head() -> Seq<char> {
    "
FROM debian:stretch

RUN mkdir /app
WORKDIR /app
ENV CONDA_ROOT /var/lib/conda

RUN apt-get update && \
    apt-get install --yes bzip2 coreutils curl libc6 libc6-dev libc-dev gcc g++ net-tools && \
    apt-get autoclean

RUN curl https://repo.anaconda.com/miniconda/Miniconda3-py37_4.8.2-Linux-x86_64.sh > miniconda.sh
RUN bash miniconda.sh -b -f -p $CONDA_ROOT
RUN echo '"@
}

/// Everything of the image definition after the inlined command.
pub open spec fn spec_dockerfile_tail() -> Seq<char> {
    "' > build_lockfile.sh

ENTRYPOINT [\"/bin/bash\", \"./build_lockfile.sh\"]
"@
}

/// The full image definition: the fixed head, the one-line build command,
/// and the fixed tail.
pub open spec fn spec_dockerfile() -> Seq<char> {
    spec_dockerfile_head() + spec_one_line_command() + spec_dockerfile_tail()
}

/// Produces the image definition with the build script's non-comment lines
/// folded into the one-line command its entrypoint script runs.
pub fn interpolate_dockerfile() -> (r: String)
    ensures
        r@ == spec_dockerfile(),
{
    let script = "set -e
cd artifacts
# We need the name of the environment for exporting the environment.
# Unfortunately, `conda env create` doesn't return any information identifying
# the name of the environment it created. As a workaround, provide an explicit
# name to `conda env create` so there is no ambiguity when calling `conda env
# export`.  This name *ought* be what is specified in `env.yml` itself.
ENV_NAME=$(cat env_name)
$CONDA_ROOT/bin/conda env create -f deps.yml -n $ENV_NAME
# The prefix line includes an absolute path from inside this container.
# Remove it to avoid confusion.
$CONDA_ROOT/bin/conda env export -n $ENV_NAME | grep -v \"^prefix:\" > deps.lock.yml";
    proof {
        assert(script@ == spec_build_script());
    }
    let lines = split_lines(script);
    let ghost ls = lines@.map_values(|l: String| l@);
    let mut kept: Vec<String> = Vec::new();
    proof {
        assert(kept@.map_values(|l: String| l@) =~= non_comment_lines(ls.take(0)));
    }
    let mut i: usize = 0;
    while i < lines.len()
        invariant
            ls == lines@.map_values(|l: String| l@),
            0 <= i <= lines@.len(),
            kept@.map_values(|l: String| l@) == non_comment_lines(ls.take(i as int)),
        decreases lines@.len() - i,
    {
        let ghost pre = kept@.map_values(|l: String| l@);
        let keep = !starts_with(lines[i].as_str(), "#");
        proof {
            reveal_strlit("#");
            assert("#"@.len() == 1);
            if is_comment_line(ls[i as int]) {
                assert(ls[i as int].take(1) =~= "#"@) by {
                    assert(ls[i as int].take(1)[0] == '#');
                    assert("#"@[0] == '#');
                }
            }
            if ls[i as int].len() >= 1 && ls[i as int].take(1) == "#"@ {
                assert(ls[i as int][0] == ls[i as int].take(1)[0]);
                assert(is_comment_line(ls[i as int]));
            }
            assert(keep == !is_comment_line(ls[i as int]));
        }
        if keep {
            let line = lines[i].clone();
            kept.push(line);
            proof {
                assert(kept@.map_values(|l: String| l@) =~= pre.push(ls[i as int]));
            }
        }
        proof {
            assert(ls.take(i + 1).drop_last() =~= ls.take(i as int));
            assert(ls.take(i + 1).last() == ls[i as int]);
            assert(non_comment_lines(ls.take(i + 1)) == if !is_comment_line(ls[i as int]) {
                non_comment_lines(ls.take(i as int)).push(ls[i as int])
            } else {
                non_comment_lines(ls.take(i as int))
            });
        }
        i += 1;
    }
    proof {
        assert(ls.take(ls.len() as int) =~= ls);
    }
    let olc = join_semicolon(&kept);
    let head = "
FROM debian:stretch

RUN mkdir /app
WORKDIR /app
ENV CONDA_ROOT /var/lib/conda

RUN apt-get update && \
    apt-get install --yes bzip2 coreutils curl libc6 libc6-dev libc-dev gcc g++ net-tools && \
    apt-get autoclean

RUN curl https://repo.anaconda.com/miniconda/Miniconda3-py37_4.8.2-Linux-x86_64.sh > miniconda.sh
RUN bash miniconda.sh -b -f -p $CONDA_ROOT
RUN echo '";
    let tail = "' > build_lockfile.sh

ENTRYPOINT [\"/bin/bash\", \"./build_lockfile.sh\"]
";
    concat3(head, olc.as_str(), tail)
}

/// The fixed name of the disposable build image.
pub open spec fn spec_image_name() -> Seq<char> {
    "lock_file_maker"@
}

/// Returns the fixed name of the disposable build image.
pub fn image_name() -> (r: String)
    ensures
        r@ == spec_image_name(),
{
    "lock_file_maker".to_owned()
}

/// The arguments of the container-engine call that builds the image from an
/// image definition piped to its standard input.
pub fn docker_build_args() -> (args: Vec<String>)
    ensures
        args@.len() == 4,
        args@[0]@ == "build"@,
        args@[1]@ == "-t"@,
        args@[2]@ == spec_image_name(),
        args@[3]@ == "-"@,
{
    let mut args: Vec<String> = Vec::new();
    args.push("build".to_owned());
    args.push("-t".to_owned());
    args.push(image_name());
    args.push("-".to_owned());
    args
}

/// The invocation that runs the build image with the scratch directory
/// bind-mounted at the image's expected artifact path.
pub open spec fn spec_run_container_args(dir: Seq<char>, img_name: Seq<char>) -> Seq<Seq<char>> {
    seq!["run"@, "-v"@, dir + ":/app/artifacts"@, "-t"@, img_name]
}

/// The arguments of the container-engine call that runs the build image
/// with the scratch directory bind-mounted at the image's expected artifact
/// path.
pub fn run_container(dir: &str, img_name: &str) -> (args: Vec<String>)
    ensures
        args@.map_values(|s: String| s@) == spec_run_container_args(dir@, img_name@),
{
    let mut vol_mount = dir.to_owned();
    vol_mount.append(":/app/artifacts");
    let mut args: Vec<String> = Vec::new();
    args.push("run".to_owned());
    args.push("-v".to_owned());
    args.push(vol_mount);
    args.push("-t".to_owned());
    args.push(img_name.to_owned());
    proof {
        assert(args@.map_values(|s: String| s@) =~= spec_run_container_args(dir@, img_name@));
    }
    args
}

} // verus!
