//! Finding the flake root: which candidate is tried, and what becomes of it.
//!
//! Three sources can name a root, in this order: the command line, the
//! environment, and a built-in default. The first source that names a path
//! decides: its path is the only one examined. The library does not look at
//! the filesystem; the caller examines the chosen path and reports what it
//! saw as a [`PathProbe`].

use vstd::prelude::*;
use vstd::string::*;
use crate::helpers::FlakeRootError;
use crate::options::GlobalOptions;
use crate::text::opt_text;

verus! {

/// The root that is tried when neither the command line nor the environment
/// names one.
pub const DEFAULT_FLAKE_ROOT: &'static str = "/etc/nixos";

/// The file whose presence makes a directory a flake root.
pub const MARKER_FILE: &'static str = "flake.nix";

/// What was observed of a candidate path.
#[derive(Debug, Copy, Clone, PartialEq, Eq, Structural)]
pub struct PathProbe {
    /// The path names a directory.
    pub is_dir: bool,
    /// The marker file is a regular file directly inside that path.
    pub has_marker: bool,
}

/// The source that named a candidate.
#[derive(Debug, Copy, Clone, PartialEq, Eq, Structural)]
pub enum RootSource {
    Explicit,
    Environment,
    Default,
}

/// The one path that has to be examined, and who named it.
#[derive(Debug, Clone, PartialEq, Eq)]
pub struct RootCandidate {
    pub source: RootSource,
    pub path: String,
}

/// Why a path with this probe is no flake root, or `None` if it is one.
/// A path that is no directory is reported as such whatever else was seen.
pub open spec fn validation_error(probe: PathProbe) -> Option<FlakeRootError> {
    if !probe.is_dir {
        Some(FlakeRootError::PathDoesNotExist)
    } else if !probe.has_marker {
        Some(FlakeRootError::MissingFlakeDotNix)
    } else {
        None
    }
}

/// The source that decides, given what the command line and the environment
/// name.
pub open spec fn candidate_source(explicit: Option<Seq<char>>, env: Option<Seq<char>>)
    -> RootSource {
    if explicit.is_some() {
        RootSource::Explicit
    } else if env.is_some() {
        RootSource::Environment
    } else {
        RootSource::Default
    }
}

/// The path that the deciding source names.
pub open spec fn candidate_path(explicit: Option<Seq<char>>, env: Option<Seq<char>>) -> Seq<
    char,
> {
    match explicit {
        Some(p) => p,
        None => match env {
            Some(p) => p,
            None => DEFAULT_FLAKE_ROOT@,
        },
    }
}

/// The outcome of resolution when the deciding candidate was seen as `probe`:
/// a valid candidate is the root; an invalid default means no root; an
/// invalid candidate of another source is an error.
pub open spec fn resolved_root(
    explicit: Option<Seq<char>>,
    env: Option<Seq<char>>,
    probe: PathProbe,
) -> Result<Option<Seq<char>>, FlakeRootError> {
    match validation_error(probe) {
        None => Ok(Some(candidate_path(explicit, env))),
        Some(e) => if candidate_source(explicit, env) == RootSource::Default {
            Ok(None)
        } else {
            Err(e)
        },
    }
}

/// The outcome of resolution on a filesystem that shows each path as
/// `fs(path)`: the sources are gone through in order, each one that names a
/// path either yields it or fails, and only the default may fail silently.
pub open spec fn resolution_on(
    explicit: Option<Seq<char>>,
    env: Option<Seq<char>>,
    fs: spec_fn(Seq<char>) -> PathProbe,
) -> Result<Option<Seq<char>>, FlakeRootError> {
    match explicit {
        Some(p) => match validation_error(fs(p)) {
            None => Ok(Some(p)),
            Some(e) => Err(e),
        },
        None => match env {
            Some(q) => match validation_error(fs(q)) {
                None => Ok(Some(q)),
                Some(e) => Err(e),
            },
            None => match validation_error(fs(DEFAULT_FLAKE_ROOT@)) {
                None => Ok(Some(DEFAULT_FLAKE_ROOT@)),
                Some(_) => Ok(None),
            },
        },
    }
}

/// The mathematical form of a resolution's outcome.
pub open spec fn root_result_text(r: Result<Option<String>, FlakeRootError>) -> Result<
    Option<Seq<char>>,
    FlakeRootError,
> {
    match r {
        Ok(root) => Ok(opt_text(root)),
        Err(e) => Err(e),
    }
}

/// Validates one candidate from what was observed of it. The path comes back
/// unchanged exactly when it is a directory that holds the marker file.
pub fn check_flake_root<'a>(flake_root: &'a str, probe: PathProbe) -> (r: Result<
    &'a str,
    FlakeRootError,
>)
    ensures
        match r {
            Ok(p) => validation_error(probe).is_none() && p@ == flake_root@,
            Err(e) => validation_error(probe) == Some(e),
        },
{
    if !probe.is_dir {
        return Err(FlakeRootError::PathDoesNotExist);
    }
    if !probe.has_marker {
        return Err(FlakeRootError::MissingFlakeDotNix);
    }
    Ok(flake_root)
}

/// Picks the one candidate that has to be examined: the explicit root if
/// there is one, else the environment's, else the default.
pub fn root_candidate(cli: &GlobalOptions, env_root: &Option<String>) -> (c: RootCandidate)
    ensures
        c.source == candidate_source(cli@.flake_root, opt_text(*env_root)),
        c.path@ == candidate_path(cli@.flake_root, opt_text(*env_root)),
{
    match &cli.flake_root {
        Some(p) => RootCandidate { source: RootSource::Explicit, path: p.clone() },
        None => match env_root {
            Some(q) => RootCandidate { source: RootSource::Environment, path: q.clone() },
            None => RootCandidate {
                source: RootSource::Default,
                path: DEFAULT_FLAKE_ROOT.to_owned(),
            },
        },
    }
}

/// Resolves the flake root. `env_root` is the environment's override, if
/// set, and `probe` is what was observed of the path that
/// [`root_candidate`] picks for the same arguments.
pub fn find_flake_root(cli: &GlobalOptions, env_root: &Option<String>, probe: PathProbe) -> (r:
    Result<Option<String>, FlakeRootError>)
    ensures
        root_result_text(r) == resolved_root(cli@.flake_root, opt_text(*env_root), probe),
        forall|fs: spec_fn(Seq<char>) -> PathProbe|
            fs(candidate_path(cli@.flake_root, opt_text(*env_root))) == probe
                ==> root_result_text(r) == #[trigger] resolution_on(
                cli@.flake_root,
                opt_text(*env_root),
                fs,
            ),
{
    let candidate = root_candidate(cli, env_root);
    match check_flake_root(candidate.path.as_str(), probe) {
        Ok(path) => Ok(Some(path.to_owned())),
        Err(e) => match candidate.source {
            RootSource::Default => Ok(None),
            _ => Err(e),
        },
    }
}

/// Resolution examines one path only: on any filesystem, going through the
/// sources in order gives what the probe of the deciding candidate gives.
/// So the first source that names a path is the one used, an explicit or
/// environment candidate that fails validation ends resolution with its
/// error, and a failing default yields no root.
pub proof fn lemma_first_source_decides(
    explicit: Option<Seq<char>>,
    env: Option<Seq<char>>,
    fs: spec_fn(Seq<char>) -> PathProbe,
)
    ensures
        resolved_root(explicit, env, fs(candidate_path(explicit, env))) == resolution_on(
            explicit,
            env,
            fs,
        ),
        explicit matches Some(p) ==> resolution_on(explicit, env, fs) == (match validation_error(
            fs(p),
        ) {
            None => Ok::<Option<Seq<char>>, FlakeRootError>(Some(p)),
            Some(e) => Err(e),
        }),
        explicit.is_none() ==> (env matches Some(q) ==> resolution_on(explicit, env, fs) == (
        match validation_error(fs(q)) {
            None => Ok::<Option<Seq<char>>, FlakeRootError>(Some(q)),
            Some(e) => Err(e),
        })),
        explicit.is_none() && env.is_none() ==> resolution_on(explicit, env, fs) == (
        if validation_error(fs(DEFAULT_FLAKE_ROOT@)).is_none() {
            Ok::<Option<Seq<char>>, FlakeRootError>(Some(DEFAULT_FLAKE_ROOT@))
        } else {
            Ok(None)
        }),
{
}

/// Resolution and validation cannot be parted: a root comes out only where
/// the deciding candidate was seen as a directory that holds the marker
/// file, and it is that candidate's path.
pub proof fn lemma_root_is_validated(
    explicit: Option<Seq<char>>,
    env: Option<Seq<char>>,
    probe: PathProbe,
)
    ensures
        resolved_root(explicit, env, probe) matches Ok(Some(root)) ==> probe.is_dir
            && probe.has_marker && root == candidate_path(explicit, env),
        probe.is_dir && probe.has_marker ==> resolved_root(explicit, env, probe) == Ok::<
            Option<Seq<char>>,
            FlakeRootError,
        >(Some(candidate_path(explicit, env))),
{
}

/// Existence is checked before the marker: a path that is no directory is
/// never reported as lacking the marker file, whatever the sources are.
pub proof fn lemma_missing_path_never_reports_marker(
    explicit: Option<Seq<char>>,
    env: Option<Seq<char>>,
    probe: PathProbe,
)
    requires
        !probe.is_dir,
    ensures
        validation_error(probe) == Some(FlakeRootError::PathDoesNotExist),
        resolved_root(explicit, env, probe) != Err::<Option<Seq<char>>, FlakeRootError>(
            FlakeRootError::MissingFlakeDotNix,
        ),
{
}

} // verus!
