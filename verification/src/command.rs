//! The synthesized command and the two base invocations that every
//! operation starts from.

use vstd::prelude::*;
use vstd::string::*;
use crate::flake_root::{find_flake_root, resolved_root, PathProbe};
use crate::helpers::{UniverseCliError, UniverseCliErrorView};
use crate::options::{GlobalOptions, GlobalOptionsView};
use crate::probe::CapabilityClass;
use crate::text::{opt_text, push_text, texts};

verus! {

/// The declarative build tool.
pub const NIX: &'static str = "nix";

/// The rebuild tool of a host that manages the whole system.
pub const NIXOS_REBUILD: &'static str = "nixos-rebuild";

/// The rebuild tool of a host that manages one user's configuration.
pub const HOME_MANAGER: &'static str = "home-manager";

/// A fully synthesized external invocation.
#[derive(Debug, Clone, PartialEq, Eq)]
pub struct CommandSpec {
    /// Name of the executable, looked up on the search path.
    pub program: String,
    /// Arguments, in order.
    pub args: Vec<String>,
    /// Directory to run in; `None` keeps the caller's.
    pub cwd: Option<String>,
}

/// The mathematical form of a [`CommandSpec`].
pub struct CommandSpecView {
    pub program: Seq<char>,
    pub args: Seq<Seq<char>>,
    pub cwd: Option<Seq<char>>,
}

impl View for CommandSpec {
    type V = CommandSpecView;

    open spec fn view(&self) -> CommandSpecView {
        CommandSpecView {
            program: self.program@,
            args: texts(self.args@),
            cwd: opt_text(self.cwd),
        }
    }
}

/// The mathematical form of a synthesis outcome.
pub open spec fn command_result_view(r: Result<CommandSpec, UniverseCliError>) -> Result<
    CommandSpecView,
    UniverseCliErrorView,
> {
    match r {
        Ok(c) => Ok(c@),
        Err(e) => Err(e@),
    }
}

/// What the caller observed for root resolution: the environment's override
/// of the flake root, if set, and the probe of the path that
/// [`crate::flake_root::root_candidate`] picks.
#[derive(Debug, Clone, PartialEq, Eq)]
pub struct RootLookup {
    pub env_root: Option<String>,
    pub probe: PathProbe,
}

/// The mathematical form of a [`RootLookup`].
pub struct RootLookupView {
    pub env_root: Option<Seq<char>>,
    pub probe: PathProbe,
}

impl View for RootLookup {
    type V = RootLookupView;

    open spec fn view(&self) -> RootLookupView {
        RootLookupView { env_root: opt_text(self.env_root), probe: self.probe }
    }
}

/// The root that a lookup resolves to under the given options.
pub open spec fn lookup_root(cli: GlobalOptionsView, lookup: RootLookupView) -> Result<
    Option<Seq<char>>,
    crate::helpers::FlakeRootError,
> {
    resolved_root(cli.flake_root, lookup.env_root, lookup.probe)
}

/// `--verbose` if asked for, else nothing.
pub open spec fn verbose_flag(verbose: bool) -> Seq<Seq<char>> {
    if verbose {
        seq!["--verbose"@]
    } else {
        seq![]
    }
}

/// The base invocation of the build tool once the tool was found: it runs in
/// the resolved root, if any, and carries the verbose flag if asked for. A
/// candidate root that had to be valid and is not is an error.
pub open spec fn nix_command(cli: GlobalOptionsView, lookup: RootLookupView) -> Result<
    CommandSpecView,
    UniverseCliErrorView,
> {
    match lookup_root(cli, lookup) {
        Err(e) => Err(UniverseCliErrorView::InvalidFlakeRoot(e)),
        Ok(root) => Ok(
            CommandSpecView { program: NIX@, args: verbose_flag(cli.verbose), cwd: root },
        ),
    }
}

/// The rebuild tool of a capability class.
pub open spec fn rebuild_program(class: CapabilityClass) -> Seq<char> {
    match class {
        CapabilityClass::FullSystem => NIXOS_REBUILD@,
        CapabilityClass::UserLevel => HOME_MANAGER@,
    }
}

/// The base invocation of the rebuild tool: the tool of the capability
/// class, the privilege-escalation flag, and the verbose flag if asked for.
pub open spec fn rebuild_command(cli: GlobalOptionsView, class: CapabilityClass)
    -> CommandSpecView {
    CommandSpecView {
        program: rebuild_program(class),
        args: seq!["--use-remote-sudo"@] + verbose_flag(cli.verbose),
        cwd: None,
    }
}

/// Asks `which::which` for `program`, and reports whether it found an
/// executable of that name. The answer depends on the search path and on
/// the disk, so nothing is claimed of it.
#[verifier::external_body]
pub(crate) fn on_search_path(program: &str) -> (found: bool) {
    which::which(program).is_ok()
}

/// The rebuild tool's name for a capability class.
pub fn rebuild_tool(class: CapabilityClass) -> (name: &'static str)
    ensures
        name@ == rebuild_program(class),
{
    match class {
        CapabilityClass::FullSystem => NIXOS_REBUILD,
        CapabilityClass::UserLevel => HOME_MANAGER,
    }
}

/// Builds the base invocation of the build tool, given whether the tool is
/// on the search path. A missing tool is reported before anything else.
pub fn nix_command_if_found(tool_found: bool, cli: &GlobalOptions, lookup: &RootLookup) -> (r:
    Result<CommandSpec, UniverseCliError>)
    ensures
        command_result_view(r) == (if tool_found {
            nix_command(cli@, lookup@)
        } else {
            Err(UniverseCliErrorView::CommandNotFound)
        }),
{
    if !tool_found {
        return Err(UniverseCliError::CommandNotFound);
    }
    let root = match find_flake_root(cli, &lookup.env_root, lookup.probe) {
        Ok(root) => root,
        Err(e) => {
            return Err(UniverseCliError::InvalidFlakeRoot(e));
        },
    };
    let mut args: Vec<String> = Vec::new();
    if cli.verbose {
        push_text(&mut args, "--verbose");
    }
    assert(texts(args@) =~= verbose_flag(cli.verbose));
    Ok(CommandSpec { program: NIX.to_owned(), args, cwd: root })
}

/// Builds the base invocation of the build tool after looking for the tool
/// on the search path. Whatever the search says, the outcome is either the
/// report of a missing tool or the base invocation.
pub fn build_nix_command(cli: &GlobalOptions, lookup: &RootLookup) -> (r: Result<
    CommandSpec,
    UniverseCliError,
>)
    ensures
        command_result_view(r) == Err::<CommandSpecView, UniverseCliErrorView>(
            UniverseCliErrorView::CommandNotFound,
        ) || command_result_view(r) == nix_command(cli@, lookup@),
{
    let found = on_search_path(NIX);
    nix_command_if_found(found, cli, lookup)
}

/// Builds the base invocation of the rebuild tool, given whether the tool
/// is on the search path.
pub fn rebuild_command_if_found(tool_found: bool, cli: &GlobalOptions, class: CapabilityClass)
    -> (r: Result<CommandSpec, UniverseCliError>)
    ensures
        command_result_view(r) == (if tool_found {
            Ok::<CommandSpecView, UniverseCliErrorView>(rebuild_command(cli@, class))
        } else {
            Err(UniverseCliErrorView::CommandNotFound)
        }),
{
    if !tool_found {
        return Err(UniverseCliError::CommandNotFound);
    }
    let mut args: Vec<String> = Vec::new();
    push_text(&mut args, "--use-remote-sudo");
    if cli.verbose {
        push_text(&mut args, "--verbose");
    }
    assert(texts(args@) =~= seq!["--use-remote-sudo"@] + verbose_flag(cli.verbose));
    Ok(CommandSpec { program: rebuild_tool(class).to_owned(), args, cwd: None })
}

/// Builds the base invocation of the rebuild tool after looking for the
/// tool of the capability class on the search path.
pub fn build_rebuild_command(cli: &GlobalOptions, class: CapabilityClass) -> (r: Result<
    CommandSpec,
    UniverseCliError,
>)
    ensures
        command_result_view(r) == Err::<CommandSpecView, UniverseCliErrorView>(
            UniverseCliErrorView::CommandNotFound,
        ) || command_result_view(r) == Ok::<CommandSpecView, UniverseCliErrorView>(
            rebuild_command(cli@, class),
        ),
{
    let found = on_search_path(rebuild_tool(class));
    rebuild_command_if_found(found, cli, class)
}

} // verus!
