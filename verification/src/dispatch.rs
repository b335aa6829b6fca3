//! From an operation to what has to be done for it.
//!
//! Each invocation performs one operation. The library decides what that
//! takes: a command to spawn, two of them, a file to edit, a directory to
//! print, or nothing. Doing it is the caller's part, and so is reporting how
//! it ended.

use vstd::prelude::*;
use vstd::string::*;
use crate::command::{
    on_search_path, rebuild_program, rebuild_tool, CommandSpec, CommandSpecView, RootLookup, NIX,
};
use crate::helpers::{UniverseCliError, UniverseCliErrorView};
use crate::misc::{
    base_directory, base_directory_of, command_gc, command_init, gc_arguments, init_command,
    GcArgs, NIX_COLLECT_GARBAGE, SUDO,
};
use crate::options::{GlobalOptions, GlobalOptionsView};
use crate::probe::{CapabilityClass, Identity};
use crate::rebuild::{
    passthrough_rebuild_command, quick_rebuild_command, quick_rebuild_if_found,
    rebuild_if_found, QuickRebuildArgs, RebuildArgs,
};
use crate::run::{opt_texts, run_command, run_if_found, RunArgs};
use crate::text::{clone_opt_text, opt_text};
use crate::update::{update_command, update_if_found};

verus! {

/// The operations.
#[derive(Debug, Clone, PartialEq, Eq)]
pub enum Commands {
    /// Update all inputs of the flake, or the listed ones.
    Update { inputs: Option<Vec<String>> },
    /// Rebuild with the flake root selected and the raw arguments handed on.
    Rebuild { rebuild_args: RebuildArgs },
    /// Run an output of the flake.
    Run { run_args: RunArgs },
    /// Open a file, relative to the flake root, in the editor.
    Edit { path: String },
    /// Print the absolute path of a directory relative to the flake root.
    Cd { path: Option<String> },
    /// Rebuild and switch.
    B { rebuild_args: QuickRebuildArgs },
    /// Collect garbage for the current user and for the superuser.
    Gc { gc_args: GcArgs },
    /// Initialise a project from a template.
    Init { template: Option<String> },
}

/// What the caller observed of the host.
#[derive(Debug, Clone, PartialEq, Eq)]
pub struct Host {
    /// Whether the host manages the whole system.
    pub class: CapabilityClass,
    /// The environment's root override and the chosen candidate's probe.
    pub lookup: RootLookup,
    /// The current user and host name. Only a quick rebuild on a user-level
    /// host reads them.
    pub identity: Identity,
}

/// What has to be done for an operation.
#[derive(Debug, Clone, PartialEq, Eq)]
pub enum Plan {
    /// Spawn the command, wait for it, and report its exit status.
    Spawn(CommandSpec),
    /// Spawn the first command and then the second; each one's exit status
    /// is reported.
    SpawnBoth(CommandSpec, CommandSpec),
    /// Open `path` in the editor, taken relative to `base` if there is one.
    Edit { base: Option<String>, path: String },
    /// Print the absolute form of `base`, or of `path` relative to it.
    PrintDirectory { base: String, path: Option<String> },
    /// There is nothing to do.
    Nothing,
}

/// The mathematical form of a [`Plan`].
pub enum PlanView {
    Spawn(CommandSpecView),
    SpawnBoth(CommandSpecView, CommandSpecView),
    Edit { base: Option<Seq<char>>, path: Seq<char> },
    PrintDirectory { base: Seq<char>, path: Option<Seq<char>> },
    Nothing,
}

impl View for Plan {
    type V = PlanView;

    open spec fn view(&self) -> PlanView {
        match *self {
            Plan::Spawn(c) => PlanView::Spawn(c@),
            Plan::SpawnBoth(a, b) => PlanView::SpawnBoth(a@, b@),
            Plan::Edit { base, path } => PlanView::Edit { base: opt_text(base), path: path@ },
            Plan::PrintDirectory { base, path } => PlanView::PrintDirectory {
                base: base@,
                path: opt_text(path),
            },
            Plan::Nothing => PlanView::Nothing,
        }
    }
}

/// The mathematical form of a dispatch's outcome.
pub open spec fn plan_result_view(r: Result<Plan, UniverseCliError>) -> Result<
    PlanView,
    UniverseCliErrorView,
> {
    match r {
        Ok(p) => Ok(p@),
        Err(e) => Err(e@),
    }
}

/// The plan that spawns a synthesized command, or the synthesis' error.
pub open spec fn spawning(c: Result<CommandSpecView, UniverseCliErrorView>) -> Result<
    PlanView,
    UniverseCliErrorView,
> {
    match c {
        Ok(c) => Ok(PlanView::Spawn(c)),
        Err(e) => Err(e),
    }
}

/// The tool that an operation needs on the search path before anything is
/// synthesized, if it needs one.
pub open spec fn required_program(command: Commands, class: CapabilityClass) -> Option<
    Seq<char>,
> {
    match command {
        Commands::Update { .. } => Some(NIX@),
        Commands::Run { .. } => Some(NIX@),
        Commands::Rebuild { .. } => Some(rebuild_program(class)),
        Commands::B { .. } => Some(rebuild_program(class)),
        _ => None,
    }
}

/// What has to be done for an operation when every tool it needs is there.
pub open spec fn planned(cli: GlobalOptionsView, command: Commands, host: Host) -> Result<
    PlanView,
    UniverseCliErrorView,
> {
    match command {
        Commands::Update { inputs } => spawning(
            update_command(cli, opt_texts(inputs), host.lookup@),
        ),
        Commands::Rebuild { rebuild_args } => spawning(
            passthrough_rebuild_command(cli, rebuild_args@, host.lookup@, host.class),
        ),
        Commands::Run { run_args } => spawning(run_command(cli, run_args@, host.lookup@)),
        Commands::B { rebuild_args } => spawning(
            quick_rebuild_command(
                cli,
                rebuild_args@,
                host.lookup@,
                host.class,
                host.identity.user@,
                host.identity.host@,
            ),
        ),
        Commands::Gc { gc_args } => Ok(
            PlanView::SpawnBoth(
                CommandSpecView {
                    program: NIX_COLLECT_GARBAGE@,
                    args: gc_arguments(cli, gc_args@),
                    cwd: None,
                },
                CommandSpecView {
                    program: SUDO@,
                    args: seq![NIX_COLLECT_GARBAGE@] + gc_arguments(cli, gc_args@),
                    cwd: None,
                },
            ),
        ),
        Commands::Init { template } => Ok(PlanView::Spawn(init_command(cli, opt_text(template)))),
        Commands::Edit { path } => match base_directory_of(cli, host.lookup@) {
            Ok(base) => Ok(PlanView::Edit { base, path: path@ }),
            Err(e) => Err(e),
        },
        Commands::Cd { path } => match base_directory_of(cli, host.lookup@) {
            Ok(Some(base)) => Ok(PlanView::PrintDirectory { base, path: opt_text(path) }),
            Ok(None) => Ok(PlanView::Nothing),
            Err(e) => Err(e),
        },
    }
}

/// The outcome of a dispatch, given whether the required tool was found: a
/// tool that is needed and missing is reported before anything else.
pub open spec fn dispatched(
    tool_found: bool,
    cli: GlobalOptionsView,
    command: Commands,
    host: Host,
) -> Result<PlanView, UniverseCliErrorView> {
    if required_program(command, host.class).is_some() && !tool_found {
        Err(UniverseCliErrorView::CommandNotFound)
    } else {
        planned(cli, command, host)
    }
}

/// True where synthesis reads the user and host name: for a quick rebuild
/// on a user-level host without an explicit flake reference.
pub open spec fn reads_identity(command: Commands, class: CapabilityClass) -> bool {
    match command {
        Commands::B { rebuild_args } => class == CapabilityClass::UserLevel
            && rebuild_args.flake.is_none(),
        _ => false,
    }
}

/// Tells whether the user and host name have to be found out before the
/// operation is dispatched.
pub fn needs_identity(command: &Commands, class: CapabilityClass) -> (b: bool)
    ensures
        b == reads_identity(*command, class),
{
    match command {
        Commands::B { rebuild_args } => !class.is_full_system() && rebuild_args.flake.is_none(),
        _ => false,
    }
}

/// Where the identity is not read, it does not matter: two hosts that
/// differ in nothing else get the same outcome.
pub proof fn lemma_identity_matters_only_where_read(
    tool_found: bool,
    cli: GlobalOptionsView,
    command: Commands,
    a: Host,
    b: Host,
)
    requires
        a.class == b.class,
        a.lookup@ == b.lookup@,
        !reads_identity(command, a.class),
    ensures
        dispatched(tool_found, cli, command, a) == dispatched(tool_found, cli, command, b),
{
}

/// The tool that an operation needs on the search path, if it needs one.
pub fn required_tool(command: &Commands, class: CapabilityClass) -> (tool: Option<&'static str>)
    ensures
        match tool {
            Some(t) => required_program(*command, class) == Some(t@),
            None => required_program(*command, class).is_none(),
        },
{
    match command {
        Commands::Update { .. } => Some(NIX),
        Commands::Run { .. } => Some(NIX),
        Commands::Rebuild { .. } => Some(rebuild_tool(class)),
        Commands::B { .. } => Some(rebuild_tool(class)),
        _ => None,
    }
}

fn spawn_plan(c: Result<CommandSpec, UniverseCliError>) -> (r: Result<Plan, UniverseCliError>)
    ensures
        plan_result_view(r) == spawning(crate::command::command_result_view(c)),
{
    match c {
        Ok(c) => Ok(Plan::Spawn(c)),
        Err(e) => Err(e),
    }
}

/// Decides what has to be done for an operation, given whether the tool
/// that it requires is on the search path.
pub fn dispatch_if_found(
    tool_found: bool,
    cli: &GlobalOptions,
    command: &Commands,
    host: &Host,
) -> (r: Result<Plan, UniverseCliError>)
    ensures
        plan_result_view(r) == dispatched(tool_found, cli@, *command, *host),
{
    match command {
        Commands::Update { inputs } => spawn_plan(
            update_if_found(tool_found, cli, inputs, &host.lookup),
        ),
        Commands::Rebuild { rebuild_args } => spawn_plan(
            rebuild_if_found(tool_found, cli, rebuild_args, &host.lookup, host.class),
        ),
        Commands::Run { run_args } => spawn_plan(
            run_if_found(tool_found, cli, run_args, &host.lookup),
        ),
        Commands::B { rebuild_args } => spawn_plan(
            quick_rebuild_if_found(
                tool_found,
                cli,
                rebuild_args,
                &host.lookup,
                host.class,
                &host.identity,
            ),
        ),
        Commands::Gc { gc_args } => {
            let both = command_gc(cli, gc_args);
            Ok(Plan::SpawnBoth(both.user, both.root))
        },
        Commands::Init { template } => Ok(Plan::Spawn(command_init(cli, template))),
        Commands::Edit { path } => match base_directory(cli, &host.lookup) {
            Ok(base) => Ok(Plan::Edit { base, path: path.clone() }),
            Err(e) => Err(e),
        },
        Commands::Cd { path } => match base_directory(cli, &host.lookup) {
            Ok(Some(base)) => Ok(Plan::PrintDirectory { base, path: clone_opt_text(path) }),
            Ok(None) => Ok(Plan::Nothing),
            Err(e) => Err(e),
        },
    }
}

/// Decides what has to be done for an operation. Where the operation needs
/// a tool, the search path is asked for it first; whatever the answer, the
/// outcome is the report of a missing tool or the plan. An operation that
/// needs no tool always gets its plan.
pub fn dispatch(cli: &GlobalOptions, command: &Commands, host: &Host) -> (r: Result<
    Plan,
    UniverseCliError,
>)
    ensures
        plan_result_view(r) == dispatched(true, cli@, *command, *host) || plan_result_view(r)
            == dispatched(false, cli@, *command, *host),
        required_program(*command, host.class).is_none() ==> plan_result_view(r) == planned(
            cli@,
            *command,
            *host,
        ),
{
    let found = match required_tool(command, host.class) {
        Some(tool) => on_search_path(tool),
        None => true,
    };
    dispatch_if_found(found, cli, command, host)
}

} // verus!
