//! Running an output of the flake at the resolved root.

use vstd::prelude::*;
use vstd::string::*;
use crate::command::{
    command_result_view, nix_command, nix_command_if_found, on_search_path, CommandSpec,
    CommandSpecView, RootLookup, RootLookupView, NIX,
};
use crate::helpers::{UniverseCliError, UniverseCliErrorView};
use crate::options::{GlobalOptions, GlobalOptionsView};
use crate::text::{append_texts, opt_text, texts};

verus! {

/// The output to run and the raw arguments that are handed to it.
#[derive(Debug, Clone, PartialEq, Eq)]
pub struct RunArgs {
    /// Name of the flake output.
    pub flake_output: String,
    /// Arguments for the program that the output names, taken as they are.
    pub args: Vec<String>,
}

/// The mathematical form of [`RunArgs`].
pub struct RunArgsView {
    pub flake_output: Seq<char>,
    pub args: Seq<Seq<char>>,
}

impl View for RunArgs {
    type V = RunArgsView;

    open spec fn view(&self) -> RunArgsView {
        RunArgsView { flake_output: self.flake_output@, args: texts(self.args@) }
    }
}

/// The run arguments that raw values amount to: the first value given for
/// the output names it, and the trailing values, if any were given, follow.
/// Without a value for the output there are none.
pub open spec fn run_args_of(outputs: Option<Seq<Seq<char>>>, trailing: Option<Seq<Seq<char>>>)
    -> Option<RunArgsView> {
    match outputs {
        Some(o) if o.len() > 0 => Some(
            RunArgsView {
                flake_output: o[0],
                args: match trailing {
                    Some(t) => t,
                    None => seq![],
                },
            },
        ),
        _ => None,
    }
}

/// The mathematical form of optional raw values.
pub open spec fn opt_texts(o: Option<Vec<String>>) -> Option<Seq<Seq<char>>> {
    match o {
        Some(v) => Some(texts(v@)),
        None => None,
    }
}

/// The mathematical form of optional run arguments.
pub open spec fn opt_run_args(o: Option<RunArgs>) -> Option<RunArgsView> {
    match o {
        Some(r) => Some(r@),
        None => None,
    }
}

impl RunArgs {
    /// Run arguments for the given output and trailing arguments.
    pub fn new(flake_output: String, args: Vec<String>) -> (r: RunArgs)
        ensures
            r@ == (RunArgsView { flake_output: flake_output@, args: texts(args@) }),
    {
        RunArgs { flake_output, args }
    }

    /// Builds run arguments from the raw values of the two positional
    /// arguments. `None` means that the required output is missing.
    pub fn from_raw_values(outputs: Option<Vec<String>>, trailing: Option<Vec<String>>) -> (r:
        Option<RunArgs>)
        ensures
            opt_run_args(r) == run_args_of(opt_texts(outputs), opt_texts(trailing)),
    {
        let flake_output = match &outputs {
            Some(o) => {
                if o.len() == 0 {
                    return None;
                }
                o[0].clone()
            },
            None => {
                return None;
            },
        };
        let args = match trailing {
            Some(t) => t,
            None => {
                let empty: Vec<String> = Vec::new();
                assert(texts(empty@) =~= seq![]);
                empty
            },
        };
        Some(RunArgs { flake_output, args })
    }
}

/// The reference of an output of the flake at `root`: `<root>#<output>`.
pub open spec fn output_reference(root: Seq<char>, output: Seq<char>) -> Seq<char> {
    root + "#"@ + output
}

/// The run operation once the build tool was found. It needs a root: a
/// candidate that had to be valid and is not is an error, and so is the
/// absence of any root. Otherwise the build tool runs the output in the
/// root, and the trailing arguments end the vector unchanged.
pub open spec fn run_command(cli: GlobalOptionsView, args: RunArgsView, lookup: RootLookupView)
    -> Result<CommandSpecView, UniverseCliErrorView> {
    match nix_command(cli, lookup) {
        Err(e) => Err(e),
        Ok(base) => match base.cwd {
            None => Err(UniverseCliErrorView::FlakeRootMissing),
            Some(root) => Ok(
                CommandSpecView {
                    program: NIX@,
                    args: base.args + seq!["run"@, output_reference(root, args.flake_output)]
                        + args.args,
                    cwd: Some(root),
                },
            ),
        },
    }
}

/// Synthesizes the run operation, given whether the build tool is on the
/// search path.
pub fn run_if_found(
    tool_found: bool,
    cli: &GlobalOptions,
    run_args: &RunArgs,
    lookup: &RootLookup,
) -> (r: Result<CommandSpec, UniverseCliError>)
    ensures
        command_result_view(r) == (if tool_found {
            run_command(cli@, run_args@, lookup@)
        } else {
            Err(UniverseCliErrorView::CommandNotFound)
        }),
{
    let mut command = match nix_command_if_found(tool_found, cli, lookup) {
        Ok(c) => c,
        Err(e) => {
            return Err(e);
        },
    };
    let reference = match &command.cwd {
        Some(root) => root.clone().concat("#").concat(run_args.flake_output.as_str()),
        None => {
            return Err(UniverseCliError::FlakeRootMissing);
        },
    };
    let ghost base = texts(command.args@);
    let mut args = command.args;
    args.push("run".to_owned());
    args.push(reference);
    assert(texts(args@) =~= base + seq![
        "run"@,
        output_reference(opt_text(command.cwd).unwrap(), run_args.flake_output@),
    ]);
    append_texts(&mut args, &run_args.args);
    command.args = args;
    Ok(command)
}

/// Synthesizes the run operation after looking for the build tool on the
/// search path.
pub fn command_run(cli: &GlobalOptions, run_args: &RunArgs, lookup: &RootLookup) -> (r: Result<
    CommandSpec,
    UniverseCliError,
>)
    ensures
        command_result_view(r) == Err::<CommandSpecView, UniverseCliErrorView>(
            UniverseCliErrorView::CommandNotFound,
        ) || command_result_view(r) == run_command(cli@, run_args@, lookup@),
{
    let found = on_search_path(NIX);
    run_if_found(found, cli, run_args, lookup)
}

/// A run without a root is an error and yields no command: when the build
/// tool is there and resolution finds no root, the outcome is the report of
/// a missing root.
pub proof fn lemma_run_needs_root(
    cli: GlobalOptionsView,
    args: RunArgsView,
    lookup: RootLookupView,
)
    requires
        crate::command::lookup_root(cli, lookup) == Ok::<
            Option<Seq<char>>,
            crate::helpers::FlakeRootError,
        >(None),
    ensures
        run_command(cli, args, lookup) == Err::<CommandSpecView, UniverseCliErrorView>(
            UniverseCliErrorView::FlakeRootMissing,
        ),
{
}

} // verus!
