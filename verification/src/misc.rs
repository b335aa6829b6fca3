//! The smaller operations: garbage collection, project initialisation, and
//! the directory that `edit` and `cd` start from.

use vstd::prelude::*;
use vstd::string::*;
use crate::command::{
    lookup_root, verbose_flag, CommandSpec, CommandSpecView, RootLookup, RootLookupView, NIX,
};
use crate::flake_root::find_flake_root;
use crate::helpers::{UniverseCliError, UniverseCliErrorView};
use crate::options::{GlobalOptions, GlobalOptionsView};
use crate::text::{opt_text, push_text, texts};

verus! {

/// The garbage collector.
pub const NIX_COLLECT_GARBAGE: &'static str = "nix-collect-garbage";

/// The privilege-escalation wrapper.
pub const SUDO: &'static str = "sudo";

/// The template collection that new projects are made from.
pub const TEMPLATE_COLLECTION: &'static str = "universe";

/// Options of the garbage collection.
#[derive(Debug, Clone, PartialEq, Eq)]
pub struct GcArgs {
    /// Delete all old generations of all profiles.
    pub delete_old: bool,
    /// Delete generations older than this period.
    pub delete_older_than: Option<String>,
    /// Only show what would be deleted.
    pub dry_run: bool,
}

/// The mathematical form of [`GcArgs`].
pub struct GcArgsView {
    pub delete_old: bool,
    pub delete_older_than: Option<Seq<char>>,
    pub dry_run: bool,
}

impl View for GcArgs {
    type V = GcArgsView;

    open spec fn view(&self) -> GcArgsView {
        GcArgsView {
            delete_old: self.delete_old,
            delete_older_than: opt_text(self.delete_older_than),
            dry_run: self.dry_run,
        }
    }
}

/// `--quiet` if asked for; else `--verbose` if asked for; else nothing.
pub open spec fn noise_flag(cli: GlobalOptionsView) -> Seq<Seq<char>> {
    if cli.quiet {
        seq!["--quiet"@]
    } else if cli.verbose {
        seq!["--verbose"@]
    } else {
        seq![]
    }
}

/// The arguments that the options add to a garbage collection, in order.
pub open spec fn gc_arguments(cli: GlobalOptionsView, gc: GcArgsView) -> Seq<Seq<char>> {
    noise_flag(cli) + (if gc.delete_old {
        seq!["--delete-old"@]
    } else {
        seq![]
    }) + (if gc.dry_run {
        seq!["--dry-run"@]
    } else {
        seq![]
    }) + (match gc.delete_older_than {
        Some(period) => seq!["--delete-older-than"@, period],
        None => seq![],
    })
}

/// Appends the garbage collection's arguments to a command; nothing else
/// of the command changes.
pub fn add_gc_arguments(command: &mut CommandSpec, cli: &GlobalOptions, gc_args: &GcArgs)
    ensures
        final(command)@ == (CommandSpecView {
            args: old(command)@.args + gc_arguments(cli@, gc_args@),
            ..old(command)@
        }),
{
    let ghost start = texts(command.args@);
    if cli.quiet {
        push_text(&mut command.args, "--quiet");
    } else if cli.verbose {
        push_text(&mut command.args, "--verbose");
    }
    let ghost a = texts(command.args@);
    assert(a =~= start + noise_flag(cli@));
    if gc_args.delete_old {
        push_text(&mut command.args, "--delete-old");
    }
    let ghost b = texts(command.args@);
    assert(b =~= a + (if gc_args.delete_old {
        seq!["--delete-old"@]
    } else {
        seq![]
    }));
    if gc_args.dry_run {
        push_text(&mut command.args, "--dry-run");
    }
    let ghost c = texts(command.args@);
    assert(c =~= b + (if gc_args.dry_run {
        seq!["--dry-run"@]
    } else {
        seq![]
    }));
    if let Some(period) = &gc_args.delete_older_than {
        push_text(&mut command.args, "--delete-older-than");
        push_text(&mut command.args, period.as_str());
    }
    assert(texts(command.args@) =~= c + (match opt_text(gc_args.delete_older_than) {
        Some(period) => seq!["--delete-older-than"@, period],
        None => seq![],
    }));
    assert(texts(command.args@) =~= start + gc_arguments(cli@, gc_args@));
}

/// The two invocations of a garbage collection: one for the current user,
/// and one for the superuser through the privilege-escalation wrapper.
#[derive(Debug, Clone, PartialEq, Eq)]
pub struct GcCommands {
    pub user: CommandSpec,
    pub root: CommandSpec,
}

/// Synthesizes both invocations of a garbage collection. Each gets the same
/// arguments, and each one's result counts on its own.
pub fn command_gc(cli: &GlobalOptions, gc_args: &GcArgs) -> (r: GcCommands)
    ensures
        r.user@ == (CommandSpecView {
            program: NIX_COLLECT_GARBAGE@,
            args: gc_arguments(cli@, gc_args@),
            cwd: None,
        }),
        r.root@ == (CommandSpecView {
            program: SUDO@,
            args: seq![NIX_COLLECT_GARBAGE@] + gc_arguments(cli@, gc_args@),
            cwd: None,
        }),
{
    let mut user = CommandSpec {
        program: NIX_COLLECT_GARBAGE.to_owned(),
        args: Vec::new(),
        cwd: None,
    };
    let mut root_args: Vec<String> = Vec::new();
    push_text(&mut root_args, NIX_COLLECT_GARBAGE);
    let mut root = CommandSpec { program: SUDO.to_owned(), args: root_args, cwd: None };
    assert(texts(user.args@) =~= seq![]);
    assert(texts(root.args@) =~= seq![NIX_COLLECT_GARBAGE@]);
    add_gc_arguments(&mut user, cli, gc_args);
    add_gc_arguments(&mut root, cli, gc_args);
    assert(user@.args =~= gc_arguments(cli@, gc_args@));
    GcCommands { user, root }
}

/// The template reference: the collection alone, or `<collection>#<name>`.
pub open spec fn template_reference(template: Option<Seq<char>>) -> Seq<char> {
    match template {
        Some(name) => TEMPLATE_COLLECTION@ + "#"@ + name,
        None => TEMPLATE_COLLECTION@,
    }
}

/// The invocation that initialises a project from a template.
pub open spec fn init_command(cli: GlobalOptionsView, template: Option<Seq<char>>)
    -> CommandSpecView {
    CommandSpecView {
        program: NIX@,
        args: seq!["flake"@, "init"@] + verbose_flag(cli.verbose) + seq![
            "--template"@,
            template_reference(template),
        ],
        cwd: None,
    }
}

/// Synthesizes the initialisation of a project from a template.
pub fn command_init(cli: &GlobalOptions, template: &Option<String>) -> (r: CommandSpec)
    ensures
        r@ == init_command(cli@, opt_text(*template)),
{
    let mut args: Vec<String> = Vec::new();
    push_text(&mut args, "flake");
    push_text(&mut args, "init");
    if cli.verbose {
        push_text(&mut args, "--verbose");
    }
    let ghost head = texts(args@);
    assert(head =~= seq!["flake"@, "init"@] + verbose_flag(cli.verbose));
    push_text(&mut args, "--template");
    let template_arg = match template {
        Some(name) => TEMPLATE_COLLECTION.to_owned().concat("#").concat(name.as_str()),
        None => TEMPLATE_COLLECTION.to_owned(),
    };
    assert(template_arg@ == template_reference(opt_text(*template)));
    let ghost before = texts(args@);
    args.push(template_arg);
    assert(texts(args@) =~= before.push(template_reference(opt_text(*template))));
    assert(texts(args@) =~= head + seq!["--template"@, template_reference(opt_text(*template))]);
    CommandSpec { program: NIX.to_owned(), args, cwd: None }
}

/// The directory that a relative path of `edit` or `cd` starts from: the
/// resolved root, or none; a candidate that had to be valid and is not is
/// an error.
pub open spec fn base_directory_of(cli: GlobalOptionsView, lookup: RootLookupView) -> Result<
    Option<Seq<char>>,
    UniverseCliErrorView,
> {
    match lookup_root(cli, lookup) {
        Ok(root) => Ok(root),
        Err(e) => Err(UniverseCliErrorView::InvalidFlakeRoot(e)),
    }
}

/// The mathematical form of a base directory's outcome.
pub open spec fn base_result_view(r: Result<Option<String>, UniverseCliError>) -> Result<
    Option<Seq<char>>,
    UniverseCliErrorView,
> {
    match r {
        Ok(root) => Ok(opt_text(root)),
        Err(e) => Err(e@),
    }
}

/// Finds the directory that a relative path of `edit` or `cd` starts from.
pub fn base_directory(cli: &GlobalOptions, lookup: &RootLookup) -> (r: Result<
    Option<String>,
    UniverseCliError,
>)
    ensures
        base_result_view(r) == base_directory_of(cli@, lookup@),
{
    match find_flake_root(cli, &lookup.env_root, lookup.probe) {
        Ok(root) => Ok(root),
        Err(e) => Err(UniverseCliError::InvalidFlakeRoot(e)),
    }
}

/// The mathematical form of a printed directory's outcome.
pub open spec fn directory_result_view(r: Result<String, UniverseCliError>) -> Result<
    Seq<char>,
    UniverseCliErrorView,
> {
    match r {
        Ok(s) => Ok(s@),
        Err(e) => Err(e@),
    }
}

/// Decides what `cd` prints for a target: its canonical path if it is a
/// directory, and an error if it is none.
pub fn directory_to_print(target_is_dir: bool, canonical: String) -> (r: Result<
    String,
    UniverseCliError,
>)
    ensures
        directory_result_view(r) == (if target_is_dir {
            Ok::<Seq<char>, UniverseCliErrorView>(canonical@)
        } else {
            Err(UniverseCliErrorView::InvalidDirectory)
        }),
{
    if target_is_dir {
        Ok(canonical)
    } else {
        Err(UniverseCliError::InvalidDirectory)
    }
}

/// Maps how the child process ended to the operation's result: success
/// only if the child exited successfully.
pub fn exec_outcome(child_succeeded: bool) -> (r: Result<(), UniverseCliError>)
    ensures
        child_succeeded ==> r == Ok::<(), UniverseCliError>(()),
        !child_succeeded ==> r == Err::<(), UniverseCliError>(
            UniverseCliError::FailedToExecuteNix,
        ),
{
    if child_succeeded {
        Ok(())
    } else {
        Err(UniverseCliError::FailedToExecuteNix)
    }
}

} // verus!
