//! The two rebuild operations: the passthrough, which hands the caller's raw
//! arguments to the rebuild tool, and the quick rebuild, which always
//! switches and maps a fixed set of options onto flags.

use vstd::prelude::*;
use vstd::string::*;
use crate::command::{
    command_result_view, lookup_root, on_search_path, rebuild_command,
    rebuild_command_if_found, rebuild_tool, verbose_flag, CommandSpec, CommandSpecView,
    RootLookup, RootLookupView,
};
use crate::flake_root::find_flake_root;
use crate::helpers::{UniverseCliError, UniverseCliErrorView};
use crate::options::{GlobalOptions, GlobalOptionsView};
use crate::probe::{CapabilityClass, Identity};
use crate::text::{
    append_texts, lemma_concat_assoc, lemma_concat_contains, opt_text, push_text, texts,
};

verus! {

/// Raw arguments that are handed to the rebuild tool as they are.
#[derive(Debug, Clone, PartialEq, Eq)]
pub struct RebuildArgs {
    pub args: Vec<String>,
}

impl View for RebuildArgs {
    type V = Seq<Seq<char>>;

    open spec fn view(&self) -> Seq<Seq<char>> {
        texts(self.args@)
    }
}

impl RebuildArgs {
    /// Wraps the raw arguments; they are kept in order and unchanged.
    pub fn new(args: Vec<String>) -> (r: RebuildArgs)
        ensures
            r@ == texts(args@),
    {
        RebuildArgs { args }
    }

    /// Builds the arguments from the raw values of the trailing positional
    /// argument: the values as given, or none where none were given.
    pub fn from_raw_values(trailing: Option<Vec<String>>) -> (r: RebuildArgs)
        ensures
            r@ == (match trailing {
                Some(t) => texts(t@),
                None => seq![],
            }),
    {
        match trailing {
            Some(args) => RebuildArgs { args },
            None => {
                let args: Vec<String> = Vec::new();
                assert(texts(args@) =~= seq![]);
                RebuildArgs { args }
            },
        }
    }
}

/// Options of the quick rebuild.
#[derive(Debug, Clone, PartialEq, Eq)]
pub struct QuickRebuildArgs {
    /// Profile name for the new configuration.
    pub profile_name: Option<String>,
    /// Specialisation to activate.
    pub specialisation: Option<String>,
    /// Flake reference to build; replaces the resolved root.
    pub flake: Option<String>,
    /// (Re)install the bootloader.
    pub install_bootloader: bool,
    /// Skip rebuilding the build tool itself.
    pub fast: bool,
    /// Show a trace on evaluation errors.
    pub show_trace: bool,
    /// Roll back to the previous configuration.
    pub rollback: bool,
    /// Do not reach for the network.
    pub offline: bool,
}

/// The mathematical form of [`QuickRebuildArgs`].
pub struct QuickRebuildArgsView {
    pub profile_name: Option<Seq<char>>,
    pub specialisation: Option<Seq<char>>,
    pub flake: Option<Seq<char>>,
    pub install_bootloader: bool,
    pub fast: bool,
    pub show_trace: bool,
    pub rollback: bool,
    pub offline: bool,
}

impl View for QuickRebuildArgs {
    type V = QuickRebuildArgsView;

    open spec fn view(&self) -> QuickRebuildArgsView {
        QuickRebuildArgsView {
            profile_name: opt_text(self.profile_name),
            specialisation: opt_text(self.specialisation),
            flake: opt_text(self.flake),
            install_bootloader: self.install_bootloader,
            fast: self.fast,
            show_trace: self.show_trace,
            rollback: self.rollback,
            offline: self.offline,
        }
    }
}

/// `--flake` and the reference, if there is one.
pub open spec fn flake_part(target: Option<Seq<char>>) -> Seq<Seq<char>> {
    match target {
        Some(t) => seq!["--flake"@, t],
        None => seq![],
    }
}

/// The flag alone if `on`, else nothing.
pub open spec fn flag_if(on: bool, flag: Seq<char>) -> Seq<Seq<char>> {
    if on {
        seq![flag]
    } else {
        seq![]
    }
}

/// The flag and the value if there is a value, else nothing.
pub open spec fn option_if(value: Option<Seq<char>>, flag: Seq<char>) -> Seq<Seq<char>> {
    match value {
        Some(v) => seq![flag, v],
        None => seq![],
    }
}

/// A root qualified by user and host: `<root>#<user>@<host>`.
pub open spec fn qualified_root(root: Seq<char>, user: Seq<char>, host: Seq<char>) -> Seq<char> {
    root + "#"@ + user + "@"@ + host
}

/// The flake reference of a quick rebuild: the explicit one wins; else the
/// root, bare on a full-system host and qualified on a user-level host; none
/// if there is neither.
pub open spec fn flake_target(
    flake: Option<Seq<char>>,
    root: Option<Seq<char>>,
    class: CapabilityClass,
    user: Seq<char>,
    host: Seq<char>,
) -> Option<Seq<char>> {
    match flake {
        Some(f) => Some(f),
        None => match root {
            Some(r) => Some(
                match class {
                    CapabilityClass::FullSystem => r,
                    CapabilityClass::UserLevel => qualified_root(r, user, host),
                },
            ),
            None => None,
        },
    }
}

/// The trace flag together with the flag that disables the evaluation cache,
/// or neither.
pub open spec fn trace_part(show_trace: bool) -> Seq<Seq<char>> {
    if show_trace {
        seq!["--show-trace"@, "--no-eval-cache"@]
    } else {
        seq![]
    }
}

/// The flags that only the full-system rebuild tool understands, for the
/// options that ask for them.
pub open spec fn system_only_part(args: QuickRebuildArgsView) -> Seq<Seq<char>> {
    flag_if(args.fast, "--fast"@) + flag_if(args.install_bootloader, "--install-bootloader"@)
        + flag_if(args.rollback, "--rollback"@) + flag_if(args.offline, "--offline"@) + option_if(
        args.specialisation,
        "--specialisation"@,
    ) + option_if(args.profile_name, "--profile-name"@)
}

/// The part of the vector that depends on the capability class.
pub open spec fn class_part(args: QuickRebuildArgsView, class: CapabilityClass) -> Seq<
    Seq<char>,
> {
    match class {
        CapabilityClass::FullSystem => system_only_part(args),
        CapabilityClass::UserLevel => seq![],
    }
}

/// The argument vector of a quick rebuild with the given flake reference.
pub open spec fn quick_rebuild_args(
    cli: GlobalOptionsView,
    args: QuickRebuildArgsView,
    target: Option<Seq<char>>,
    class: CapabilityClass,
) -> Seq<Seq<char>> {
    rebuild_command(cli, class).args + flake_part(target) + seq!["switch"@] + trace_part(
        args.show_trace,
    ) + class_part(args, class)
}

/// The quick rebuild once the rebuild tool was found. The root is resolved
/// only where no explicit flake reference is given, so only then can a bad
/// candidate fail the operation.
pub open spec fn quick_rebuild_command(
    cli: GlobalOptionsView,
    args: QuickRebuildArgsView,
    lookup: RootLookupView,
    class: CapabilityClass,
    user: Seq<char>,
    host: Seq<char>,
) -> Result<CommandSpecView, UniverseCliErrorView> {
    let root = if args.flake.is_some() {
        Ok(None)
    } else {
        lookup_root(cli, lookup)
    };
    match root {
        Err(e) => Err(UniverseCliErrorView::InvalidFlakeRoot(e)),
        Ok(root) => Ok(
            CommandSpecView {
                program: rebuild_command(cli, class).program,
                args: quick_rebuild_args(
                    cli,
                    args,
                    flake_target(args.flake, root, class, user, host),
                    class,
                ),
                cwd: None,
            },
        ),
    }
}

/// The passthrough rebuild once the rebuild tool was found: the base
/// invocation, `--flake <root>` if a root resolved, then the raw arguments.
pub open spec fn passthrough_rebuild_command(
    cli: GlobalOptionsView,
    raw: Seq<Seq<char>>,
    lookup: RootLookupView,
    class: CapabilityClass,
) -> Result<CommandSpecView, UniverseCliErrorView> {
    match lookup_root(cli, lookup) {
        Err(e) => Err(UniverseCliErrorView::InvalidFlakeRoot(e)),
        Ok(root) => Ok(
            CommandSpecView {
                program: rebuild_command(cli, class).program,
                args: rebuild_command(cli, class).args + flake_part(root) + raw,
                cwd: None,
            },
        ),
    }
}

/// True of the flags that only the full-system rebuild tool understands.
pub open spec fn is_system_only_flag(s: Seq<char>) -> bool {
    s == "--fast"@ || s == "--install-bootloader"@ || s == "--rollback"@ || s == "--offline"@ || s
        == "--specialisation"@ || s == "--profile-name"@
}

/// True of the words that a quick rebuild emits on every host: the base
/// flags, `--flake`, the action and the two trace flags.
spec fn is_common_word(s: Seq<char>) -> bool {
    s == "--use-remote-sudo"@ || s == "--verbose"@ || s == "--flake"@ || s == "switch"@ || s
        == "--show-trace"@ || s == "--no-eval-cache"@
}

proof fn lemma_word_lengths()
    ensures
        "--fast"@.len() == 6,
        "--install-bootloader"@.len() == 20,
        "--rollback"@.len() == 10,
        "--offline"@.len() == 9,
        "--specialisation"@.len() == 16,
        "--profile-name"@.len() == 14,
        "--use-remote-sudo"@.len() == 17,
        "--verbose"@.len() == 9,
        "--flake"@.len() == 7,
        "switch"@.len() == 6,
        "--show-trace"@.len() == 12,
        "--no-eval-cache"@.len() == 15,
        "--fast"@[0] == '-',
        "switch"@[0] == 's',
        "--offline"@[2] == 'o',
        "--verbose"@[2] == 'v',
{
    reveal_strlit("--fast");
    reveal_strlit("--install-bootloader");
    reveal_strlit("--rollback");
    reveal_strlit("--offline");
    reveal_strlit("--specialisation");
    reveal_strlit("--profile-name");
    reveal_strlit("--use-remote-sudo");
    reveal_strlit("--verbose");
    reveal_strlit("--flake");
    reveal_strlit("switch");
    reveal_strlit("--show-trace");
    reveal_strlit("--no-eval-cache");
}

proof fn lemma_words_differ()
    ensures
        forall|s: Seq<char>| is_system_only_flag(s) ==> !is_common_word(s),
        !is_system_only_flag("--no-eval-cache"@),
        "--no-eval-cache"@ != "--use-remote-sudo"@,
        "--no-eval-cache"@ != "--verbose"@,
        "--no-eval-cache"@ != "--flake"@,
        "--no-eval-cache"@ != "switch"@,
        "--no-eval-cache"@ != "--show-trace"@,
{
    lemma_word_lengths();
}

proof fn lemma_common_parts_hold_common_words(
    cli: GlobalOptionsView,
    args: QuickRebuildArgsView,
    target: Option<Seq<char>>,
    class: CapabilityClass,
    x: Seq<char>,
)
    ensures
        quick_rebuild_args(cli, args, target, class).contains(x) <==> (rebuild_command(
            cli,
            class,
        ).args.contains(x) || flake_part(target).contains(x) || x == "switch"@ || trace_part(
            args.show_trace,
        ).contains(x) || class_part(args, class).contains(x)),
        rebuild_command(cli, class).args.contains(x) ==> is_common_word(x),
        flake_part(target).contains(x) <==> target.is_some() && (x == "--flake"@ || target
            == Some(x)),
        trace_part(args.show_trace).contains(x) <==> args.show_trace && (x == "--show-trace"@ || x
            == "--no-eval-cache"@),
{
    let a = rebuild_command(cli, class).args;
    let b = flake_part(target);
    let c = seq!["switch"@];
    let d = trace_part(args.show_trace);
    let e = class_part(args, class);
    lemma_concat_contains(a, b, x);
    lemma_concat_contains(a + b, c, x);
    lemma_concat_contains(a + b + c, d, x);
    lemma_concat_contains(a + b + c + d, e, x);
    assert(c.contains(x) <==> x == "switch"@) by {
        assert(c[0] == "switch"@);
    }
    lemma_concat_contains(seq!["--use-remote-sudo"@], verbose_flag(cli.verbose), x);
    if target.is_some() {
        assert(b[0] == "--flake"@);
        assert(b[1] == target.unwrap());
    }
    if args.show_trace {
        assert(d[0] == "--show-trace"@);
        assert(d[1] == "--no-eval-cache"@);
    }
}

/// On a user-level host no flag of the full-system set is emitted, whatever
/// options ask for one: such a word stands in the vector only where the
/// flake reference itself is that word.
pub proof fn lemma_user_level_emits_no_system_flag(
    cli: GlobalOptionsView,
    args: QuickRebuildArgsView,
    target: Option<Seq<char>>,
    flag: Seq<char>,
)
    requires
        is_system_only_flag(flag),
    ensures
        quick_rebuild_args(cli, args, target, CapabilityClass::UserLevel).contains(flag)
            <==> target == Some(flag),
{
    lemma_words_differ();
    lemma_common_parts_hold_common_words(cli, args, target, CapabilityClass::UserLevel, flag);
    assert(!is_common_word(flag));
    assert(!class_part(args, CapabilityClass::UserLevel).contains(flag));
}

/// A root qualified by user and host is none of the full-system flags and
/// not the flag that disables the evaluation cache.
pub proof fn lemma_qualified_root_is_no_flag(root: Seq<char>, user: Seq<char>, host: Seq<char>)
    ensures
        !is_system_only_flag(qualified_root(root, user, host)),
        qualified_root(root, user, host) != "--no-eval-cache"@,
{
    reveal_strlit("--fast");
    reveal_strlit("--install-bootloader");
    reveal_strlit("--rollback");
    reveal_strlit("--offline");
    reveal_strlit("--specialisation");
    reveal_strlit("--profile-name");
    reveal_strlit("--no-eval-cache");
    reveal_strlit("#");
    reveal_strlit("@");
    let q = qualified_root(root, user, host);
    let k = root.len() as int;
    assert(q[k] == '#');
    assert forall|s: Seq<char>, j: int|
        (is_system_only_flag(s) || s == "--no-eval-cache"@) && 0 <= j < s.len() implies #[trigger] s[j]
        != '#' by {}
}

/// On a user-level host, a quick rebuild without an explicit flake
/// reference holds none of the full-system flags, whatever was asked for.
pub proof fn lemma_user_level_rebuild_is_flag_free(
    cli: GlobalOptionsView,
    args: QuickRebuildArgsView,
    lookup: RootLookupView,
    user: Seq<char>,
    host: Seq<char>,
    flag: Seq<char>,
)
    requires
        is_system_only_flag(flag),
        args.flake.is_none(),
    ensures
        quick_rebuild_command(cli, args, lookup, CapabilityClass::UserLevel, user, host)
            matches Ok(c) ==> !c.args.contains(flag),
{
    match lookup_root(cli, lookup) {
        Ok(root) => {
            let target = flake_target(args.flake, root, CapabilityClass::UserLevel, user, host);
            lemma_user_level_emits_no_system_flag(cli, args, target, flag);
            if let Some(r) = root {
                lemma_qualified_root_is_no_flag(r, user, host);
            }
        },
        Err(_) => {},
    }
}

/// The trace flag and the flag that disables the evaluation cache go
/// together. When a trace is asked for, both are in the vector, the second
/// right behind the first. When none is asked for, the cache flag is
/// emitted nowhere: that word stands in the vector only where the flake
/// reference, the specialisation or the profile name is that word.
pub proof fn lemma_trace_disables_cache(
    cli: GlobalOptionsView,
    args: QuickRebuildArgsView,
    target: Option<Seq<char>>,
    class: CapabilityClass,
)
    ensures
        args.show_trace ==> exists|i: int|
            0 <= i && i + 1 < quick_rebuild_args(cli, args, target, class).len()
                && #[trigger] quick_rebuild_args(cli, args, target, class)[i] == "--show-trace"@
                && quick_rebuild_args(cli, args, target, class)[i + 1] == "--no-eval-cache"@,
        args.show_trace ==> quick_rebuild_args(cli, args, target, class).contains(
            "--show-trace"@,
        ) && quick_rebuild_args(cli, args, target, class).contains("--no-eval-cache"@),
        !args.show_trace ==> (quick_rebuild_args(cli, args, target, class).contains(
            "--no-eval-cache"@,
        ) <==> (target == Some("--no-eval-cache"@) || (class == CapabilityClass::FullSystem && (
        args.specialisation == Some("--no-eval-cache"@) || args.profile_name == Some(
            "--no-eval-cache"@,
        ))))),
{
    let cache = "--no-eval-cache"@;
    let v = quick_rebuild_args(cli, args, target, class);
    lemma_words_differ();
    lemma_common_parts_hold_common_words(cli, args, target, class, cache);
    lemma_common_parts_hold_common_words(cli, args, target, class, "--show-trace"@);
    if args.show_trace {
        let head = rebuild_command(cli, class).args + flake_part(target) + seq!["switch"@];
        let i = head.len() as int;
        assert(trace_part(args.show_trace)[0] == "--show-trace"@);
        assert(trace_part(args.show_trace)[1] == "--no-eval-cache"@);
        assert(v[i] == "--show-trace"@);
        assert(v[i + 1] == "--no-eval-cache"@);
    } else {
        lemma_base_lacks_cache_flag(cli, class);
        lemma_system_part_holds(args, cache);
    }
}

proof fn lemma_base_lacks_cache_flag(cli: GlobalOptionsView, class: CapabilityClass)
    ensures
        !rebuild_command(cli, class).args.contains("--no-eval-cache"@),
{
    lemma_words_differ();
    lemma_concat_contains(
        seq!["--use-remote-sudo"@],
        verbose_flag(cli.verbose),
        "--no-eval-cache"@,
    );
}

proof fn lemma_system_part_holds(args: QuickRebuildArgsView, x: Seq<char>)
    ensures
        system_only_part(args).contains(x) <==> (args.fast && x == "--fast"@)
            || (args.install_bootloader && x == "--install-bootloader"@) || (args.rollback && x
            == "--rollback"@) || (args.offline && x == "--offline"@) || (
        args.specialisation.is_some() && (x == "--specialisation"@ || args.specialisation
            == Some(x))) || (args.profile_name.is_some() && (x == "--profile-name"@
            || args.profile_name == Some(x))),
{
    let a = flag_if(args.fast, "--fast"@);
    let b = flag_if(args.install_bootloader, "--install-bootloader"@);
    let c = flag_if(args.rollback, "--rollback"@);
    let d = flag_if(args.offline, "--offline"@);
    let e = option_if(args.specialisation, "--specialisation"@);
    let f = option_if(args.profile_name, "--profile-name"@);
    lemma_concat_contains(a, b, x);
    lemma_concat_contains(a + b, c, x);
    lemma_concat_contains(a + b + c, d, x);
    lemma_concat_contains(a + b + c + d, e, x);
    lemma_concat_contains(a + b + c + d + e, f, x);
    lemma_flag_if_holds(args.fast, "--fast"@, x);
    lemma_flag_if_holds(args.install_bootloader, "--install-bootloader"@, x);
    lemma_flag_if_holds(args.rollback, "--rollback"@, x);
    lemma_flag_if_holds(args.offline, "--offline"@, x);
    lemma_option_if_holds(args.specialisation, "--specialisation"@, x);
    lemma_option_if_holds(args.profile_name, "--profile-name"@, x);
}

proof fn lemma_flag_if_holds(on: bool, flag: Seq<char>, x: Seq<char>)
    ensures
        flag_if(on, flag).contains(x) <==> on && x == flag,
{
    if on {
        assert(flag_if(on, flag)[0] == flag);
    }
}

proof fn lemma_option_if_holds(value: Option<Seq<char>>, flag: Seq<char>, x: Seq<char>)
    ensures
        option_if(value, flag).contains(x) <==> value.is_some() && (x == flag || value == Some(
            x,
        )),
{
    if value.is_some() {
        assert(option_if(value, flag)[0] == flag);
        assert(option_if(value, flag)[1] == value.unwrap());
    }
}

fn push_flag_if(v: &mut Vec<String>, on: bool, flag: &str)
    ensures
        texts(final(v)@) == texts(old(v)@) + flag_if(on, flag@),
{
    if on {
        push_text(v, flag);
    }
    assert(texts(v@) =~= texts(old(v)@) + flag_if(on, flag@));
}

fn push_option_if(v: &mut Vec<String>, value: &Option<String>, flag: &str)
    ensures
        texts(final(v)@) == texts(old(v)@) + option_if(opt_text(*value), flag@),
{
    if let Some(x) = value {
        push_text(v, flag);
        push_text(v, x.as_str());
    }
    assert(texts(v@) =~= texts(old(v)@) + option_if(opt_text(*value), flag@));
}

fn push_trace_part(v: &mut Vec<String>, show_trace: bool)
    ensures
        texts(final(v)@) == texts(old(v)@) + trace_part(show_trace),
{
    if show_trace {
        push_text(v, "--show-trace");
        push_text(v, "--no-eval-cache");
    }
    assert(texts(v@) =~= texts(old(v)@) + trace_part(show_trace));
}

fn push_system_only_part(v: &mut Vec<String>, args: &QuickRebuildArgs)
    ensures
        texts(final(v)@) == texts(old(v)@) + system_only_part(args@),
{
    let ghost start = texts(v@);
    push_flag_if(v, args.fast, "--fast");
    push_flag_if(v, args.install_bootloader, "--install-bootloader");
    push_flag_if(v, args.rollback, "--rollback");
    push_flag_if(v, args.offline, "--offline");
    push_option_if(v, &args.specialisation, "--specialisation");
    push_option_if(v, &args.profile_name, "--profile-name");
    proof {
        let a = flag_if(args.fast, "--fast"@);
        let b = flag_if(args.install_bootloader, "--install-bootloader"@);
        let c = flag_if(args.rollback, "--rollback"@);
        let d = flag_if(args.offline, "--offline"@);
        let e = option_if(opt_text(args.specialisation), "--specialisation"@);
        let f = option_if(opt_text(args.profile_name), "--profile-name"@);
        lemma_concat_assoc(start, a, b);
        lemma_concat_assoc(start, a + b, c);
        lemma_concat_assoc(start, a + b + c, d);
        lemma_concat_assoc(start, a + b + c + d, e);
        lemma_concat_assoc(start, a + b + c + d + e, f);
    }
}

fn push_class_part(v: &mut Vec<String>, args: &QuickRebuildArgs, class: CapabilityClass)
    ensures
        texts(final(v)@) == texts(old(v)@) + class_part(args@, class),
{
    if class.is_full_system() {
        push_system_only_part(v, args);
    }
    assert(texts(v@) =~= texts(old(v)@) + class_part(args@, class));
}

/// Builds `<root>#<user>@<host>`.
pub fn qualify_root(root: &str, identity: &Identity) -> (q: String)
    ensures
        q@ == qualified_root(root@, identity.user@, identity.host@),
{
    root.to_owned().concat("#").concat(identity.user.as_str()).concat("@").concat(
        identity.host.as_str(),
    )
}

/// Chooses the flake reference of a quick rebuild.
pub fn choose_flake_target(
    flake: &Option<String>,
    root: &Option<String>,
    class: CapabilityClass,
    identity: &Identity,
) -> (t: Option<String>)
    ensures
        opt_text(t) == flake_target(
            opt_text(*flake),
            opt_text(*root),
            class,
            identity.user@,
            identity.host@,
        ),
{
    match flake {
        Some(f) => Some(f.clone()),
        None => match root {
            Some(r) => match class {
                CapabilityClass::FullSystem => Some(r.clone()),
                CapabilityClass::UserLevel => Some(qualify_root(r.as_str(), identity)),
            },
            None => None,
        },
    }
}

/// Synthesizes the passthrough rebuild, given whether the rebuild tool is
/// on the search path. The raw arguments end the vector, in order and
/// unchanged.
pub fn rebuild_if_found(
    tool_found: bool,
    cli: &GlobalOptions,
    rebuild_args: &RebuildArgs,
    lookup: &RootLookup,
    class: CapabilityClass,
) -> (r: Result<CommandSpec, UniverseCliError>)
    ensures
        command_result_view(r) == (if tool_found {
            passthrough_rebuild_command(cli@, rebuild_args@, lookup@, class)
        } else {
            Err(UniverseCliErrorView::CommandNotFound)
        }),
{
    let mut command = match rebuild_command_if_found(tool_found, cli, class) {
        Ok(c) => c,
        Err(e) => {
            return Err(e);
        },
    };
    let root = match find_flake_root(cli, &lookup.env_root, lookup.probe) {
        Ok(root) => root,
        Err(e) => {
            return Err(UniverseCliError::InvalidFlakeRoot(e));
        },
    };
    let mut args = command.args;
    push_option_if(&mut args, &root, "--flake");
    append_texts(&mut args, &rebuild_args.args);
    command.args = args;
    Ok(command)
}

/// Synthesizes the passthrough rebuild after looking for the rebuild tool
/// of the capability class on the search path.
pub fn command_rebuild(
    cli: &GlobalOptions,
    rebuild_args: &RebuildArgs,
    lookup: &RootLookup,
    class: CapabilityClass,
) -> (r: Result<CommandSpec, UniverseCliError>)
    ensures
        command_result_view(r) == Err::<CommandSpecView, UniverseCliErrorView>(
            UniverseCliErrorView::CommandNotFound,
        ) || command_result_view(r) == passthrough_rebuild_command(
            cli@,
            rebuild_args@,
            lookup@,
            class,
        ),
{
    let found = on_search_path(rebuild_tool(class));
    rebuild_if_found(found, cli, rebuild_args, lookup, class)
}

/// Synthesizes the quick rebuild, given whether the rebuild tool is on the
/// search path.
pub fn quick_rebuild_if_found(
    tool_found: bool,
    cli: &GlobalOptions,
    rebuild_args: &QuickRebuildArgs,
    lookup: &RootLookup,
    class: CapabilityClass,
    identity: &Identity,
) -> (r: Result<CommandSpec, UniverseCliError>)
    ensures
        command_result_view(r) == (if tool_found {
            quick_rebuild_command(
                cli@,
                rebuild_args@,
                lookup@,
                class,
                identity.user@,
                identity.host@,
            )
        } else {
            Err(UniverseCliErrorView::CommandNotFound)
        }),
{
    let mut command = match rebuild_command_if_found(tool_found, cli, class) {
        Ok(c) => c,
        Err(e) => {
            return Err(e);
        },
    };
    let root = if rebuild_args.flake.is_some() {
        None
    } else {
        match find_flake_root(cli, &lookup.env_root, lookup.probe) {
            Ok(root) => root,
            Err(e) => {
                return Err(UniverseCliError::InvalidFlakeRoot(e));
            },
        }
    };
    let target = choose_flake_target(&rebuild_args.flake, &root, class, identity);
    let mut args = command.args;
    push_option_if(&mut args, &target, "--flake");
    push_text(&mut args, "switch");
    assert(texts(args@) =~= rebuild_command(cli@, class).args + flake_part(opt_text(target))
        + seq!["switch"@]);
    push_trace_part(&mut args, rebuild_args.show_trace);
    push_class_part(&mut args, rebuild_args, class);
    command.args = args;
    Ok(command)
}

/// Synthesizes the quick rebuild after looking for the rebuild tool of the
/// capability class on the search path.
pub fn command_quick_rebuild(
    cli: &GlobalOptions,
    rebuild_args: &QuickRebuildArgs,
    lookup: &RootLookup,
    class: CapabilityClass,
    identity: &Identity,
) -> (r: Result<CommandSpec, UniverseCliError>)
    ensures
        command_result_view(r) == Err::<CommandSpecView, UniverseCliErrorView>(
            UniverseCliErrorView::CommandNotFound,
        ) || command_result_view(r) == quick_rebuild_command(
            cli@,
            rebuild_args@,
            lookup@,
            class,
            identity.user@,
            identity.host@,
        ),
{
    let found = on_search_path(rebuild_tool(class));
    quick_rebuild_if_found(found, cli, rebuild_args, lookup, class, identity)
}

} // verus!
