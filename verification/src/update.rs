//! Updating the lock file: all inputs, or the listed ones.

use vstd::prelude::*;
use vstd::string::*;
use crate::command::{
    command_result_view, nix_command, nix_command_if_found, on_search_path, verbose_flag,
    CommandSpec, CommandSpecView, RootLookup, RootLookupView, NIX,
};
use crate::helpers::{UniverseCliError, UniverseCliErrorView};
use crate::options::{GlobalOptions, GlobalOptionsView};
use crate::run::opt_texts;
use crate::text::{lemma_concat_contains, push_text, texts};

verus! {

/// One `--update-input <name>` pair for each listed input, in order.
pub open spec fn update_pairs(inputs: Seq<Seq<char>>) -> Seq<Seq<char>> {
    Seq::new(
        2 * inputs.len(),
        |i: int|
            if i % 2 == 0 {
                "--update-input"@
            } else {
                inputs[i / 2]
            },
    )
}

/// What follows the base invocation: with a list, a lock restricted to the
/// listed inputs; without one, the update of all inputs.
pub open spec fn update_args(inputs: Option<Seq<Seq<char>>>) -> Seq<Seq<char>> {
    match inputs {
        Some(list) => seq!["flake"@, "lock"@] + update_pairs(list),
        None => seq!["flake"@, "update"@],
    }
}

/// The update operation once the build tool was found.
pub open spec fn update_command(
    cli: GlobalOptionsView,
    inputs: Option<Seq<Seq<char>>>,
    lookup: RootLookupView,
) -> Result<CommandSpecView, UniverseCliErrorView> {
    match nix_command(cli, lookup) {
        Err(e) => Err(e),
        Ok(base) => Ok(
            CommandSpecView {
                program: base.program,
                args: base.args + update_args(inputs),
                cwd: base.cwd,
            },
        ),
    }
}

/// The items of a list, with `sep` between each two neighbours.
pub open spec fn joined(list: Seq<Seq<char>>, sep: Seq<char>) -> Seq<char>
    decreases list.len(),
{
    if list.len() == 0 {
        seq![]
    } else if list.len() == 1 {
        list[0]
    } else {
        joined(list.drop_last(), sep) + sep + list.last()
    }
}

/// The line that tells the user what is being updated.
pub open spec fn update_notice_text(inputs: Option<Seq<Seq<char>>>) -> Seq<char> {
    match inputs {
        Some(list) => "Updating inputs: "@ + joined(list, ", "@),
        None => "Updating all inputs"@,
    }
}

/// Builds the line that tells the user what is being updated: the listed
/// inputs, separated by a comma and a space, or that all are.
pub fn update_notice(inputs: &Option<Vec<String>>) -> (s: String)
    ensures
        s@ == update_notice_text(opt_texts(*inputs)),
{
    let list = match inputs {
        Some(list) => list,
        None => {
            return "Updating all inputs".to_owned();
        },
    };
    let mut out = "Updating inputs: ".to_owned();
    let mut i: usize = 0;
    assert(out@ =~= "Updating inputs: "@ + joined(texts(list@.subrange(0, 0)), ", "@));
    while i < list.len()
        invariant
            i <= list.len(),
            out@ == "Updating inputs: "@ + joined(texts(list@.subrange(0, i as int)), ", "@),
        decreases list.len() - i,
    {
        let ghost done = texts(list@.subrange(0, i as int));
        let ghost next = texts(list@.subrange(0, i + 1));
        assert(next.drop_last() =~= done);
        assert(next.last() == list@[i as int]@);
        if i > 0 {
            out.append(", ");
        }
        out.append(list[i].as_str());
        assert(out@ =~= "Updating inputs: "@ + joined(next, ", "@));
        i = i + 1;
    }
    assert(list@.subrange(0, i as int) =~= list@);
    out
}

fn push_update_pairs(v: &mut Vec<String>, inputs: &Vec<String>)
    ensures
        texts(final(v)@) == texts(old(v)@) + update_pairs(texts(inputs@)),
{
    let mut i: usize = 0;
    assert(texts(v@) =~= texts(old(v)@) + update_pairs(texts(inputs@.subrange(0, 0))));
    while i < inputs.len()
        invariant
            i <= inputs.len(),
            texts(v@) == texts(old(v)@) + update_pairs(texts(inputs@.subrange(0, i as int))),
        decreases inputs.len() - i,
    {
        let ghost before = update_pairs(texts(inputs@.subrange(0, i as int)));
        push_text(v, "--update-input");
        push_text(v, inputs[i].as_str());
        assert(update_pairs(texts(inputs@.subrange(0, i + 1))) =~= before.push(
            "--update-input"@,
        ).push(inputs@[i as int]@));
        assert(texts(v@) =~= texts(old(v)@) + update_pairs(
            texts(inputs@.subrange(0, i + 1)),
        ));
        i = i + 1;
    }
    assert(inputs@.subrange(0, i as int) =~= inputs@);
}

/// Synthesizes the update operation, given whether the build tool is on
/// the search path.
pub fn update_if_found(
    tool_found: bool,
    cli: &GlobalOptions,
    inputs: &Option<Vec<String>>,
    lookup: &RootLookup,
) -> (r: Result<CommandSpec, UniverseCliError>)
    ensures
        command_result_view(r) == (if tool_found {
            update_command(cli@, opt_texts(*inputs), lookup@)
        } else {
            Err(UniverseCliErrorView::CommandNotFound)
        }),
{
    let mut command = match nix_command_if_found(tool_found, cli, lookup) {
        Ok(c) => c,
        Err(e) => {
            return Err(e);
        },
    };
    let ghost base = texts(command.args@);
    let mut args = command.args;
    push_text(&mut args, "flake");
    match inputs {
        Some(list) => {
            push_text(&mut args, "lock");
            let ghost head = texts(args@);
            push_update_pairs(&mut args, list);
            assert(head =~= base + seq!["flake"@, "lock"@]);
            assert(texts(args@) =~= base + (seq!["flake"@, "lock"@] + update_pairs(
                texts(list@),
            )));
        },
        None => {
            push_text(&mut args, "update");
            assert(texts(args@) =~= base + seq!["flake"@, "update"@]);
        },
    }
    command.args = args;
    Ok(command)
}

/// Synthesizes the update operation after looking for the build tool on
/// the search path.
pub fn command_update(cli: &GlobalOptions, inputs: &Option<Vec<String>>, lookup: &RootLookup)
    -> (r: Result<CommandSpec, UniverseCliError>)
    ensures
        command_result_view(r) == Err::<CommandSpecView, UniverseCliErrorView>(
            UniverseCliErrorView::CommandNotFound,
        ) || command_result_view(r) == update_command(cli@, opt_texts(*inputs), lookup@),
{
    let found = on_search_path(NIX);
    update_if_found(found, cli, inputs, lookup)
}

/// With a list, the vector holds exactly one `--update-input <name>` pair
/// for each listed input, in order, behind `flake lock`, and the word
/// `update` stands in it only where an input has that name. Without a list,
/// the vector ends in `flake update` and holds no `--update-input`.
pub proof fn lemma_update_is_restricted_or_not(verbose: bool, inputs: Option<Seq<Seq<char>>>)
    ensures
        inputs matches Some(list) ==> {
            &&& verbose_flag(verbose) + update_args(inputs) == verbose_flag(verbose) + seq![
                "flake"@,
                "lock"@,
            ] + update_pairs(list)
            &&& update_pairs(list).len() == 2 * list.len()
            &&& forall|k: int|
                0 <= k < list.len() ==> #[trigger] update_pairs(list)[2 * k] == "--update-input"@
                    && update_pairs(list)[2 * k + 1] == list[k]
            &&& ((verbose_flag(verbose) + update_args(inputs)).contains("update"@)
                <==> list.contains("update"@))
        },
        inputs.is_none() ==> {
            &&& verbose_flag(verbose) + update_args(inputs) == verbose_flag(verbose) + seq![
                "flake"@,
                "update"@,
            ]
            &&& !(verbose_flag(verbose) + update_args(inputs)).contains("--update-input"@)
        },
{
    lemma_update_words();
    let update = "update"@;
    let flag = "--update-input"@;
    let base = verbose_flag(verbose);
    match inputs {
        Some(list) => {
            let head = seq!["flake"@, "lock"@];
            let pairs = update_pairs(list);
            assert(base + (head + pairs) =~= base + head + pairs);
            lemma_concat_contains(base, head, update);
            lemma_concat_contains(base + head, pairs, update);
            if pairs.contains(update) {
                let i = choose|i: int| 0 <= i < pairs.len() && pairs[i] == update;
                assert(i % 2 != 0);
                assert(list[i / 2] == update);
            }
            if list.contains(update) {
                let k = choose|k: int| 0 <= k < list.len() && list[k] == update;
                assert(pairs[2 * k + 1] == update);
            }
        },
        None => {
            lemma_concat_contains(base, seq!["flake"@, "update"@], flag);
        },
    }
}

proof fn lemma_update_words()
    ensures
        "update"@ != "--update-input"@,
        "update"@ != "flake"@,
        "update"@ != "lock"@,
        "update"@ != "--verbose"@,
        "--update-input"@ != "flake"@,
        "--update-input"@ != "--verbose"@,
{
    reveal_strlit("update");
    reveal_strlit("--update-input");
    reveal_strlit("flake");
    reveal_strlit("lock");
    reveal_strlit("--verbose");
    assert("update"@.len() == 6);
    assert("--update-input"@.len() == 14);
    assert("flake"@.len() == 5);
    assert("lock"@.len() == 4);
    assert("--verbose"@.len() == 9);
}

} // verus!
