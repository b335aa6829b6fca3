use universe_cli::command::{CommandSpec, RootLookup};
use universe_cli::dispatch::{
    dispatch, dispatch_if_found, needs_identity, required_tool, Commands, Host, Plan,
};
use universe_cli::flake_root::PathProbe;
use universe_cli::helpers::{CliExit, FlakeRootError, UniverseCliError};
use universe_cli::misc::{
    add_gc_arguments, base_directory, command_gc, command_init, directory_to_print,
    exec_outcome, GcArgs,
};
use universe_cli::options::GlobalOptions;
use universe_cli::probe::{CapabilityClass, Identity};
use universe_cli::rebuild::{QuickRebuildArgs, RebuildArgs};
use universe_cli::run::RunArgs;

fn list(v: &[&str]) -> Vec<String> {
    v.iter().map(|s| s.to_string()).collect()
}

fn host(class: CapabilityClass, is_dir: bool, has_marker: bool) -> Host {
    Host {
        class,
        lookup: RootLookup { env_root: None, probe: PathProbe { is_dir, has_marker } },
        identity: Identity { user: "alice".to_string(), host: "box".to_string() },
    }
}

fn options(root: Option<&str>) -> GlobalOptions {
    GlobalOptions::new(root.map(|s| s.to_string()), false, false)
}

fn quick(flake: Option<&str>) -> QuickRebuildArgs {
    QuickRebuildArgs {
        profile_name: None,
        specialisation: None,
        flake: flake.map(|s| s.to_string()),
        install_bootloader: false,
        fast: false,
        show_trace: false,
        rollback: false,
        offline: false,
    }
}

#[test]
fn error_messages() {
    assert_eq!(UniverseCliError::CommandNotFound.message(), "failed to execute nix: command not found");
    assert_eq!(
        UniverseCliError::InvalidFlakeRoot(FlakeRootError::PathDoesNotExist).message(),
        "invalid flake root: path does not exist"
    );
    assert_eq!(
        UniverseCliError::InvalidFlakeRoot(FlakeRootError::MissingFlakeDotNix).message(),
        "invalid flake root: flake.nix not found"
    );
    assert_eq!(UniverseCliError::FlakeRootMissing.message(), "no flake root specified or detected");
    assert_eq!(UniverseCliError::IoError("permission denied".to_string()).message(), "io error: permission denied");
    assert_eq!(UniverseCliError::FailedToExecuteNix.message(), "failed to execute nix");
    assert_eq!(UniverseCliError::InvalidDirectory.message(), "invalid directory");
    assert_eq!(FlakeRootError::PathDoesNotExist.message(), "path does not exist");
    assert_eq!(FlakeRootError::MissingFlakeDotNix.message(), "flake.nix not found");
}

#[test]
fn flake_root_error_converts() {
    let e: UniverseCliError = FlakeRootError::MissingFlakeDotNix.into();
    assert_eq!(e, UniverseCliError::InvalidFlakeRoot(FlakeRootError::MissingFlakeDotNix));
}

#[test]
fn exit_reports_one_line_on_failure() {
    let ok: CliExit = Ok(()).into();
    assert_eq!(ok, CliExit::Success);
    assert_eq!(ok.exit_code(), 0);
    assert_eq!(ok.diagnostic(), None);
    let failed: CliExit = Err(UniverseCliError::FlakeRootMissing).into();
    assert_eq!(failed, CliExit::Failure(UniverseCliError::FlakeRootMissing));
    assert_eq!(failed.exit_code(), 1);
    assert_eq!(failed.diagnostic(), Some("error: no flake root specified or detected".to_string()));
}

#[test]
fn child_exit_maps_to_result() {
    assert_eq!(exec_outcome(true), Ok(()));
    assert_eq!(exec_outcome(false), Err(UniverseCliError::FailedToExecuteNix));
}

#[test]
fn gc_arguments_follow_options() {
    let all = GcArgs { delete_old: true, delete_older_than: Some("30d".to_string()), dry_run: true };
    let both = GlobalOptions::new(None, true, true);
    let mut c = CommandSpec { program: "x".to_string(), args: list(&["first"]), cwd: Some("/w".to_string()) };
    add_gc_arguments(&mut c, &both, &all);
    assert_eq!(c.program, "x");
    assert_eq!(c.cwd, Some("/w".to_string()));
    assert_eq!(
        c.args,
        list(&["first", "--quiet", "--delete-old", "--dry-run", "--delete-older-than", "30d"])
    );

    let none = GcArgs { delete_old: false, delete_older_than: None, dry_run: false };
    let mut c = CommandSpec { program: "x".to_string(), args: vec![], cwd: None };
    add_gc_arguments(&mut c, &options(None), &none);
    assert_eq!(c.args, Vec::<String>::new());

    let verbose = GlobalOptions::new(None, true, false);
    let mut c = CommandSpec { program: "x".to_string(), args: vec![], cwd: None };
    add_gc_arguments(&mut c, &verbose, &none);
    assert_eq!(c.args, list(&["--verbose"]));
}

#[test]
fn gc_runs_for_user_and_superuser() {
    let gc = GcArgs { delete_old: true, delete_older_than: None, dry_run: false };
    let both = command_gc(&options(None), &gc);
    assert_eq!(
        both.user,
        CommandSpec { program: "nix-collect-garbage".to_string(), args: list(&["--delete-old"]), cwd: None }
    );
    assert_eq!(
        both.root,
        CommandSpec { program: "sudo".to_string(), args: list(&["nix-collect-garbage", "--delete-old"]), cwd: None }
    );
}

#[test]
fn init_names_the_template() {
    let verbose = GlobalOptions::new(None, true, false);
    assert_eq!(
        command_init(&verbose, &Some("rust".to_string())),
        CommandSpec {
            program: "nix".to_string(),
            args: list(&["flake", "init", "--verbose", "--template", "universe#rust"]),
            cwd: None,
        }
    );
    assert_eq!(
        command_init(&options(None), &None).args,
        list(&["flake", "init", "--template", "universe"])
    );
}

#[test]
fn base_directory_is_the_resolved_root() {
    let h = host(CapabilityClass::FullSystem, true, true);
    assert_eq!(base_directory(&options(Some("/cfg")), &h.lookup), Ok(Some("/cfg".to_string())));
    let h = host(CapabilityClass::FullSystem, false, false);
    assert_eq!(base_directory(&options(None), &h.lookup), Ok(None));
    assert_eq!(
        base_directory(&options(Some("/cfg")), &h.lookup),
        Err(UniverseCliError::InvalidFlakeRoot(FlakeRootError::PathDoesNotExist))
    );
}

#[test]
fn printed_directory_must_be_a_directory() {
    assert_eq!(directory_to_print(true, "/cfg/hosts".to_string()), Ok("/cfg/hosts".to_string()));
    assert_eq!(directory_to_print(false, "/cfg/hosts".to_string()), Err(UniverseCliError::InvalidDirectory));
}

#[test]
fn dispatch_plans_each_operation() {
    let cli = options(Some("/cfg"));
    let h = host(CapabilityClass::FullSystem, true, true);

    let p = dispatch_if_found(true, &cli, &Commands::Update { inputs: None }, &h).unwrap();
    assert_eq!(
        p,
        Plan::Spawn(CommandSpec {
            program: "nix".to_string(),
            args: list(&["flake", "update"]),
            cwd: Some("/cfg".to_string()),
        })
    );

    let p = dispatch_if_found(true, &cli, &Commands::Rebuild { rebuild_args: RebuildArgs::new(list(&["boot"])) }, &h)
        .unwrap();
    assert_eq!(
        p,
        Plan::Spawn(CommandSpec {
            program: "nixos-rebuild".to_string(),
            args: list(&["--use-remote-sudo", "--flake", "/cfg", "boot"]),
            cwd: None,
        })
    );

    let run = Commands::Run { run_args: RunArgs::new("deploy".to_string(), vec![]) };
    let p = dispatch_if_found(true, &cli, &run, &h).unwrap();
    assert_eq!(
        p,
        Plan::Spawn(CommandSpec {
            program: "nix".to_string(),
            args: list(&["run", "/cfg#deploy"]),
            cwd: Some("/cfg".to_string()),
        })
    );

    let p = dispatch_if_found(true, &cli, &Commands::B { rebuild_args: quick(None) }, &h).unwrap();
    assert_eq!(
        p,
        Plan::Spawn(CommandSpec {
            program: "nixos-rebuild".to_string(),
            args: list(&["--use-remote-sudo", "--flake", "/cfg", "switch"]),
            cwd: None,
        })
    );

    let p = dispatch_if_found(true, &cli, &Commands::Edit { path: "flake.nix".to_string() }, &h).unwrap();
    assert_eq!(p, Plan::Edit { base: Some("/cfg".to_string()), path: "flake.nix".to_string() });

    let p = dispatch_if_found(true, &cli, &Commands::Cd { path: Some("hosts".to_string()) }, &h).unwrap();
    assert_eq!(p, Plan::PrintDirectory { base: "/cfg".to_string(), path: Some("hosts".to_string()) });
}

#[test]
fn dispatch_without_root() {
    let cli = options(None);
    let h = host(CapabilityClass::UserLevel, false, false);
    assert_eq!(dispatch_if_found(true, &cli, &Commands::Cd { path: None }, &h), Ok(Plan::Nothing));
    assert_eq!(
        dispatch_if_found(true, &cli, &Commands::Edit { path: "a".to_string() }, &h),
        Ok(Plan::Edit { base: None, path: "a".to_string() })
    );
    let run = Commands::Run { run_args: RunArgs::new("deploy".to_string(), vec![]) };
    assert_eq!(dispatch_if_found(true, &cli, &run, &h), Err(UniverseCliError::FlakeRootMissing));
    assert_eq!(dispatch_if_found(false, &cli, &run, &h), Err(UniverseCliError::CommandNotFound));
}

#[test]
fn operations_without_a_tool_ignore_the_search_path() {
    let cli = options(None);
    let h = host(CapabilityClass::UserLevel, false, false);
    let gc = Commands::Gc { gc_args: GcArgs { delete_old: false, delete_older_than: None, dry_run: true } };
    let expected = Plan::SpawnBoth(
        CommandSpec { program: "nix-collect-garbage".to_string(), args: list(&["--dry-run"]), cwd: None },
        CommandSpec { program: "sudo".to_string(), args: list(&["nix-collect-garbage", "--dry-run"]), cwd: None },
    );
    assert_eq!(dispatch_if_found(false, &cli, &gc, &h), Ok(expected.clone()));
    assert_eq!(dispatch(&cli, &gc, &h), Ok(expected));
    let init = Commands::Init { template: None };
    assert_eq!(dispatch(&cli, &init, &h), dispatch_if_found(false, &cli, &init, &h));
    assert_eq!(required_tool(&gc, CapabilityClass::UserLevel), None);
    assert_eq!(required_tool(&init, CapabilityClass::FullSystem), None);
}

#[test]
fn required_tools() {
    let update = Commands::Update { inputs: None };
    let b = Commands::B { rebuild_args: quick(None) };
    assert_eq!(required_tool(&update, CapabilityClass::UserLevel), Some("nix"));
    assert_eq!(required_tool(&b, CapabilityClass::UserLevel), Some("home-manager"));
    assert_eq!(required_tool(&b, CapabilityClass::FullSystem), Some("nixos-rebuild"));
}

#[test]
fn dispatch_asks_the_search_path() {
    let cli = options(Some("/cfg"));
    let h = host(CapabilityClass::FullSystem, true, true);
    let update = Commands::Update { inputs: Some(list(&["nixpkgs"])) };
    let r = dispatch(&cli, &update, &h);
    assert!(r == dispatch_if_found(true, &cli, &update, &h) || r == Err(UniverseCliError::CommandNotFound));
}

#[test]
fn identity_is_needed_only_for_user_level_quick_rebuild() {
    let b = Commands::B { rebuild_args: quick(None) };
    let with_flake = Commands::B { rebuild_args: quick(Some("x")) };
    assert!(needs_identity(&b, CapabilityClass::UserLevel));
    assert!(!needs_identity(&b, CapabilityClass::FullSystem));
    assert!(!needs_identity(&with_flake, CapabilityClass::UserLevel));
    assert!(!needs_identity(&Commands::Update { inputs: None }, CapabilityClass::UserLevel));
}
