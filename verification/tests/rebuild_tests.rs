use universe_cli::command::{
    build_rebuild_command, rebuild_command_if_found, rebuild_tool, CommandSpec, RootLookup,
};
use universe_cli::flake_root::PathProbe;
use universe_cli::helpers::{FlakeRootError, UniverseCliError};
use universe_cli::options::GlobalOptions;
use universe_cli::probe::{CapabilityClass, Identity};
use universe_cli::rebuild::{
    choose_flake_target, command_quick_rebuild, command_rebuild, qualify_root,
    quick_rebuild_if_found, rebuild_if_found, QuickRebuildArgs, RebuildArgs,
};

fn strings(v: &[&str]) -> Vec<String> {
    v.iter().map(|s| s.to_string()).collect()
}

fn valid_lookup() -> RootLookup {
    RootLookup { env_root: None, probe: PathProbe { is_dir: true, has_marker: true } }
}

fn no_root_lookup() -> RootLookup {
    RootLookup { env_root: None, probe: PathProbe { is_dir: false, has_marker: false } }
}

fn alice() -> Identity {
    Identity { user: "alice".to_string(), host: "box".to_string() }
}

fn plain_args() -> QuickRebuildArgs {
    QuickRebuildArgs {
        profile_name: None,
        specialisation: None,
        flake: None,
        install_bootloader: false,
        fast: false,
        show_trace: false,
        rollback: false,
        offline: false,
    }
}

fn everything() -> QuickRebuildArgs {
    QuickRebuildArgs {
        profile_name: Some("work".to_string()),
        specialisation: Some("gaming".to_string()),
        flake: None,
        install_bootloader: true,
        fast: true,
        show_trace: true,
        rollback: true,
        offline: true,
    }
}

fn cfg() -> GlobalOptions {
    GlobalOptions::new(Some("/cfg".to_string()), false, false)
}

fn count(v: &[String], word: &str) -> usize {
    v.iter().filter(|s| s.as_str() == word).count()
}

#[test]
fn user_level_qualifies_root_and_drops_bootloader() {
    let mut args = plain_args();
    args.install_bootloader = true;
    let c = quick_rebuild_if_found(true, &cfg(), &args, &valid_lookup(), CapabilityClass::UserLevel, &alice())
        .unwrap();
    assert_eq!(c.program, "home-manager");
    assert_eq!(c.args, strings(&["--use-remote-sudo", "--flake", "/cfg#alice@box", "switch"]));
    assert_eq!(count(&c.args, "--install-bootloader"), 0);
    assert_eq!(c.cwd, None);
}

#[test]
fn full_system_uses_bare_root_and_rolls_back_once() {
    let mut args = plain_args();
    args.rollback = true;
    let c = quick_rebuild_if_found(true, &cfg(), &args, &valid_lookup(), CapabilityClass::FullSystem, &alice())
        .unwrap();
    assert_eq!(c.program, "nixos-rebuild");
    assert_eq!(c.args, strings(&["--use-remote-sudo", "--flake", "/cfg", "switch", "--rollback"]));
    assert_eq!(count(&c.args, "--rollback"), 1);
}

#[test]
fn full_system_emits_every_requested_flag_in_order() {
    let cli = GlobalOptions::new(Some("/cfg".to_string()), true, false);
    let c = quick_rebuild_if_found(true, &cli, &everything(), &valid_lookup(), CapabilityClass::FullSystem, &alice())
        .unwrap();
    assert_eq!(
        c.args,
        strings(&[
            "--use-remote-sudo",
            "--verbose",
            "--flake",
            "/cfg",
            "switch",
            "--show-trace",
            "--no-eval-cache",
            "--fast",
            "--install-bootloader",
            "--rollback",
            "--offline",
            "--specialisation",
            "gaming",
            "--profile-name",
            "work",
        ])
    );
}

#[test]
fn user_level_drops_every_system_flag() {
    let c = quick_rebuild_if_found(true, &cfg(), &everything(), &valid_lookup(), CapabilityClass::UserLevel, &alice())
        .unwrap();
    assert_eq!(
        c.args,
        strings(&[
            "--use-remote-sudo",
            "--flake",
            "/cfg#alice@box",
            "switch",
            "--show-trace",
            "--no-eval-cache",
        ])
    );
    for flag in [
        "--fast",
        "--install-bootloader",
        "--rollback",
        "--offline",
        "--specialisation",
        "--profile-name",
    ] {
        assert_eq!(count(&c.args, flag), 0);
    }
}

#[test]
fn trace_and_cache_flag_go_together() {
    for class in [CapabilityClass::FullSystem, CapabilityClass::UserLevel] {
        let mut args = plain_args();
        let without = quick_rebuild_if_found(true, &cfg(), &args, &valid_lookup(), class, &alice()).unwrap();
        assert_eq!(count(&without.args, "--show-trace"), 0);
        assert_eq!(count(&without.args, "--no-eval-cache"), 0);
        args.show_trace = true;
        let with = quick_rebuild_if_found(true, &cfg(), &args, &valid_lookup(), class, &alice()).unwrap();
        let at = with.args.iter().position(|s| s == "--show-trace").unwrap();
        assert_eq!(with.args[at + 1], "--no-eval-cache");
        assert_eq!(count(&with.args, "--show-trace"), 1);
        assert_eq!(count(&with.args, "--no-eval-cache"), 1);
    }
}

#[test]
fn explicit_flake_wins_and_skips_resolution() {
    let mut args = plain_args();
    args.flake = Some("github:me/cfg#laptop".to_string());
    // The explicit root is invalid, but it is never looked at.
    let bad = RootLookup { env_root: None, probe: PathProbe { is_dir: false, has_marker: false } };
    for class in [CapabilityClass::FullSystem, CapabilityClass::UserLevel] {
        let c = quick_rebuild_if_found(true, &cfg(), &args, &bad, class, &alice()).unwrap();
        assert_eq!(c.args, strings(&["--use-remote-sudo", "--flake", "github:me/cfg#laptop", "switch"]));
    }
}

#[test]
fn quick_rebuild_without_root_or_flake_has_no_flake_flag() {
    let cli = GlobalOptions::new(None, false, false);
    let c = quick_rebuild_if_found(true, &cli, &plain_args(), &no_root_lookup(), CapabilityClass::FullSystem, &alice())
        .unwrap();
    assert_eq!(c.args, strings(&["--use-remote-sudo", "switch"]));
}

#[test]
fn quick_rebuild_reports_invalid_root() {
    let bad = RootLookup { env_root: None, probe: PathProbe { is_dir: true, has_marker: false } };
    let r = quick_rebuild_if_found(true, &cfg(), &plain_args(), &bad, CapabilityClass::FullSystem, &alice());
    assert_eq!(r, Err(UniverseCliError::InvalidFlakeRoot(FlakeRootError::MissingFlakeDotNix)));
}

#[test]
fn missing_rebuild_tool_is_reported_first() {
    let bad = RootLookup { env_root: None, probe: PathProbe { is_dir: false, has_marker: false } };
    let r = quick_rebuild_if_found(false, &cfg(), &plain_args(), &bad, CapabilityClass::FullSystem, &alice());
    assert_eq!(r, Err(UniverseCliError::CommandNotFound));
    let r = rebuild_if_found(false, &cfg(), &RebuildArgs::new(vec![]), &bad, CapabilityClass::UserLevel);
    assert_eq!(r, Err(UniverseCliError::CommandNotFound));
    assert_eq!(
        rebuild_command_if_found(false, &cfg(), CapabilityClass::FullSystem),
        Err(UniverseCliError::CommandNotFound)
    );
}

#[test]
fn rebuild_base_carries_sudo_and_verbose() {
    let quiet = GlobalOptions::new(None, false, true);
    let verbose = GlobalOptions::new(None, true, false);
    assert_eq!(
        rebuild_command_if_found(true, &quiet, CapabilityClass::FullSystem),
        Ok(CommandSpec { program: "nixos-rebuild".to_string(), args: strings(&["--use-remote-sudo"]), cwd: None })
    );
    assert_eq!(
        rebuild_command_if_found(true, &verbose, CapabilityClass::UserLevel),
        Ok(CommandSpec {
            program: "home-manager".to_string(),
            args: strings(&["--use-remote-sudo", "--verbose"]),
            cwd: None
        })
    );
    assert_eq!(rebuild_tool(CapabilityClass::FullSystem), "nixos-rebuild");
    assert_eq!(rebuild_tool(CapabilityClass::UserLevel), "home-manager");
}

#[test]
fn passthrough_keeps_raw_arguments_verbatim() {
    let raw = RebuildArgs::new(strings(&["boot", "--flake", "--weird=1", "-x", ""]));
    let c = rebuild_if_found(true, &cfg(), &raw, &valid_lookup(), CapabilityClass::FullSystem).unwrap();
    assert_eq!(c.program, "nixos-rebuild");
    assert_eq!(
        c.args,
        strings(&["--use-remote-sudo", "--flake", "/cfg", "boot", "--flake", "--weird=1", "-x", ""])
    );
    assert_eq!(c.cwd, None);
}

#[test]
fn passthrough_without_root_has_no_flake_flag() {
    let cli = GlobalOptions::new(None, true, false);
    let raw = RebuildArgs::new(strings(&["switch"]));
    let c = rebuild_if_found(true, &cli, &raw, &no_root_lookup(), CapabilityClass::UserLevel).unwrap();
    assert_eq!(c.program, "home-manager");
    assert_eq!(c.args, strings(&["--use-remote-sudo", "--verbose", "switch"]));
}

#[test]
fn passthrough_reports_invalid_root() {
    let bad = RootLookup {
        env_root: Some("/x/y".to_string()),
        probe: PathProbe { is_dir: false, has_marker: false },
    };
    let cli = GlobalOptions::new(None, false, false);
    let r = rebuild_if_found(true, &cli, &RebuildArgs::new(vec![]), &bad, CapabilityClass::FullSystem);
    assert_eq!(r, Err(UniverseCliError::InvalidFlakeRoot(FlakeRootError::PathDoesNotExist)));
}

#[test]
fn qualified_root_has_user_and_host() {
    assert_eq!(qualify_root("/cfg", &alice()), "/cfg#alice@box");
    assert_eq!(qualify_root("", &Identity { user: String::new(), host: String::new() }), "#@");
}

#[test]
fn flake_target_choice() {
    let root = Some("/cfg".to_string());
    let flake = Some("other".to_string());
    assert_eq!(choose_flake_target(&flake, &root, CapabilityClass::UserLevel, &alice()), flake);
    assert_eq!(choose_flake_target(&None, &root, CapabilityClass::FullSystem, &alice()), root);
    assert_eq!(
        choose_flake_target(&None, &root, CapabilityClass::UserLevel, &alice()),
        Some("/cfg#alice@box".to_string())
    );
    assert_eq!(choose_flake_target(&None, &None, CapabilityClass::UserLevel, &alice()), None);
}

#[test]
fn search_path_decides_between_missing_tool_and_command() {
    // Whatever the search path of this machine holds, the outcome is one of
    // the two.
    let class = CapabilityClass::FullSystem;
    let found = rebuild_command_if_found(true, &cfg(), class);
    let missing: Result<CommandSpec, UniverseCliError> = Err(UniverseCliError::CommandNotFound);
    let r = build_rebuild_command(&cfg(), class);
    assert!(r == found || r == missing);

    let raw = RebuildArgs::new(strings(&["boot"]));
    let r = command_rebuild(&cfg(), &raw, &valid_lookup(), class);
    assert!(r == rebuild_if_found(true, &cfg(), &raw, &valid_lookup(), class) || r == missing);

    let r = command_quick_rebuild(&cfg(), &plain_args(), &valid_lookup(), class, &alice());
    assert!(
        r == quick_rebuild_if_found(true, &cfg(), &plain_args(), &valid_lookup(), class, &alice())
            || r == missing
    );
}

#[test]
fn rebuild_args_from_raw_values() {
    assert_eq!(
        RebuildArgs::from_raw_values(Some(strings(&["boot", "--x"]))),
        RebuildArgs { args: strings(&["boot", "--x"]) }
    );
    assert_eq!(RebuildArgs::from_raw_values(None), RebuildArgs { args: vec![] });
}
