use universe_cli::flake_root::{
    check_flake_root, find_flake_root, root_candidate, PathProbe, RootSource,
    DEFAULT_FLAKE_ROOT, MARKER_FILE,
};
use universe_cli::helpers::FlakeRootError;
use universe_cli::options::GlobalOptions;
use universe_cli::probe::{
    identity_source, override_name, CapabilityClass, IdentitySource, ENV_VAR_PREFIX,
    FLAKE_ROOT_OVERRIDE, HOST_LOOKUP_COMMAND, USER_LOOKUP_COMMAND,
};

const VALID: PathProbe = PathProbe { is_dir: true, has_marker: true };
const NO_MARKER: PathProbe = PathProbe { is_dir: true, has_marker: false };
const NO_DIR: PathProbe = PathProbe { is_dir: false, has_marker: false };

fn cli(root: Option<&str>) -> GlobalOptions {
    GlobalOptions::new(root.map(|s| s.to_string()), false, false)
}

#[test]
fn check_accepts_directory_with_marker() {
    assert_eq!(check_flake_root("/a/b", VALID), Ok("/a/b"));
}

#[test]
fn check_rejects_missing_directory() {
    assert_eq!(check_flake_root("/a/b", NO_DIR), Err(FlakeRootError::PathDoesNotExist));
}

#[test]
fn check_rejects_directory_without_marker() {
    assert_eq!(check_flake_root("/a/b", NO_MARKER), Err(FlakeRootError::MissingFlakeDotNix));
}

#[test]
fn check_reports_existence_before_marker() {
    // A probe that claims a marker in something that is no directory still
    // reports the missing path.
    let odd = PathProbe { is_dir: false, has_marker: true };
    assert_eq!(check_flake_root("/nowhere", odd), Err(FlakeRootError::PathDoesNotExist));
    assert_eq!(find_flake_root(&cli(Some("/nowhere")), &None, odd), Err(FlakeRootError::PathDoesNotExist));
    assert_eq!(
        find_flake_root(&cli(None), &Some("/nowhere".to_string()), NO_DIR),
        Err(FlakeRootError::PathDoesNotExist)
    );
}

#[test]
fn explicit_root_wins_over_environment() {
    let env = Some("/x/y".to_string());
    let c = root_candidate(&cli(Some("/a/b")), &env);
    assert_eq!(c.source, RootSource::Explicit);
    assert_eq!(c.path, "/a/b");
    assert_eq!(find_flake_root(&cli(Some("/a/b")), &env, VALID), Ok(Some("/a/b".to_string())));
}

#[test]
fn environment_without_marker_fails_and_default_is_not_tried() {
    let env = Some("/x/y".to_string());
    let c = root_candidate(&cli(None), &env);
    assert_eq!(c.source, RootSource::Environment);
    assert_eq!(c.path, "/x/y");
    assert_eq!(find_flake_root(&cli(None), &env, NO_MARKER), Err(FlakeRootError::MissingFlakeDotNix));
}

#[test]
fn invalid_explicit_root_does_not_fall_through() {
    let env = Some("/x/y".to_string());
    assert_eq!(
        find_flake_root(&cli(Some("/a/b")), &env, NO_DIR),
        Err(FlakeRootError::PathDoesNotExist)
    );
    assert_eq!(
        find_flake_root(&cli(Some("/a/b")), &None, NO_MARKER),
        Err(FlakeRootError::MissingFlakeDotNix)
    );
}

#[test]
fn environment_root_is_used_when_valid() {
    let env = Some("/x/y".to_string());
    assert_eq!(find_flake_root(&cli(None), &env, VALID), Ok(Some("/x/y".to_string())));
}

#[test]
fn default_root_is_used_when_valid() {
    let c = root_candidate(&cli(None), &None);
    assert_eq!(c.source, RootSource::Default);
    assert_eq!(c.path, "/etc/nixos");
    assert_eq!(find_flake_root(&cli(None), &None, VALID), Ok(Some("/etc/nixos".to_string())));
}

#[test]
fn invalid_default_yields_no_root() {
    assert_eq!(find_flake_root(&cli(None), &None, NO_DIR), Ok(None));
    assert_eq!(find_flake_root(&cli(None), &None, NO_MARKER), Ok(None));
}

#[test]
fn boundary_names_are_fixed() {
    assert_eq!(DEFAULT_FLAKE_ROOT, "/etc/nixos");
    assert_eq!(MARKER_FILE, "flake.nix");
    assert_eq!(ENV_VAR_PREFIX, "UNIVERSE");
    assert_eq!(override_name(FLAKE_ROOT_OVERRIDE), "UNIVERSE_FLAKE_ROOT");
    assert_eq!(override_name("USER"), "UNIVERSE_USER");
    assert_eq!(override_name(""), "UNIVERSE_");
}

#[test]
fn capability_class_follows_marker() {
    assert_eq!(CapabilityClass::detect(true), CapabilityClass::FullSystem);
    assert_eq!(CapabilityClass::detect(false), CapabilityClass::UserLevel);
    assert!(CapabilityClass::FullSystem.is_full_system());
    assert!(!CapabilityClass::UserLevel.is_full_system());
}

#[test]
fn identity_prefers_override() {
    assert_eq!(
        identity_source(&Some("alice".to_string()), USER_LOOKUP_COMMAND),
        IdentitySource::Override("alice".to_string())
    );
    assert_eq!(
        identity_source(&None, USER_LOOKUP_COMMAND),
        IdentitySource::Lookup("whoami".to_string())
    );
    assert_eq!(
        identity_source(&None, HOST_LOOKUP_COMMAND),
        IdentitySource::Lookup("hostname".to_string())
    );
}
