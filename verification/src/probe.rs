//! What the library needs to know about the host it runs on.

use vstd::prelude::*;
use vstd::string::*;

verus! {

/// Prefix of every environment variable that overrides a setting.
pub const ENV_VAR_PREFIX: &'static str = "UNIVERSE";

/// Name, after the prefix, of the override that names the flake root.
pub const FLAKE_ROOT_OVERRIDE: &'static str = "FLAKE_ROOT";

/// Name, after the prefix, of the override that names the user.
pub const USER_OVERRIDE: &'static str = "USER";

/// Name, after the prefix, of the override that names the host.
pub const HOST_OVERRIDE: &'static str = "HOST";

/// Path whose existence marks a host that runs the full system platform.
pub const SYSTEM_MARKER_PATH: &'static str = "/etc/NIXOS";

/// Command that prints the current user's name.
pub const USER_LOOKUP_COMMAND: &'static str = "whoami";

/// Command that prints the current host's name.
pub const HOST_LOOKUP_COMMAND: &'static str = "hostname";

/// Whether the host manages the whole system or only a user's configuration.
#[derive(Debug, Copy, Clone, PartialEq, Eq, Structural)]
pub enum CapabilityClass {
    FullSystem,
    UserLevel,
}

impl CapabilityClass {
    /// Classifies the host from whether the system marker path exists.
    pub fn detect(system_marker_present: bool) -> (class: CapabilityClass)
        ensures
            class == (if system_marker_present {
                CapabilityClass::FullSystem
            } else {
                CapabilityClass::UserLevel
            }),
    {
        if system_marker_present {
            CapabilityClass::FullSystem
        } else {
            CapabilityClass::UserLevel
        }
    }

    /// True on a host that manages the whole system.
    pub fn is_full_system(&self) -> (b: bool)
        ensures
            b == (*self == CapabilityClass::FullSystem),
    {
        match self {
            CapabilityClass::FullSystem => true,
            CapabilityClass::UserLevel => false,
        }
    }
}

/// The full name of the environment variable for the override `name`.
pub open spec fn override_name_text(name: Seq<char>) -> Seq<char> {
    ENV_VAR_PREFIX@ + "_"@ + name
}

/// Builds the name of the environment variable that overrides `name`:
/// the prefix, an underscore, and `name`.
pub fn override_name(name: &str) -> (full: String)
    ensures
        full@ == override_name_text(name@),
{
    ENV_VAR_PREFIX.to_owned().concat("_").concat(name)
}

/// The user and host that qualify a flake reference on a user-level host.
#[derive(Debug, Clone, PartialEq, Eq)]
pub struct Identity {
    pub user: String,
    pub host: String,
}

/// Where a name of the user or of the host comes from.
#[derive(Debug, Clone, PartialEq, Eq)]
pub enum IdentitySource {
    /// The override was set: this is the name.
    Override(String),
    /// No override was set: the name is what this command prints.
    Lookup(String),
}

/// The mathematical form of an [`IdentitySource`].
pub enum IdentitySourceView {
    Override(Seq<char>),
    Lookup(Seq<char>),
}

impl View for IdentitySource {
    type V = IdentitySourceView;

    open spec fn view(&self) -> IdentitySourceView {
        match *self {
            IdentitySource::Override(s) => IdentitySourceView::Override(s@),
            IdentitySource::Lookup(s) => IdentitySourceView::Lookup(s@),
        }
    }
}

/// Decides where a name comes from: an override that is set wins, otherwise
/// the lookup command has to be asked.
pub fn identity_source(override_value: &Option<String>, lookup_command: &str) -> (src:
    IdentitySource)
    ensures
        src@ == (match *override_value {
            Some(v) => IdentitySourceView::Override(v@),
            None => IdentitySourceView::Lookup(lookup_command@),
        }),
{
    match override_value {
        Some(v) => IdentitySource::Override(v.clone()),
        None => IdentitySource::Lookup(lookup_command.to_owned()),
    }
}

} // verus!
