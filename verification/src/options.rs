//! Options that accompany every operation.

use vstd::prelude::*;
use crate::text::opt_text;

verus! {

/// Cross-cutting options of an invocation.
#[derive(Debug, Clone, PartialEq, Eq)]
pub struct GlobalOptions {
    /// Flake root named on the command line, if any.
    pub flake_root: Option<String>,
    /// Ask the external tools for verbose output.
    pub verbose: bool,
    /// Ask the external tools for quiet output.
    pub quiet: bool,
}

/// The mathematical form of [`GlobalOptions`].
pub struct GlobalOptionsView {
    pub flake_root: Option<Seq<char>>,
    pub verbose: bool,
    pub quiet: bool,
}

impl View for GlobalOptions {
    type V = GlobalOptionsView;

    open spec fn view(&self) -> GlobalOptionsView {
        GlobalOptionsView {
            flake_root: opt_text(self.flake_root),
            verbose: self.verbose,
            quiet: self.quiet,
        }
    }
}

impl GlobalOptions {
    /// Options with the given explicit flake root and flags.
    pub fn new(flake_root: Option<String>, verbose: bool, quiet: bool) -> (cli: GlobalOptions)
        ensures
            cli@ == (GlobalOptionsView { flake_root: opt_text(flake_root), verbose, quiet }),
    {
        GlobalOptions { flake_root, verbose, quiet }
    }
}

} // verus!
