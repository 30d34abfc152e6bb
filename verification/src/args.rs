//! The invocation surface as plain values: what the command-line
//! collaborator hands the core after parsing.

use vstd::prelude::*;

verus! {

/// A whole invocation of the launcher.
#[derive(Debug, Clone)]
pub struct RunThatCli {
    pub subcommand: Commands,
}

/// The launcher's subcommands; running a script is the one there is.
#[derive(Debug, Clone)]
pub enum Commands {
    Run(RunArgs),
}

/// One script run: the script's name, an optional working-directory
/// override, the arguments forwarded to the script verbatim, and an
/// optional ad hoc bucket (in shorthand form) that bypasses the configured
/// bucket list entirely.
#[derive(Debug, Clone)]
pub struct RunArgs {
    pub script: String,
    pub path: Option<String>,
    pub script_args: Vec<String>,
    pub bucket: Option<String>,
}

} // verus!
