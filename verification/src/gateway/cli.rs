//! The gateway's command line.
use vstd::prelude::*;

verus! {

/// Arguments of the `run` command.
#[derive(Clone, Debug)]
pub struct RunCmd {
    /// The configuration file; the defaults are used when none is given.
    pub config: Option<String>,
}

/// The gateway's commands.
#[derive(Clone, Debug)]
pub enum Commands {
    /// Runs the event listener and the gRPC server.
    Run(RunCmd),
}

/// The parsed command line.
#[derive(Clone, Debug)]
pub struct Cli {
    pub command: Commands,
}

} // verus!
