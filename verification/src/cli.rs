//! The invocation as selected on the command line.

use std::path::PathBuf;
use vstd::prelude::*;

verus! {

/// `std::path::PathBuf`, carried through and never inspected.
#[verifier::external_type_specification]
#[verifier::external_body]
pub struct ExPathBuf(PathBuf);

/// `Clone::clone` of `std::path::PathBuf`: a copy that is equal to the path.
pub assume_specification[ <PathBuf as Clone>::clone ](path: &PathBuf) -> (copy: PathBuf)
    ensures
        copy == *path,
;

/// Configuration file that is read when `-c` is not given.
pub const DEFAULT_CONFIG: &'static str = "/etc/helium_gateway/settings.toml";

/// The subcommand selected for this run. Exactly one is selected per
/// invocation. The parameters of a subcommand belong to the collaborator that
/// runs it and are not read here.
#[derive(Clone, Copy, Debug, PartialEq, Eq, Structural)]
pub enum Cmd {
    /// Key management.
    Key,
    /// Informational reporting.
    Info,
    /// The long-running gateway service.
    Server,
    /// The gateway-addition workflow.
    Add,
}

/// What the process was asked to do: created once from the process arguments
/// and never changed afterwards.
#[derive(Clone, Debug)]
pub struct Cli {
    /// Configuration file to use (`-c <path>`).
    pub config: PathBuf,
    /// Detach from the controlling terminal and run in the background
    /// (`--daemon`).
    pub daemon: bool,
    /// Watch standard input and shut down when it closes (`--stdin`).
    pub stdin: bool,
    /// The selected subcommand.
    pub cmd: Cmd,
}

/// Mathematical value of a [`Cli`].
pub struct CliView {
    pub config: PathBuf,
    pub daemon: bool,
    pub stdin: bool,
    pub cmd: Cmd,
}

impl View for Cli {
    type V = CliView;

    open spec fn view(&self) -> CliView {
        CliView { config: self.config, daemon: self.daemon, stdin: self.stdin, cmd: self.cmd }
    }
}

impl Cli {
    /// An invocation with the given configuration path, flags and subcommand.
    pub fn new(config: PathBuf, daemon: bool, stdin: bool, cmd: Cmd) -> (cli: Cli)
        ensures
            cli@ == (CliView { config, daemon, stdin, cmd }),
    {
        Cli { config, daemon, stdin, cmd }
    }
}

} // verus!
