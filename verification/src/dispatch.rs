//! Routing of the selected subcommand to the collaborator that runs it.
//!
//! Every collaborator is run with the settings. The server is the only one
//! that runs until told to stop, so it alone is also handed the shutdown
//! listener and the logger. What the collaborator returns is the result of
//! the run; nothing here retries or swallows it.

use crate::cli::Cli;
use crate::cli::Cmd;
use vstd::prelude::*;

verus! {

/// A collaborator, with what it is run on.
#[derive(Debug)]
pub enum Invocation<'a, S, L> {
    /// Key management, run on the settings.
    Key { settings: S },
    /// Informational reporting, run on the settings.
    Info { settings: S },
    /// The gateway-addition workflow, run on the settings.
    Add { settings: S },
    /// The gateway service, run on the shutdown listener, the settings and
    /// the logger.
    Server { shutdown: &'a triggered::Listener, settings: S, logger: L },
}

impl<'a, S, L> Invocation<'a, S, L> {
    /// The subcommand that this invocation runs.
    pub open spec fn cmd(self) -> Cmd {
        match self {
            Invocation::Key { .. } => Cmd::Key,
            Invocation::Info { .. } => Cmd::Info,
            Invocation::Add { .. } => Cmd::Add,
            Invocation::Server { .. } => Cmd::Server,
        }
    }

    /// The settings that the collaborator is run on.
    pub open spec fn settings(self) -> S {
        match self {
            Invocation::Key { settings } => settings,
            Invocation::Info { settings } => settings,
            Invocation::Add { settings } => settings,
            Invocation::Server { settings, .. } => settings,
        }
    }

    /// Whether the collaborator is handed the shutdown listener and the
    /// logger.
    pub open spec fn observes_shutdown(self) -> bool {
        self is Server
    }
}

/// The invocation that `cmd` selects.
pub open spec fn invocation_of<'a, S, L>(
    cmd: Cmd,
    settings: S,
    shutdown: &'a triggered::Listener,
    logger: L,
) -> Invocation<'a, S, L> {
    match cmd {
        Cmd::Key => Invocation::Key { settings },
        Cmd::Info => Invocation::Info { settings },
        Cmd::Add => Invocation::Add { settings },
        Cmd::Server => Invocation::Server { shutdown, settings, logger },
    }
}

/// Routes the subcommand of `cli` to its collaborator.
///
/// The settings are passed on as they came. The listener and the logger are
/// passed on to the server and to no other collaborator.
pub fn run<'a, S, L>(
    cli: &Cli,
    settings: S,
    shutdown_listener: &'a triggered::Listener,
    logger: L,
) -> (invocation: Invocation<'a, S, L>)
    ensures
        invocation == invocation_of(cli.cmd, settings, shutdown_listener, logger),
        invocation.cmd() == cli.cmd,
        invocation.settings() == settings,
        invocation.observes_shutdown() <==> cli.cmd is Server,
{
    match cli.cmd {
        Cmd::Key => Invocation::Key { settings },
        Cmd::Info => Invocation::Info { settings },
        Cmd::Add => Invocation::Add { settings },
        Cmd::Server => Invocation::Server { shutdown: shutdown_listener, settings, logger },
    }
}

} // verus!
