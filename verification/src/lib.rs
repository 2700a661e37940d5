//! Lifecycle and shutdown coordination for a long-running gateway daemon.
//!
//! The crate holds the decisions of a process supervisor as verified state
//! machines: what the command line selected ([`cli`]), how the logging sink is
//! to be assembled ([`logging`]), when the broadcast-once shutdown latch fires
//! ([`shutdown`]), which collaborator a subcommand is handed to
//! ([`dispatch`]), and in which order the process starts up, runs and exits
//! ([`lifecycle`]). The program around it performs the effects the machines
//! ask for and reports back what happened.

pub mod cli;
pub mod dispatch;
pub mod lifecycle;
pub mod logging;
pub mod shutdown;
