//! The data carried by the command-line surface. Argument parsing itself
//! is glue around the library and lives with the binary; these are the
//! bare types it fills in.

use vstd::prelude::*;

verus! {

/// The `read` subcommand; it carries no options of its own.
#[derive(Debug, Default)]
pub struct ReadCommand;

/// Global configuration flags; none are defined yet.
#[derive(Debug)]
pub struct Config;

/// The subcommands the binary accepts.
#[derive(Debug)]
pub enum SubCommand {
    Read(ReadCommand),
}

/// One parsed command line: the global configuration and the chosen
/// subcommand.
#[derive(Debug)]
pub struct Cli {
    pub config: Config,
    pub subcmd: SubCommand,
}

} // verus!
