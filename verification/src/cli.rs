//! The command-line surface as plain data.
//!
//! Argument parsing itself belongs to the layer outside this crate; what it
//! hands over is one of these values. The shapes mirror the parser's structs
//! one-for-one so the dispatcher and the configuration merge work on plain
//! strings, numbers and flags.

use vstd::prelude::*;

use crate::formatter::OutputStyle;

verus! {

/// Arguments of the open command.
#[derive(Clone, Debug)]
pub struct OpenArgs {
    pub device_url: String,
    /// Return the raw execution reference without polling for a settled
    /// result.
    pub no_poll: bool,
}

/// Arguments of the close command.
#[derive(Clone, Debug)]
pub struct CloseArgs {
    pub device_url: String,
    /// Return the raw execution reference without polling for a settled
    /// result.
    pub no_poll: bool,
}

/// Arguments of the position command.
#[derive(Clone, Debug)]
pub struct PositionArgs {
    pub device_url: String,
    pub percentage: u8,
    /// Return the raw execution reference without polling for a settled
    /// result.
    pub no_poll: bool,
}

/// Arguments for recording an alias.
#[derive(Clone, Debug)]
pub struct AliasAddArgs {
    pub alias_name: String,
    pub device_url: String,
    /// Overwrites an existing alias.
    pub overwrite: bool,
}

/// Arguments for removing an alias.
#[derive(Clone, Debug)]
pub struct AliasRmArgs {
    pub alias_name: String,
}

/// The alias subcommands.
#[derive(Clone, Debug)]
pub enum AliasCommands {
    Add(AliasAddArgs),
    Rm(AliasRmArgs),
    Ls,
}

/// The alias command with its subcommand.
#[derive(Clone, Debug)]
pub struct AliasArgs {
    pub alias_cmd: AliasCommands,
}

/// One user command.
#[derive(Clone, Debug)]
pub enum Command {
    /// Completely opens the device.
    Open(OpenArgs),
    /// Completely closes the device.
    Close(CloseArgs),
    /// Moves the device into the given percentage position.
    Position(PositionArgs),
    /// Lists all devices.
    ListDevices,
    /// Lists all running executions.
    GetCurrentExecutions,
    /// Listens for device events.
    Listen,
    /// Manages aliases for devices.
    Alias(AliasArgs),
}

/// Everything the command line provides: the command and the gateway
/// connection overrides.
#[derive(Clone, Debug)]
pub struct Cli {
    pub command: Command,
    /// The gateway API key, if given on the command line or the
    /// environment.
    pub api_key: Option<String>,
    /// The gateway hostname, if given.
    pub gateway_url: Option<String>,
    /// The gateway port, if given.
    pub gateway_port: Option<usize>,
    pub output_style: OutputStyle,
}

} // verus!
