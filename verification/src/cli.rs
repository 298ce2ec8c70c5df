//! The commands Pulsar understands.

use vstd::prelude::*;

verus! {

/// A parsed command line.
#[derive(Debug)]
pub struct Cli {
    pub command: Commands,
    /// Enable verbose output.
    pub verbose: bool,
    /// Output in JSON format.
    pub json: bool,
}

/// The top-level commands.
#[derive(Debug)]
pub enum Commands {
    /// Verify the environment and the bundled binaries.
    Doctor,
    /// Manage profiles.
    Profile(ProfileCommands),
    /// Connect to a VPN profile.
    Connect { name: String, use_system_binaries: bool },
    /// Disconnect from the current VPN session.
    Disconnect,
    /// Show the current connection status.
    Status,
}

/// The `profile` subcommands.
#[derive(Debug)]
pub enum ProfileCommands {
    /// Import from an AmneziaVPN export file.
    ImportAmnezia { name: String, file: String },
    /// Import OpenVPN and Cloak configurations from separate files.
    Import { name: String, ovpn: String, cloak: String },
    /// List all stored profiles.
    List,
    /// Show the details of a profile.
    Show { name: String },
}

} // verus!
