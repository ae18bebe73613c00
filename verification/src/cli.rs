//! The client's command surface: the parsed form of its command line.
//! Argument parsing itself happens outside; these are the values it
//! produces.

use vstd::prelude::*;

verus! {

/// A parsed client invocation.
pub struct Cli {
    /// The command to run.
    pub command: Commands,
}

/// The client's commands.
pub enum Commands {
    /// Authenticate as the named user account.
    LogIn { name: String, passphrase: String },
    /// Log out of the current user account.
    LogOut,
    /// Connect to the server at this address, verifying reachability.
    Connect { addr: String },
    /// Disconnect from the currently connected server.
    Disconnect,
}

} // verus!
