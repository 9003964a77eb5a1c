//! The command line: an optional subcommand and the verbose switch.

use vstd::prelude::*;

verus! {

/// The parsed command line. Running with no subcommand brings the container
/// up and connects to it.
pub struct Cli {
    /// Print each docker/ssh command as it runs.
    pub verbose: bool,
    pub command: Option<Command>,
}

/// The subcommands.
pub enum Command {
    /// Update the launcher to the latest published release.
    Update { yes: bool },
    /// Bring the image and container up, without connecting.
    Up,
    /// Stop the container (its home volume is kept).
    Down,
    /// Show image, container and home volume state.
    Status,
    /// Pull the latest image and recreate the container (keeps the home volume).
    Rebuild,
    /// Delete the container and its home volume.
    Reset { yes: bool },
    /// Get, persist or clear the host directory bind-mounted at `~/host-repos`.
    Repos { path: Option<String>, unset: bool },
    /// Get, persist or clear the host adb server port forwarded into the container.
    Adb { port: Option<u16>, unset: bool },
}

} // verus!
