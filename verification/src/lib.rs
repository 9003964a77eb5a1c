//! Decision logic of the `bsdev` launcher: the docker and ssh command lines it
//! runs, how it reads their results, the settings it resolves, the files it
//! tracks tunnels in, and the step-by-step flow of every subcommand.
//!
//! Nothing here touches the outside world: the program around the library
//! performs each requested action and feeds the outcome back in.

pub mod text;
pub mod error;
pub mod process;
pub mod config;
pub mod paths;
pub mod settings;
pub mod docker;
pub mod codebridge;
pub mod ssh;
pub mod adbtunnel;
pub mod tunnel;
pub mod forward;
pub mod cli;
pub mod update;
pub mod session;
pub mod laws;
