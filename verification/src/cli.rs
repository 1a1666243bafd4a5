//! The commands that `lenv` understands.
use vstd::prelude::*;

verus! {

/// A parsed command line of `lenv`.
#[derive(Debug, PartialEq, Eq)]
pub struct Cli {
    /// The subcommand to run.
    pub command: Commands,
}

/// The subcommands of `lenv`.
#[derive(Debug, PartialEq, Eq)]
pub enum Commands {
    /// Create a new environment from `image` (`ubuntu:latest` when absent),
    /// with each `HOST_DIR:CONTAINER_DIR` of `mount` mounted.
    Create { name: String, image: Option<String>, mount: Vec<String> },
    /// Enter an environment.
    Enter { name: String },
    /// List environments.
    List,
    /// Remove an environment.
    Remove { name: String },
    /// Stop an environment.
    Stop { name: String },
    /// Start an environment.
    Start { name: String },
    /// Restart an environment.
    Restart { name: String },
    /// Show the status of an environment.
    Status { name: String },
}

} // verus!
