//! The errors that environment management reports.
use vstd::prelude::*;

use crate::text::{concat2, concat3, owned};

verus! {

/// Why an environment operation was refused or failed.
#[derive(Debug, PartialEq, Eq)]
pub enum LenvError {
    /// The environment name is empty.
    EmptyName,
    /// The environment name is longer than 64 bytes.
    NameTooLong,
    /// The environment name holds a character other than an ASCII letter, digit, `-` or `_`.
    InvalidNameChar,
    /// A mount specification is not of the form `HOST_DIR:CONTAINER_DIR`; holds the specification.
    InvalidMount(String),
    /// The environment's container does not exist.
    EnvironmentMissing,
    /// Neither `/bin/bash` nor `/bin/sh` can be run in the container.
    NoUsableShell,
    /// A shell command run inside the container failed; holds the command.
    CommandFailed(String),
    /// `docker run` failed.
    CreateFailed,
    /// `docker rm` failed.
    RemoveFailed,
    /// `docker start` failed.
    StartFailed,
    /// `docker stop` failed.
    StopFailed,
    /// `docker restart` failed.
    RestartFailed,
    /// The operating system could not carry out a request; holds its description.
    Io(String),
}

impl LenvError {
    /// The text shown to the user for this error.
    pub open spec fn spec_message(&self) -> Seq<char> {
        match self {
            LenvError::EmptyName => "environment name cannot be empty"@,
            LenvError::NameTooLong => "environment name is too long"@,
            LenvError::InvalidNameChar => "environment name may only contain letters, numbers, '-' and '_'"@,
            LenvError::InvalidMount(spec) => "invalid mount '"@ + spec@
                + "': expected HOST_DIR:CONTAINER_DIR"@,
            LenvError::EnvironmentMissing => "environment does not exist"@,
            LenvError::NoUsableShell => "no usable shell found"@,
            LenvError::CommandFailed(cmd) => "command failed: "@ + cmd@,
            LenvError::CreateFailed => "failed to create container"@,
            LenvError::RemoveFailed => "failed to remove container"@,
            LenvError::StartFailed => "failed to start container"@,
            LenvError::StopFailed => "failed to stop container"@,
            LenvError::RestartFailed => "failed to restart container"@,
            LenvError::Io(what) => what@,
        }
    }

    /// The text shown to the user for this error.
    pub fn message(&self) -> (m: String)
        ensures
            m@ == self.spec_message(),
    {
        match self {
            LenvError::EmptyName => owned("environment name cannot be empty"),
            LenvError::NameTooLong => owned("environment name is too long"),
            LenvError::InvalidNameChar => owned(
                "environment name may only contain letters, numbers, '-' and '_'",
            ),
            LenvError::InvalidMount(spec) => concat3(
                "invalid mount '",
                spec.as_str(),
                "': expected HOST_DIR:CONTAINER_DIR",
            ),
            LenvError::EnvironmentMissing => owned("environment does not exist"),
            LenvError::NoUsableShell => owned("no usable shell found"),
            LenvError::CommandFailed(cmd) => concat2("command failed: ", cmd.as_str()),
            LenvError::CreateFailed => owned("failed to create container"),
            LenvError::RemoveFailed => owned("failed to remove container"),
            LenvError::StartFailed => owned("failed to start container"),
            LenvError::StopFailed => owned("failed to stop container"),
            LenvError::RestartFailed => owned("failed to restart container"),
            LenvError::Io(what) => owned(what.as_str()),
        }
    }
}

} // verus!
