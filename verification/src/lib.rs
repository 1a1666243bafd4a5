//! Management of Linux environments kept in containers: the rules on
//! environment names, the command lines handed to the container runtime,
//! and the decisions taken on what it reports.
pub mod args;
pub mod cli;
pub mod docker;
pub mod doctor;
pub mod env;
pub mod error;
pub mod provisioning;
pub mod runtime;
pub mod text;
pub mod validation;

pub use cli::{Cli, Commands};
pub use docker::{
    detect_distro, exec_args, Distro, DockerRuntime, EnterAction, Lifecycle, ProvisionStep,
    ShellStep,
};
pub use doctor::{CheckReport, DoctorCheck};
pub use env::{parse_mount, Environment, Mount};
pub use error::LenvError;
pub use provisioning::create_user;
pub use runtime::{container_name, state_from_inspect, ContainerState, Runtime};
pub use validation::{sanitize_username, validate_name};
