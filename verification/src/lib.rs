//! Driver layer for an external, Docker-compatible container runtime.
//!
//! The crate compiles declarative workload descriptions into exact,
//! byte-precise argument vectors for the runtime executable and for an
//! external image-store migration tool, and interprets the runtime's
//! answers (exit status, standard streams, pidfile contents) to resolve
//! a container's OS process id.  Compilation is pure: no function here
//! touches the filesystem, the network, or a process.  Spawning the
//! compiled invocations is left to the embedding application.

pub mod cmd;
pub mod compile;
pub mod context;
pub mod encode;
pub mod error;
pub mod migrate;
pub mod pid;
pub mod props;
pub mod text;

pub use cmd::Cmd;
pub use compile::{
    base_command, image_exists, images, info_command, inspect_command, pull, rm, rmi,
    run_command, run_from_edf_command, version_command,
};
pub use context::{ContainerCtx, Edf, KeyVal, PodmanCtx};
pub use encode::key_val;
pub use error::DriverError;
pub use migrate::{parallax_command, parallax_migrate, parallax_outcome, parallax_rmi};
pub use pid::{default_pidfile_path, get_container_pid, parse_pid};
