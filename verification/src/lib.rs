//! Planning and sequencing of a kernel upgrade: which external commands to
//! run, in which order, and what each of their outcomes means for the rest.
//!
//! The library never touches the machine. It hands out [`Action`]s, takes
//! back their [`Outcome`]s, and decides what follows.

pub mod args;
pub mod command;
pub mod cores;
pub mod dkms;
pub mod error;
pub mod plan;
pub mod process;
pub mod runs;
pub mod text;
pub mod workflow;

pub use args::{Arguments, Commands, RunMode};
pub use command::{Action, Invocation};
pub use cores::{get_cores, job_count};
pub use dkms::get_nvidia_version;
pub use error::UpdateError;
pub use plan::{
    dkms_install, dkms_status, kernel_compile, mkinitcpio, remove_dkms_files, update_grub,
};
pub use process::{check_exit, read_output, removal, Outcome, Removal};
pub use workflow::{Stage, Workflow};
