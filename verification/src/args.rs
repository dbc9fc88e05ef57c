//! What the user asked for: the two kernel versions and the stages to run.

use vstd::prelude::*;

verus! {

/// The optional sub-command: a single stage to run instead of the full upgrade.
#[derive(Clone, Copy, Debug, PartialEq, Eq, Structural)]
pub enum Commands {
    DkmsInstall,
    KernelCompile,
}

/// The stages that an invocation runs before the initramfs and the bootloader
/// are refreshed.
#[derive(Clone, Copy, Debug, PartialEq, Eq, Structural)]
pub enum RunMode {
    CompileOnly,
    DkmsOnly,
    Full,
}

/// The parsed command line.
pub struct Arguments {
    /// Version of the kernel that is being replaced.
    pub old: String,
    /// Version of the kernel that is being installed.
    pub new: String,
    /// The stage to run alone, if any.
    pub command: Option<Commands>,
}

/// The run mode that a sub-command selects; none selects the full upgrade.
pub open spec fn mode_of(command: Option<Commands>) -> RunMode {
    match command {
        Some(Commands::DkmsInstall) => RunMode::DkmsOnly,
        Some(Commands::KernelCompile) => RunMode::CompileOnly,
        None => RunMode::Full,
    }
}

impl Arguments {
    /// The run mode that these arguments select.
    pub fn run_mode(&self) -> (mode: RunMode)
        ensures
            mode == mode_of(self.command),
    {
        match self.command {
            Some(Commands::DkmsInstall) => RunMode::DkmsOnly,
            Some(Commands::KernelCompile) => RunMode::CompileOnly,
            None => RunMode::Full,
        }
    }
}

} // verus!
