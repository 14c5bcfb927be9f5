//! CLI argument model, interactive commands and authentication prompts.
//!
//! - `args`: the subcommand tree (`Cli`, `Command`, `*Args` / `*Op`)
//! - `auth_prompt`: decisions behind the interactive authentication prompts
//! - `commands`: interactive-mode commands and the command prompt
use vstd::prelude::*;

pub mod args;
pub mod auth_prompt;
pub mod commands;
pub mod completion;
pub mod start;

pub use args::{
    default_mountpoint, resolve_mountpoint, AuthArgs, AuthOp, BackupArgs, BackupOp, Cli, Command,
    CryptoArgs, CryptoOp, MountArgs, StartArgs,
};
pub use auth_prompt::AuthChoice;
pub use commands::{CommandPrompt, InteractiveCommand};

verus! {

/// Initialize the CLI module (nothing to set up).
pub fn init() {
}

} // verus!
