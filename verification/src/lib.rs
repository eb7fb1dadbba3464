//! Verified core of a GNOME Shell extension installer.
//!
//! The installer runs a fixed, linear pipeline: probe for required tools,
//! detect a system package manager, install what is missing, clone the
//! extension's repository, configure and build it, and enable the result.
//! Every external command is launched by an unverified driver; everything
//! the program decides — which tools are missing, which manager to use,
//! which command to run next, what to print, and when to halt — is computed
//! here and verified against the state machine in [`machine`].

pub mod commands;
pub mod deps;
pub mod machine;
pub mod manager;
