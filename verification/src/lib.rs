//! Orchestration logic for building a vendored TASSL source tree with its
//! native `configure`/`make` toolchain.
//!
//! The library holds every decision the orchestration makes: how the build
//! and install directories are laid out, which configuration command fits a
//! target platform, which entries of the source tree are copied, in what
//! order the external steps run, and how a failure of any step is reported.
//! The filesystem and subprocess work itself is left to the caller, which
//! drives a [`session::BuildSession`]: it performs each requested
//! [`session::Action`] and feeds the outcome back as a [`session::Event`].

pub mod artifacts;
pub mod builder;
pub mod command;
pub mod config;
pub mod copy;
pub mod errors;
pub mod laws;
pub mod paths;
pub mod session;
