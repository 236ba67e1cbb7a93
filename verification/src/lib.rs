//! Launches and monitors child processes with enough diagnostic fidelity to
//! distinguish clean exits, crashes, fast-fails and external kills.
#![allow(unused_imports)]

pub mod argv;
pub mod client;
pub mod cmdline;
pub mod command;
pub mod decimal;
pub mod env;
pub mod handles;
pub mod iocp;
pub mod monitor;
pub mod pump;
pub mod sentinel;
pub mod termination;
pub mod wide;

pub use termination::{ExitStatus, TerminationReason};
