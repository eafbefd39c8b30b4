//! The decisions behind a desktop shell's `open_url` command.
//!
//! The command hands an address to the operating system's default handler and
//! writes to the console. This crate holds what the command decides: which
//! target goes to the handler, what is announced beforehand, and what is
//! written once the handler has answered. Launching and printing are left to
//! the host, which passes plain values in and out.

pub mod command;
pub mod wording;

pub use command::{open_url, OpenRequest, Outcome};
