//! Finding, and where needed installing, the `nargo` binary behind a Noir
//! language-server integration, and building the command that launches it.
//!
//! The crate decides; it performs no I/O. Every question about the outside
//! world (settings, `PATH`, the file system, the network) is put to the host
//! as a [`resolver::Action`], and the host's answer comes back as an
//! [`resolver::Event`].

pub mod command;
pub mod error;
pub mod laws;
pub mod platform;
pub mod release;
pub mod resolver;
pub mod text;
