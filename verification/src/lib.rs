//! The decisions behind two file commands of a desktop application: saving
//! text to a path and reading it back.
//!
//! The library performs no I/O. Each command is a small machine: its state
//! names the request that the host has to carry out next, and `step` takes
//! what the system answered and gives the state that follows. The failure
//! messages that the commands hand to their caller are built here.

pub mod failure;
pub mod save;
pub mod read;
