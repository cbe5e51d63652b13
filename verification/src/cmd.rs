//! The commands of the launcher.

pub mod mount;
