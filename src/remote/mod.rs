//! The remote shell.
pub mod server;
