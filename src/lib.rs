//! A register-based virtual machine together with a two-pass assembler for
//! its textual instruction language.
pub mod assembler;
pub mod bytes;
pub mod cluster;
pub mod host;
pub mod instruction;
pub mod remote;
pub mod repl;
pub mod scheduler;
pub mod text;
pub mod vm;
