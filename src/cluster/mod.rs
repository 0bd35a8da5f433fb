//! Machines that work together.
pub mod message;
