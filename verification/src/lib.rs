//! Materializes declared secrets into a process's environment and file
//! system, then hands control to a target program by replacing the
//! process image.
//!
//! The crate holds the decision logic of that pipeline: command-line
//! parsing, the null-terminated marshaling demanded at the
//! operating-system boundary, translation of system-call results into
//! errors, and the planning rules that keep secret files idempotent and
//! never world-readable. The surrounding binary performs the actual
//! system calls, file writes, and secret fetches, and consults this
//! crate for every decision.

pub mod args;
pub mod chmod;
pub mod exec;
pub mod marshal;
pub mod materialize;
