//! A configuration-driven check runner.
//!
//! The crate models an ordered list of checks (version gates, git hygiene
//! checks, external commands), executes them sequentially against a
//! repository, classifies the outcome of every spawned process, and drives
//! the fail / fix / re-verify protocol.

pub mod checks;
pub mod config;
pub mod driver;
pub mod errors;
pub mod runner;
pub mod strutil;
pub mod toolchain;
pub mod versions;
