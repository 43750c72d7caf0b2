//! Core logic of a tool that runs one version-control command across every
//! repository found beneath a directory, in parallel, and reports the
//! results.
//!
//! The library holds the decisions and their proofs: which walk entries mark
//! a repository, how an exit status is classified, how a task's captured
//! output is assembled, how the worker-pool size is resolved, and how
//! results are tallied and summarised. The binary around it does the
//! walking, the spawning, and the printing.

pub mod discover;
pub mod numfmt;
pub mod outcome;
pub mod poolsize;
pub mod record;
pub mod report;
pub mod tally;
