//! A library for mirroring the top-level entries of source directories into a
//! destination directory with symbolic links: the reconciliation planner that
//! decides which links to create, replace or delete, the retry policy for
//! unavailable directories, and the per-pair supervisor state machine that
//! waits for directories to appear, mirrors them, and re-mirrors on change.

pub mod cli;
pub mod config;
pub mod supervisor;
pub mod sync;
pub mod util;
