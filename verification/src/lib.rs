//! The engine of a command-output cache: deriving the cache key of an
//! argument vector, judging whether a stored artifact is still fresh, and the
//! hit/miss procedure that decides what has to happen around the command.
//!
//! The library touches neither the file system nor the clock nor processes.
//! Its caller performs each step that the procedure asks for and reports back
//! what happened.

pub mod fingerprint;
pub mod freshness;
pub mod orchestrator;
pub mod runs;
