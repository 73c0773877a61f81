//! Collects deterministic quality facts about a source repository and hands
//! them to an external policy evaluator.
//!
//! The library holds the decision logic: which checks a language adapter runs,
//! which fact key each check populates, how recorded outcomes become a facts
//! mapping, and how that mapping is encoded as JSON.  Spawning the check
//! commands, reading the repository, and invoking the evaluator are left to
//! the surrounding binary.

pub mod adapters;
pub mod facts;
pub mod orchestrator;
pub mod text;
