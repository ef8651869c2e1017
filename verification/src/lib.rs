//! Commit-attribution statistics for version-controlled projects.
//!
//! The crate discovers repository roots in a modelled directory tree and,
//! for each repository, tallies how many commit objects in its object store
//! carry a committer record matching a target identity.

pub mod analysis;
pub mod commit;
pub mod git_store;
pub mod locate;
