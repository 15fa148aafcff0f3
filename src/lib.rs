//! An anonymous forum engine: groups, posts, sub-posts and exactly-once voting.
//!
//! Membership proofs are checked by an outside membership service; every
//! operation here receives that service's answer as a plain value and decides
//! the state transition from it.

pub mod word;
pub mod table;
pub mod forum;
pub mod laws;
