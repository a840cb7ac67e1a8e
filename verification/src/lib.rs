//! Bulk deletion of local branches, as a sequence of decisions.
//!
//! The crate holds the rules of an interactive branch clean-up: which branches
//! may be offered for deletion, what the operator is asked, how the outcome of
//! each deletion is tallied and what is reported. It never touches a
//! repository or a terminal itself: a driver performs each [`workflow::Action`]
//! and hands the result back as an [`workflow::Event`].

pub mod batch;
pub mod candidates;
pub mod laws;
pub mod listing;
pub mod report;
pub mod workflow;
