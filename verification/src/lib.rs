//! Drafting a commit message from staged changes with a hosted chat model:
//! the decisions of the pipeline, from the outcome of each external step to
//! the next step, with every rule stated as a contract.

pub mod confirm;
pub mod error;
pub mod pipeline;
pub mod request;
pub mod response;
pub mod sanitize;
pub mod text;
pub mod vcs;
