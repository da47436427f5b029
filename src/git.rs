//! Branch data as read from the repository.
pub mod branching;
