//! Project files as the user interface shows them: the tree, the version-control
//! status and the differences.

pub mod diff;
pub mod discover;
pub mod git_helpers;
pub mod tree;
pub mod types;
