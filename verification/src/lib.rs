//! Git worktree management around a shared bare clone.

pub mod add;
pub mod bare_clone;
pub mod branch;
pub mod command;
pub mod laws;
pub mod list;
pub mod porcelain;
pub mod remove;
pub mod session;
pub mod text;
pub mod times;
pub mod tracking;
pub mod worktree;
