//! A popup that lists the submodules of a repository: which record is
//! selected, which rows are on screen, what the two panes show, and what a
//! key press does.

pub mod components;
pub mod keys;
pub mod width;
