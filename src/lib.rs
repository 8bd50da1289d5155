//! A dotfiles manager's core: repository paths under a `HOME` or `ROOT` marker are
//! resolved to their places in the filesystem, and a per-path state machine decides
//! whether a link there is made, already correct, or a conflict that stops the run.
//! Filesystem access, `git` processes and the command line are left to the caller,
//! which hands in what it observed and carries out what is decided.
pub mod add;
pub mod cli;
pub mod error;
pub mod git;
pub mod model;
pub mod path;
pub mod reconcile;
pub mod walk;
