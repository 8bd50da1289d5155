use vstd::prelude::*;
use crate::git::{args_of, commit_message, dir_of, gclone, glog, gpull, gpush, gstatus, GitCommand};

verus! {

/// The command line: one action.
#[derive(Debug, Clone, PartialEq, Eq)]
pub struct Args {
    pub action: Action,
}

/// What the user asked for.
#[derive(Debug, Clone, PartialEq, Eq)]
pub enum Action {
    /// Clone the repository at `url` into the checkout, then link its files.
    Init { url: String },
    /// Commit every change, with `message` or else the time, and push to `branch`.
    Push { branch: String, message: Option<String> },
    /// Pull `branch` and merge it into local `main`.
    Pull { branch: String },
    /// Move `file` into the checkout and link it back.
    Add { file: String },
    /// Link the files of the existing checkout; with `backup`, entries in the way are
    /// moved aside instead of stopping the run.
    Setup { backup: bool },
    /// Show the status of the checkout.
    Status {},
    /// Show the history of the checkout.
    Log {},
}

/// Whether the action ends with linking the checkout's files into place.
pub open spec fn runs_setup_spec(a: Action) -> bool {
    a is Init || a is Setup
}

/// Whether the action ends with linking the checkout's files into place.
pub fn runs_setup(action: &Action) -> (r: bool)
    ensures
        r == runs_setup_spec(*action),
{
    match action {
        Action::Init { .. } => true,
        Action::Setup { .. } => true,
        _ => false,
    }
}

/// The `git` commands that carry out the action, in order, in the checkout at
/// `checkout`; `now` is the commit message where none was given. `Add` and `Setup`
/// need none.
pub fn vcs_commands(action: Action, checkout: &str, now: String) -> (r: Vec<GitCommand>)
    ensures
        match action {
            Action::Init { url } => r@.len() == 1 && dir_of(r@[0]) is None && args_of(r@[0])
                == seq!["clone"@, url@, checkout@],
            Action::Push { branch, message } => {
                &&& r@.len() == 3
                &&& forall|i: int| 0 <= i < 3 ==> dir_of(#[trigger] r@[i]) == Some(checkout@)
                &&& args_of(r@[0]) == seq!["add"@, "-A"@]
                &&& args_of(r@[1]) == seq![
                    "commit"@,
                    "-m"@,
                    match message {
                        Some(m) => m@,
                        None => now@,
                    },
                ]
                &&& args_of(r@[2]) == seq!["push"@, "origin"@, "main:"@ + branch@]
            },
            Action::Pull { branch } => r@.len() == 1 && dir_of(r@[0]) == Some(checkout@)
                && args_of(r@[0]) == seq!["pull"@, "origin"@, branch@ + ":main"@],
            Action::Status {} => r@.len() == 1 && dir_of(r@[0]) == Some(checkout@) && args_of(
                r@[0],
            ) == seq!["status"@],
            Action::Log {} => r@.len() == 1 && dir_of(r@[0]) == Some(checkout@) && args_of(r@[0])
                == seq!["log"@],
            Action::Add { .. } => r@.len() == 0,
            Action::Setup { .. } => r@.len() == 0,
        },
{
    let mut r: Vec<GitCommand> = Vec::new();
    match action {
        Action::Init { url } => {
            r.push(gclone(url, checkout));
        },
        Action::Push { branch, message } => {
            let msg = commit_message(message, now);
            r = gpush(branch, msg, checkout);
        },
        Action::Pull { branch } => {
            r.push(gpull(branch, checkout));
        },
        Action::Status {} => {
            r.push(gstatus(checkout));
        },
        Action::Log {} => {
            r.push(glog(checkout));
        },
        Action::Add { .. } => {},
        Action::Setup { .. } => {},
    }
    r
}

} // verus!
