use vstd::prelude::*;
use crate::path::{join, join_spec};

verus! {

/// One invocation of `git`: its arguments, and the directory it runs in, if not the
/// current one.
#[derive(Debug, Clone, PartialEq, Eq)]
pub struct GitCommand {
    pub dir: Option<String>,
    pub args: Vec<String>,
}

/// The arguments of a command, as values.
pub open spec fn args_of(c: GitCommand) -> Seq<Seq<char>> {
    c.args@.map_values(|s: String| s@)
}

/// The directory a command runs in, as a value.
pub open spec fn dir_of(c: GitCommand) -> Option<Seq<char>> {
    match c.dir {
        Some(d) => Some(d@),
        None => None,
    }
}

/// The checkout location below the home directory.
pub open spec fn dotfiles_dir_spec(home: Seq<char>) -> Seq<char> {
    join_spec(home, "dotfiles"@)
}

/// The directory the dotfiles repository is checked out in: `dotfiles` below the
/// home directory.
pub fn dotfiles_dir(home: &str) -> (r: String)
    ensures
        r@ == dotfiles_dir_spec(home@),
{
    join(home, "dotfiles")
}

/// A command of the given arguments, run in `dir`.
fn command_in(dir: Option<&str>, args: Vec<String>) -> (r: GitCommand)
    ensures
        r.args@ == args@,
        dir_of(r) == (match dir {
            Some(d) => Some(d@),
            None => None::<Seq<char>>,
        }),
{
    let dir = match dir {
        Some(d) => Some(String::from_str(d)),
        None => None,
    };
    GitCommand { dir, args }
}

/// Clones the repository at `url` into the checkout directory.
pub fn gclone(url: String, checkout: &str) -> (r: GitCommand)
    ensures
        dir_of(r) is None,
        args_of(r) == seq!["clone"@, url@, checkout@],
{
    let mut args: Vec<String> = Vec::new();
    args.push(String::from_str("clone"));
    args.push(url);
    args.push(String::from_str(checkout));
    let r = command_in(None, args);
    assert(args_of(r) =~= seq!["clone"@, r.args@[1]@, checkout@]);
    r
}

/// Stages every change of the checkout, commits it with `message` and pushes local
/// `main` to `branch` of `origin`: three commands, run in this order in the checkout.
pub fn gpush(branch: String, message: String, checkout: &str) -> (r: Vec<GitCommand>)
    ensures
        r@.len() == 3,
        forall|i: int| 0 <= i < 3 ==> dir_of(#[trigger] r@[i]) == Some(checkout@),
        args_of(r@[0]) == seq!["add"@, "-A"@],
        args_of(r@[1]) == seq!["commit"@, "-m"@, message@],
        args_of(r@[2]) == seq!["push"@, "origin"@, "main:"@ + branch@],
{
    let mut add: Vec<String> = Vec::new();
    add.push(String::from_str("add"));
    add.push(String::from_str("-A"));
    let ghost m = message@;
    let mut commit: Vec<String> = Vec::new();
    commit.push(String::from_str("commit"));
    commit.push(String::from_str("-m"));
    commit.push(message);
    let mut push: Vec<String> = Vec::new();
    push.push(String::from_str("push"));
    push.push(String::from_str("origin"));
    push.push(String::from_str("main:").concat(branch.as_str()));
    let mut r: Vec<GitCommand> = Vec::new();
    r.push(command_in(Some(checkout), add));
    r.push(command_in(Some(checkout), commit));
    r.push(command_in(Some(checkout), push));
    assert(args_of(r@[0]) =~= seq!["add"@, "-A"@]);
    assert(args_of(r@[1]) =~= seq!["commit"@, "-m"@, m]);
    assert(args_of(r@[2]) =~= seq!["push"@, "origin"@, "main:"@ + branch@]);
    r
}

/// Pulls `branch` of `origin` into local `main`, in the checkout.
pub fn gpull(branch: String, checkout: &str) -> (r: GitCommand)
    ensures
        dir_of(r) == Some(checkout@),
        args_of(r) == seq!["pull"@, "origin"@, branch@ + ":main"@],
{
    let mut args: Vec<String> = Vec::new();
    args.push(String::from_str("pull"));
    args.push(String::from_str("origin"));
    args.push(branch.concat(":main"));
    let r = command_in(Some(checkout), args);
    assert(args_of(r) =~= seq!["pull"@, "origin"@, r.args@[2]@]);
    r
}

/// Shows the status of the checkout.
pub fn gstatus(checkout: &str) -> (r: GitCommand)
    ensures
        dir_of(r) == Some(checkout@),
        args_of(r) == seq!["status"@],
{
    let mut args: Vec<String> = Vec::new();
    args.push(String::from_str("status"));
    let r = command_in(Some(checkout), args);
    assert(args_of(r) =~= seq!["status"@]);
    r
}

/// Shows the history of the checkout.
pub fn glog(checkout: &str) -> (r: GitCommand)
    ensures
        dir_of(r) == Some(checkout@),
        args_of(r) == seq!["log"@],
{
    let mut args: Vec<String> = Vec::new();
    args.push(String::from_str("log"));
    let r = command_in(Some(checkout), args);
    assert(args_of(r) =~= seq!["log"@]);
    r
}

/// The commit message: the one given, or else the time of the commit.
pub fn commit_message(message: Option<String>, now: String) -> (r: String)
    ensures
        r@ == (match message {
            Some(m) => m@,
            None => now@,
        }),
{
    match message {
        Some(m) => m,
        None => now,
    }
}

/// The decimal digit for `d`.
pub open spec fn digit(d: nat) -> char {
    seq!['0', '1', '2', '3', '4', '5', '6', '7', '8', '9'][d as int]
}

/// `n` in decimal, padded with leading zeros to at least `w` digits.
pub open spec fn padded(n: nat, w: nat) -> Seq<char>
    decreases n, w,
{
    if n < 10 && w <= 1 {
        seq![digit(n)]
    } else {
        padded(n / 10, if w > 0 {
            (w - 1) as nat
        } else {
            0
        }) + seq![digit(n % 10)]
    }
}

/// The time written `YYYY-MM-DD HH:MM:SS`, each field zero-padded to its width.
pub open spec fn timestamp_spec(
    year: nat,
    month: nat,
    day: nat,
    hour: nat,
    minute: nat,
    second: nat,
) -> Seq<char> {
    padded(year, 4) + seq!['-'] + padded(month, 2) + seq!['-'] + padded(day, 2) + seq![' ']
        + padded(hour, 2) + seq![':'] + padded(minute, 2) + seq![':'] + padded(second, 2)
}

/// `n` in decimal, padded with leading zeros to at least `w` digits.
fn pad(n: u32, w: usize) -> (r: String)
    ensures
        r@ == padded(n as nat, w as nat),
    decreases n, w,
{
    proof {
        reveal_strlit("0123456789");
    }
    let digits = "0123456789";
    assert(digits@ =~= seq!['0', '1', '2', '3', '4', '5', '6', '7', '8', '9']);
    let d = (n % 10) as usize;
    let last = digits.substring_char(d, d + 1);
    assert(last@ =~= seq![digit((n % 10) as nat)]);
    if n < 10 && w <= 1 {
        String::from_str(last)
    } else {
        let mut r = pad(n / 10, if w > 0 {
            w - 1
        } else {
            0
        });
        r.append(last);
        r
    }
}

/// Writes a time as `YYYY-MM-DD HH:MM:SS`, the form of a commit message made when
/// none is given.
pub fn timestamp(year: u32, month: u32, day: u32, hour: u32, minute: u32, second: u32) -> (r:
    String)
    ensures
        r@ == timestamp_spec(
            year as nat,
            month as nat,
            day as nat,
            hour as nat,
            minute as nat,
            second as nat,
        ),
{
    proof {
        reveal_strlit("-");
        reveal_strlit(" ");
        reveal_strlit(":");
    }
    let mut r = pad(year, 4);
    r.append("-");
    r.append(pad(month, 2).as_str());
    r.append("-");
    r.append(pad(day, 2).as_str());
    r.append(" ");
    r.append(pad(hour, 2).as_str());
    r.append(":");
    r.append(pad(minute, 2).as_str());
    r.append(":");
    r.append(pad(second, 2).as_str());
    assert(r@ =~= timestamp_spec(
        year as nat,
        month as nat,
        day as nat,
        hour as nat,
        minute as nat,
        second as nat,
    ));
    r
}

} // verus!
