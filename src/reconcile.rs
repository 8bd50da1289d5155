use vstd::prelude::*;
use crate::error::{DotError, ErrView};
use crate::path::{
    home_or_empty, join, join_spec, lacks_home, resolve_path, same_path, same_path_spec, strs_view,
    target_spec,
};

verus! {

/// One link to establish: the file `dest` inside the checkout, linked from `target`.
#[derive(Debug, Clone, PartialEq, Eq)]
pub struct LinkPlan {
    /// The repository path, relative to the checkout.
    pub repo_path: String,
    /// Where the link stands.
    pub target: String,
    /// Where the link points: the repository file inside the checkout.
    pub dest: String,
}

/// The mathematical value of a `LinkPlan`.
pub struct PlanView {
    pub repo_path: Seq<char>,
    pub target: Seq<char>,
    pub dest: Seq<char>,
}

impl View for LinkPlan {
    type V = PlanView;

    open spec fn view(&self) -> PlanView {
        PlanView { repo_path: self.repo_path@, target: self.target@, dest: self.dest@ }
    }
}

/// The plan for one repository path; `None` for a path that is skipped.
pub open spec fn plan_spec(p: Seq<char>, home: Seq<char>, checkout: Seq<char>) -> Option<PlanView> {
    match target_spec(p, home) {
        Some(t) => Some(PlanView { repo_path: p, target: t, dest: join_spec(checkout, p) }),
        None => None,
    }
}

/// The plans for a sequence of repository paths, in their order, skipped paths left out.
pub open spec fn plans_spec(ps: Seq<Seq<char>>, home: Seq<char>, checkout: Seq<char>) -> Seq<
    PlanView,
>
    decreases ps.len(),
{
    if ps.len() == 0 {
        Seq::empty()
    } else {
        let prev = plans_spec(ps.drop_last(), home, checkout);
        match plan_spec(ps.last(), home, checkout) {
            Some(v) => prev.push(v),
            None => prev,
        }
    }
}

/// The values of a sequence of plans.
pub open spec fn plans_view(v: Seq<LinkPlan>) -> Seq<PlanView> {
    v.map_values(|p: LinkPlan| p@)
}

/// Resolves every repository path of the checkout at `checkout` into the link it needs,
/// skipping those without a root marker. Fails, before anything is linked, when a
/// `HOME` path is in the checkout and no home directory is known.
pub fn setup(paths: &Vec<String>, home: Option<&str>, checkout: &str) -> (r: Result<
    Vec<LinkPlan>,
    DotError,
>)
    ensures
        r is Err <==> exists|i: int| 0 <= i < paths@.len() && lacks_home(#[trigger] paths@[i]@, home),
        r matches Err(e) ==> e@ == ErrView::MissingHome,
        r matches Ok(v) ==> plans_view(v@) == plans_spec(
            strs_view(paths@),
            home_or_empty(home),
            checkout@,
        ),
{
    let ghost ps = strs_view(paths@);
    let ghost h = home_or_empty(home);
    let mut out: Vec<LinkPlan> = Vec::new();
    let mut i: usize = 0;
    while i < paths.len()
        invariant
            i <= paths@.len(),
            ps == strs_view(paths@),
            h == home_or_empty(home),
            plans_view(out@) == plans_spec(ps.take(i as int), h, checkout@),
            forall|j: int| 0 <= j < i ==> !lacks_home(#[trigger] paths@[j]@, home),
        decreases paths@.len() - i,
    {
        let p = &paths[i];
        let ghost before = out@;
        assert(ps.take(i + 1).drop_last() =~= ps.take(i as int));
        assert(ps.take(i + 1).last() == p@);
        match resolve_path(p.as_str(), home) {
            Err(e) => {
                return Err(e);
            },
            Ok(None) => {},
            Ok(Some(target)) => {
                let dest = join(checkout, p.as_str());
                out.push(LinkPlan { repo_path: p.clone(), target, dest });
                assert(plans_view(out@) =~= plans_view(before).push(out@.last()@));
            },
        }
        i += 1;
    }
    assert(ps.take(i as int) =~= ps);
    Ok(out)
}

/// What is found at a link's target path.
pub enum Node {
    /// A symbolic link, with the path it points to.
    Link(Seq<char>),
    /// A file, a directory or any other entry that is not a symbolic link.
    Other,
}

/// What was observed at a target path just before deciding on it.
#[derive(Debug, Clone, PartialEq, Eq)]
pub enum TargetState {
    /// Nothing is there.
    Absent,
    /// A symbolic link pointing to the given path.
    LinkTo(String),
    /// An entry that is not a symbolic link.
    Occupied,
}

impl View for TargetState {
    type V = Option<Node>;

    open spec fn view(&self) -> Option<Node> {
        match self {
            TargetState::Absent => None,
            TargetState::LinkTo(p) => Some(Node::Link(p@)),
            TargetState::Occupied => Some(Node::Other),
        }
    }
}

/// Where one repository path ends up, given what stands at its target.
pub enum Outcome {
    /// The link is already there and points to the checkout file, component by
    /// component.
    Correct,
    /// Nothing is there: the link is to be made.
    Linked,
    /// A link is there and points to the given other place.
    Wrong(Seq<char>),
    /// Something that is not a link is there.
    Exists,
}

/// The outcome for a plan, given what stands at its target.
pub open spec fn outcome(plan: PlanView, node: Option<Node>) -> Outcome {
    match node {
        None => Outcome::Linked,
        Some(Node::Link(a)) => if same_path_spec(a, plan.dest) {
            Outcome::Correct
        } else {
            Outcome::Wrong(a)
        },
        Some(Node::Other) => Outcome::Exists,
    }
}

/// The conflict that an outcome stops the run with, if any.
pub open spec fn error_of(plan: PlanView, o: Outcome) -> Option<ErrView> {
    match o {
        Outcome::Wrong(a) => Some(
            ErrView::WrongLink { path: plan.target, expected: plan.dest, actual: a },
        ),
        Outcome::Exists => Some(ErrView::AlreadyExists { path: plan.target }),
        _ => None,
    }
}

/// What to do for one plan.
#[derive(Debug, Clone, PartialEq, Eq)]
pub enum Step {
    /// Nothing: the link is in place.
    AlreadyCorrect,
    /// Create the target's missing parent directories, then the link.
    Link,
    /// Move the entry at the target to `to`, creating its parent directories, then
    /// proceed as for `Link`.
    MoveAside { to: String },
}

/// Decides what to do at a plan's target, given what was found there. A link to
/// the checkout file is left alone; an empty place gets the link; a link elsewhere
/// or any other entry is a conflict that names the target path.
pub fn decide(plan: &LinkPlan, state: &TargetState) -> (r: Result<Step, DotError>)
    ensures
        match r {
            Ok(Step::AlreadyCorrect) => outcome(plan@, state@) == Outcome::Correct,
            Ok(Step::Link) => outcome(plan@, state@) == Outcome::Linked,
            Ok(Step::MoveAside { .. }) => false,
            Err(e) => error_of(plan@, outcome(plan@, state@)) == Some(e@),
        },
{
    match state {
        TargetState::Absent => Ok(Step::Link),
        TargetState::LinkTo(actual) => {
            if same_path(actual.as_str(), plan.dest.as_str()) {
                Ok(Step::AlreadyCorrect)
            } else {
                Err(
                    DotError::WrongLink {
                        path: plan.target.clone(),
                        expected: plan.dest.clone(),
                        actual: actual.clone(),
                    },
                )
            }
        },
        TargetState::Occupied => Err(DotError::AlreadyExists { path: plan.target.clone() }),
    }
}

/// The directory that entries moved aside in one run go to: the run's own
/// `stamp` below `.dotfiles_backup` in the home directory, so that no run reuses
/// another's.
pub fn backup_dir(home: &str, stamp: &str) -> (r: String)
    ensures
        r@ == join_spec(join_spec(home@, ".dotfiles_backup"@), stamp@),
{
    let base = join(home, ".dotfiles_backup");
    join(base.as_str(), stamp)
}

/// Decides as `decide` does, except that an entry which is not a link is moved
/// aside, to its repository path below `backup`, instead of stopping the run.
pub fn decide_with_backup(plan: &LinkPlan, state: &TargetState, backup: &str) -> (r: Result<
    Step,
    DotError,
>)
    ensures
        state@ == Some(Node::Other) ==> (r matches Ok(Step::MoveAside { to }) && to@ == join_spec(
            backup@,
            plan@.repo_path,
        )),
        state@ != Some(Node::Other) ==> match r {
            Ok(Step::AlreadyCorrect) => outcome(plan@, state@) == Outcome::Correct,
            Ok(Step::Link) => outcome(plan@, state@) == Outcome::Linked,
            Ok(Step::MoveAside { .. }) => false,
            Err(e) => error_of(plan@, outcome(plan@, state@)) == Some(e@),
        },
{
    match state {
        TargetState::Occupied => Ok(Step::MoveAside { to: join(backup, plan.repo_path.as_str()) }),
        _ => decide(plan, state),
    }
}

} // verus!
