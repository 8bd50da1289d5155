use vstd::prelude::*;
use crate::error::ErrView;
use crate::path::same_path_spec;
use crate::reconcile::{error_of, outcome, plans_spec, Node, Outcome, PlanView};

verus! {

/// Whether `d` names a directory above the path `t`.
pub open spec fn is_ancestor(d: Seq<char>, t: Seq<char>) -> bool {
    0 < d.len() < t.len() && t.subrange(0, d.len() as int) == d && t[d.len() as int] == '/'
}

/// The filesystem after creating every missing directory above `t`.
pub open spec fn with_parents(fs: Map<Seq<char>, Node>, t: Seq<char>) -> Map<Seq<char>, Node> {
    Map::new(
        |k: Seq<char>| fs.contains_key(k) || is_ancestor(k, t),
        |k: Seq<char>|
            if fs.contains_key(k) {
                fs[k]
            } else {
                Node::Other
            },
    )
}

/// The filesystem after carrying out the outcome of one plan.
pub open spec fn apply(fs: Map<Seq<char>, Node>, plan: PlanView, o: Outcome) -> Map<
    Seq<char>,
    Node,
> {
    if o == Outcome::Linked {
        with_parents(fs, plan.target).insert(plan.target, Node::Link(plan.dest))
    } else {
        fs
    }
}

/// A strict reconciliation run over the plans, in order, on a filesystem: the filesystem
/// it leaves, and the conflict that stopped it, if one did.
pub open spec fn run(fs: Map<Seq<char>, Node>, plans: Seq<PlanView>) -> (Map<Seq<char>, Node>, Option<ErrView>)
    decreases plans.len(),
{
    if plans.len() == 0 {
        (fs, None)
    } else {
        let o = outcome(plans[0], fs.get(plans[0].target));
        match error_of(plans[0], o) {
            Some(e) => (fs, Some(e)),
            None => run(apply(fs, plans[0], o), plans.skip(1)),
        }
    }
}

/// Whether the plan's target is a link to its checkout file.
pub open spec fn links_to(fs: Map<Seq<char>, Node>, plan: PlanView) -> bool {
    fs.get(plan.target) matches Some(Node::Link(a)) && same_path_spec(a, plan.dest)
}

/// Whether an error is a conflict at a target path.
pub open spec fn is_conflict(e: ErrView) -> bool {
    e is AlreadyExists || e is WrongLink
}

/// A run never changes or removes an entry that was there before it.
proof fn lemma_run_keeps(fs: Map<Seq<char>, Node>, plans: Seq<PlanView>, k: Seq<char>)
    requires
        fs.contains_key(k),
    ensures
        run(fs, plans).0.contains_key(k),
        run(fs, plans).0[k] == fs[k],
    decreases plans.len(),
{
    if plans.len() > 0 {
        let o = outcome(plans[0], fs.get(plans[0].target));
        if error_of(plans[0], o) is None {
            let next = apply(fs, plans[0], o);
            assert(next.contains_key(k) && next[k] == fs[k]);
            lemma_run_keeps(next, plans.skip(1), k);
        }
    }
}

/// A run only ever stops on a conflict.
proof fn lemma_run_err_conflict(fs: Map<Seq<char>, Node>, plans: Seq<PlanView>)
    ensures
        run(fs, plans).1 matches Some(e) ==> is_conflict(e),
    decreases plans.len(),
{
    if plans.len() > 0 {
        let o = outcome(plans[0], fs.get(plans[0].target));
        if error_of(plans[0], o) is None {
            lemma_run_err_conflict(apply(fs, plans[0], o), plans.skip(1));
        }
    }
}

/// After a run that went through, every target is a link to its checkout file.
proof fn lemma_run_links(fs: Map<Seq<char>, Node>, plans: Seq<PlanView>, i: int)
    requires
        run(fs, plans).1 is None,
        0 <= i < plans.len(),
    ensures
        links_to(run(fs, plans).0, plans[i]),
    decreases plans.len(),
{
    let o = outcome(plans[0], fs.get(plans[0].target));
    let next = apply(fs, plans[0], o);
    if i == 0 {
        assert(next.contains_key(plans[0].target));
        assert(links_to(next, plans[0]));
        lemma_run_keeps(next, plans.skip(1), plans[0].target);
    } else {
        lemma_run_links(next, plans.skip(1), i - 1);
    }
}

/// Where every target already links to its checkout file, a run changes nothing.
proof fn lemma_run_stable(fs: Map<Seq<char>, Node>, plans: Seq<PlanView>)
    requires
        forall|i: int| 0 <= i < plans.len() ==> links_to(fs, #[trigger] plans[i]),
    ensures
        run(fs, plans) == (fs, Option::<ErrView>::None),
    decreases plans.len(),
{
    if plans.len() > 0 {
        assert(links_to(fs, plans[0]));
        let rest = plans.skip(1);
        assert forall|i: int| 0 <= i < rest.len() implies links_to(fs, #[trigger] rest[i]) by {
            assert(rest[i] == plans[i + 1]);
        }
        lemma_run_stable(fs, rest);
    }
}

/// A run over the first `i` plans, then over the rest where it went through, is the
/// run over all of them.
proof fn lemma_run_split(fs: Map<Seq<char>, Node>, plans: Seq<PlanView>, i: int)
    requires
        0 <= i <= plans.len(),
    ensures
        run(fs, plans) == (if run(fs, plans.take(i)).1 is Some {
            run(fs, plans.take(i))
        } else {
            run(run(fs, plans.take(i)).0, plans.skip(i))
        }),
    decreases i,
{
    if i == 0 {
        assert(plans.skip(0) =~= plans);
        assert(plans.take(0).len() == 0);
    } else {
        let o = outcome(plans[0], fs.get(plans[0].target));
        let pre = plans.take(i);
        assert(pre[0] == plans[0]);
        if error_of(plans[0], o) is None {
            let next = apply(fs, plans[0], o);
            assert(pre.skip(1) =~= plans.skip(1).take(i - 1));
            assert(plans.skip(1).skip(i - 1) =~= plans.skip(i));
            lemma_run_split(next, plans.skip(1), i - 1);
        }
    }
}

/// Reconciling twice in a row, stated of the model `run`, which carries out the
/// plans of `setup` with the outcomes that `decide` returns, as the caller's loop
/// does on the real filesystem: where the first run went through, the second finds
/// every link already correct, reports no conflict and leaves the model filesystem
/// as it was.
pub proof fn setup_is_idempotent(
    paths: Seq<Seq<char>>,
    home: Seq<char>,
    checkout: Seq<char>,
    fs: Map<Seq<char>, Node>,
)
    requires
        run(fs, plans_spec(paths, home, checkout)).1 is None,
    ensures
        ({
            let plans = plans_spec(paths, home, checkout);
            let after = run(fs, plans).0;
            &&& run(after, plans) == (after, Option::<ErrView>::None)
            &&& forall|i: int|
                0 <= i < plans.len() ==> outcome(plans[i], after.get(#[trigger] plans[i].target))
                    == Outcome::Correct
        }),
{
    let plans = plans_spec(paths, home, checkout);
    let after = run(fs, plans).0;
    assert forall|i: int| 0 <= i < plans.len() implies links_to(after, #[trigger] plans[i]) by {
        lemma_run_links(fs, plans, i);
    }
    lemma_run_stable(after, plans);
}

/// Stated of the model `run` (see `setup_is_idempotent`): a plan whose target is
/// already there as something other than a link makes the run fail with a conflict,
/// and the run leaves that entry as it was. Where every plan
/// before it went through, the error is that the target already exists.
pub proof fn conflict_on_existing_entry(
    paths: Seq<Seq<char>>,
    home: Seq<char>,
    checkout: Seq<char>,
    fs: Map<Seq<char>, Node>,
    i: int,
)
    requires
        0 <= i < plans_spec(paths, home, checkout).len(),
        fs.get(plans_spec(paths, home, checkout)[i].target) == Some(Node::Other),
    ensures
        ({
            let plans = plans_spec(paths, home, checkout);
            let t = plans[i].target;
            &&& run(fs, plans).1 matches Some(e) && is_conflict(e)
            &&& run(fs, plans).0.get(t) == Some(Node::Other)
            &&& run(fs, plans.take(i)).1 is None ==> run(fs, plans).1 == Some(
                ErrView::AlreadyExists { path: t },
            )
        }),
{
    let plans = plans_spec(paths, home, checkout);
    let t = plans[i].target;
    lemma_run_keeps(fs, plans, t);
    lemma_run_err_conflict(fs, plans);
    lemma_run_split(fs, plans, i);
    if run(fs, plans.take(i)).1 is None {
        lemma_run_keeps(fs, plans.take(i), t);
        assert(plans.skip(i)[0] == plans[i]);
    }
}

/// Stated of the model `run` (see `setup_is_idempotent`): a plan whose target is a
/// link to anywhere but its checkout file makes the run fail with a conflict, and the
/// run leaves that link as it was. Where every plan before
/// it went through, the error names the target, the checkout file it should point
/// to and the place it points to.
pub proof fn conflict_on_wrong_link(
    paths: Seq<Seq<char>>,
    home: Seq<char>,
    checkout: Seq<char>,
    fs: Map<Seq<char>, Node>,
    i: int,
    actual: Seq<char>,
)
    requires
        0 <= i < plans_spec(paths, home, checkout).len(),
        fs.get(plans_spec(paths, home, checkout)[i].target) == Some(Node::Link(actual)),
        !same_path_spec(actual, plans_spec(paths, home, checkout)[i].dest),
    ensures
        ({
            let plans = plans_spec(paths, home, checkout);
            let t = plans[i].target;
            &&& run(fs, plans).1 matches Some(e) && is_conflict(e)
            &&& run(fs, plans).0.get(t) == Some(Node::Link(actual))
            &&& run(fs, plans.take(i)).1 is None ==> run(fs, plans).1 == Some(
                ErrView::WrongLink { path: t, expected: plans[i].dest, actual },
            )
        }),
{
    let plans = plans_spec(paths, home, checkout);
    let t = plans[i].target;
    lemma_run_keeps(fs, plans, t);
    lemma_run_err_conflict(fs, plans);
    lemma_run_split(fs, plans, i);
    if run(fs, plans.take(i)).1 is None {
        lemma_run_keeps(fs, plans.take(i), t);
        assert(plans.skip(i)[0] == plans[i]);
    }
}

} // verus!
