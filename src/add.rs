use vstd::prelude::*;
use crate::error::{DotError, ErrView};
use crate::path::{
    dir_prefix, home_marker, home_of, home_or_empty, is_prefix, join, join_spec, lacks_home,
    root_marker, starts_with,
};
use crate::reconcile::{outcome, plan_spec, Node, Outcome, PlanView};

verus! {

/// How a real file is taken into the checkout: it moves to `stored`, and a link to
/// `stored` takes its place at `link`.
#[derive(Debug, Clone, PartialEq, Eq)]
pub struct AddPlan {
    /// The repository path it gets in the checkout.
    pub repo_path: String,
    /// Where the file is moved to, inside the checkout.
    pub stored: String,
    /// Where the file was, and where the link to it is made.
    pub link: String,
}

/// Whether the segment that starts at `j` is `.` or `..`.
pub open spec fn dot_segment_at(s: Seq<char>, j: int) -> bool {
    &&& 0 <= j < s.len()
    &&& s[j] == '.'
    &&& (j + 1 == s.len() || s[j + 1] == '/' || (s[j + 1] == '.' && (j + 2 == s.len() || s[j
        + 2] == '/')))
}

/// Whether a path is written plainly: no separator is followed by the end, by another
/// separator, or by a `.` or `..` component.
pub open spec fn is_plain(s: Seq<char>) -> bool {
    forall|i: int|
        0 <= i < s.len() && #[trigger] s[i] == '/' ==> !(i + 1 == s.len() || s[i + 1] == '/'
            || dot_segment_at(s, i + 1))
}

/// The repository path that an absolute file path gets: below `HOME` where it lies
/// below the home directory, below `ROOT` otherwise. A path that is not written
/// plainly is refused rather than taken apart, since it would not resolve back to
/// the same text.
pub open spec fn repo_path_spec(file: Seq<char>, home: Option<Seq<char>>) -> Result<
    Seq<char>,
    ErrView,
> {
    if file.len() == 0 || file[0] != '/' {
        Err(ErrView::NotAbsolute { path: file })
    } else if file.len() == 1 {
        Err(ErrView::NothingToAdd { path: file })
    } else if !is_plain(file) {
        Err(ErrView::NotPlain { path: file })
    } else if home is Some && is_prefix(dir_prefix(home->0), file) && file.len() > dir_prefix(
        home->0,
    ).len() {
        Ok(home_marker() + file.skip(dir_prefix(home->0).len() as int))
    } else {
        Ok(root_marker() + file.skip(1))
    }
}

/// Whether the segment of `s` that starts at `j` is `.` or `..`.
fn dot_segment(s: &str, j: usize) -> (r: bool)
    ensures
        r == dot_segment_at(s@, j as int),
{
    let n = s.unicode_len();
    if j >= n || s.get_char(j) != '.' {
        return false;
    }
    if j + 1 == n || s.get_char(j + 1) == '/' {
        return true;
    }
    s.get_char(j + 1) == '.' && (j + 2 == n || s.get_char(j + 2) == '/')
}

/// Whether a path is written plainly.
fn plain(s: &str) -> (r: bool)
    ensures
        r == is_plain(s@),
{
    let n = s.unicode_len();
    let mut i: usize = 0;
    while i < n
        invariant
            i <= n == s@.len(),
            forall|k: int|
                0 <= k < i && #[trigger] s@[k] == '/' ==> !(k + 1 == s@.len() || s@[k + 1] == '/'
                    || dot_segment_at(s@, k + 1)),
        decreases n - i,
    {
        if s.get_char(i) == '/' {
            if i + 1 == n || s.get_char(i + 1) == '/' || dot_segment(s, i + 1) {
                assert(s@[i as int] == '/');
                return false;
            }
        }
        i += 1;
    }
    true
}

/// Plans taking the file at the absolute path `file` into the checkout at
/// `checkout`: the repository path it gets, where it moves to and where the link
/// back is made.
pub fn add_file(file: &str, home: Option<&str>, checkout: &str) -> (r: Result<AddPlan, DotError>)
    ensures
        match r {
            Ok(a) => {
                &&& repo_path_spec(file@, home_of(home)) == Ok::<Seq<char>, ErrView>(
                    a.repo_path@,
                )
                &&& a.stored@ == join_spec(checkout@, a.repo_path@)
                &&& a.link@ == file@
            },
            Err(e) => repo_path_spec(file@, home_of(home)) == Err::<Seq<char>, ErrView>(e@),
        },
{
    let n = file.unicode_len();
    if n == 0 || file.get_char(0) != '/' {
        return Err(DotError::NotAbsolute { path: String::from_str(file) });
    }
    if n == 1 {
        return Err(DotError::NothingToAdd { path: String::from_str(file) });
    }
    if !plain(file) {
        return Err(DotError::NotPlain { path: String::from_str(file) });
    }
    proof {
        reveal_strlit("HOME/");
        reveal_strlit("ROOT/");
    }
    let mut under_home = false;
    let mut rest_start: usize = 0;
    if let Some(h) = home {
        let hn = h.unicode_len();
        if hn > 0 {
            let mut pre = String::from_str(h);
            if h.get_char(hn - 1) != '/' {
                pre.append("/");
                proof {
                    reveal_strlit("/");
                }
                assert(pre@ =~= h@.push('/'));
            }
            let m = pre.as_str().unicode_len();
            if n > m && starts_with(file, pre.as_str()) {
                under_home = true;
                rest_start = m;
            }
        }
    }
    let repo_path = if under_home {
        let mut p = String::from_str("HOME/");
        p.append(file.substring_char(rest_start, n));
        assert("HOME/"@ =~= home_marker());
        p
    } else {
        let mut p = String::from_str("ROOT/");
        p.append(file.substring_char(1, n));
        assert("ROOT/"@ =~= root_marker());
        p
    };
    let stored = join(checkout, repo_path.as_str());
    Ok(AddPlan { repo_path, stored, link: String::from_str(file) })
}

/// Adding a file and then reconciling reproduces it: the repository path that `add`
/// gives the file resolves back to the file's own path, with the checkout copy as
/// the link's destination, and the link that `add` left there counts as correct.
pub proof fn add_then_setup_links_back(file: Seq<char>, home: Option<&str>, checkout: Seq<char>)
    requires
        repo_path_spec(file, home_of(home)) is Ok,
    ensures
        ({
            let p = repo_path_spec(file, home_of(home))->Ok_0;
            let plan = PlanView { repo_path: p, target: file, dest: join_spec(checkout, p) };
            &&& !lacks_home(p, home)
            &&& plan_spec(p, home_or_empty(home), checkout) == Some(plan)
            &&& outcome(plan, Some(Node::Link(join_spec(checkout, p)))) == Outcome::Correct
        }),
{
    let p = repo_path_spec(file, home_of(home))->Ok_0;
    let h = home_of(home);
    if h is Some && is_prefix(dir_prefix(h->0), file) && file.len() > dir_prefix(h->0).len() {
        let pre = dir_prefix(h->0);
        assert(p.subrange(0, 5) =~= home_marker());
        assert(p.skip(5) =~= file.skip(pre.len() as int));
        assert(file =~= pre + file.skip(pre.len() as int));
    } else {
        assert(p.subrange(0, 5) =~= root_marker());
        assert(p.subrange(0, 5)[0] != home_marker()[0]);
        assert(p.skip(5) =~= file.skip(1));
        assert(file =~= seq!['/'] + file.skip(1));
    }
}

} // verus!
