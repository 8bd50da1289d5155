use vstd::prelude::*;
use crate::error::{DotError, ErrView};

verus! {

/// The symbolic root that a repository path begins with.
#[derive(Debug, Clone, PartialEq, Eq)]
pub enum Marker {
    /// Resolves against the user's home directory.
    Home,
    /// Resolves against the filesystem root.
    Root,
}

/// The leading segment of a repository path that resolves against the home directory.
pub open spec fn home_marker() -> Seq<char> {
    seq!['H', 'O', 'M', 'E', '/']
}

/// The leading segment of a repository path that resolves against the filesystem root.
pub open spec fn root_marker() -> Seq<char> {
    seq!['R', 'O', 'O', 'T', '/']
}

/// Whether `s` begins with `p`.
pub open spec fn is_prefix(p: Seq<char>, s: Seq<char>) -> bool {
    p.len() <= s.len() && s.subrange(0, p.len() as int) == p
}

/// The base directory as a prefix that ends in a separator.
pub open spec fn dir_prefix(base: Seq<char>) -> Seq<char> {
    if base.len() > 0 && base.last() == '/' {
        base
    } else {
        base.push('/')
    }
}

/// `rest` appended below the directory `base`.
pub open spec fn join_spec(base: Seq<char>, rest: Seq<char>) -> Seq<char> {
    dir_prefix(base) + rest
}

/// Whether the first component of `p` is exactly the marker whose segment, with its
/// separator, is `m`: `p` is the marker alone, or begins with the marker and `/`.
pub open spec fn first_component_is(p: Seq<char>, m: Seq<char>) -> bool {
    p == m.drop_last() || is_prefix(m, p)
}

/// The root marker that a repository path begins with, if any: its first component
/// is exactly `HOME` or `ROOT`.
pub open spec fn marker_of(p: Seq<char>) -> Option<Marker> {
    if first_component_is(p, home_marker()) {
        Some(Marker::Home)
    } else if first_component_is(p, root_marker()) {
        Some(Marker::Root)
    } else {
        None
    }
}

/// What follows the marker component of a repository path; empty for the marker alone.
pub open spec fn below_marker(p: Seq<char>) -> Seq<char> {
    if p.len() < 5 {
        Seq::empty()
    } else {
        p.skip(5)
    }
}

/// Where a repository path is linked to, given the home directory; `None` for a path
/// without a marker.
pub open spec fn target_spec(p: Seq<char>, home: Seq<char>) -> Option<Seq<char>> {
    match marker_of(p) {
        Some(Marker::Home) => Some(join_spec(home, below_marker(p))),
        Some(Marker::Root) => Some(seq!['/'] + below_marker(p)),
        None => None,
    }
}

/// The home directory, where one is known: given and not empty.
pub open spec fn home_of(home: Option<&str>) -> Option<Seq<char>> {
    match home {
        Some(h) => if h@.len() > 0 {
            Some(h@)
        } else {
            None
        },
        None => None,
    }
}

/// The home directory, or the empty sequence where none is known.
pub open spec fn home_or_empty(home: Option<&str>) -> Seq<char> {
    match home_of(home) {
        Some(h) => h,
        None => Seq::empty(),
    }
}

/// Whether resolving the path needs a home directory that is not known.
pub open spec fn lacks_home(p: Seq<char>, home: Option<&str>) -> bool {
    marker_of(p) == Some(Marker::Home) && home_of(home) is None
}

/// The value of an optional string.
pub open spec fn opt_view(o: Option<String>) -> Option<Seq<char>> {
    match o {
        Some(s) => Some(s@),
        None => None,
    }
}

/// Whether `s` begins with `p`.
pub fn starts_with(s: &str, p: &str) -> (r: bool)
    ensures
        r == is_prefix(p@, s@),
{
    let n = s.unicode_len();
    let m = p.unicode_len();
    if m > n {
        return false;
    }
    let mut i: usize = 0;
    while i < m
        invariant
            i <= m <= n,
            n == s@.len(),
            m == p@.len(),
            forall|j: int| 0 <= j < i ==> s@[j] == p@[j],
        decreases m - i,
    {
        if s.get_char(i) != p.get_char(i) {
            return false;
        }
        i += 1;
    }
    assert(s@.subrange(0, m as int) =~= p@);
    true
}

/// Appends `rest` below the directory `base`, with one separator between them.
pub fn join(base: &str, rest: &str) -> (r: String)
    ensures
        r@ == join_spec(base@, rest@),
{
    let n = base.unicode_len();
    let mut r = String::from_str(base);
    if n == 0 || base.get_char(n - 1) != '/' {
        r.append("/");
        proof {
            reveal_strlit("/");
        }
        assert(r@ =~= base@.push('/'));
    }
    r.append(rest);
    r
}

/// Whether `p` is the marker `m` alone or begins with `m` and a separator.
fn first_component(p: &str, m: &str) -> (r: bool)
    requires
        m@.len() == 4,
    ensures
        r == first_component_is(p@, m@.push('/')),
{
    proof {
        reveal_strlit("/");
    }
    let mut seg = String::from_str(m);
    seg.append("/");
    assert(seg@ =~= m@.push('/'));
    let r = (p.unicode_len() == 4 && starts_with(p, m)) || starts_with(p, seg.as_str());
    assert(m@.push('/').drop_last() =~= m@);
    assert(p@.len() == 4 && is_prefix(m@, p@) ==> p@ =~= m@);
    assert(p@ == m@ ==> is_prefix(m@, p@)) by {
        if p@ == m@ {
            assert(p@.subrange(0, 4) =~= m@);
        }
    }
    r
}

/// The root marker that a repository path begins with, if any.
pub fn marker(path: &str) -> (r: Option<Marker>)
    ensures
        r == marker_of(path@),
{
    proof {
        reveal_strlit("HOME");
        reveal_strlit("ROOT");
    }
    assert("HOME"@.push('/') =~= home_marker());
    assert("ROOT"@.push('/') =~= root_marker());
    if first_component(path, "HOME") {
        Some(Marker::Home)
    } else if first_component(path, "ROOT") {
        Some(Marker::Root)
    } else {
        None
    }
}

/// What follows the marker component of a path that has one.
fn rest_below_marker(path: &str) -> (r: &str)
    ensures
        r@ == below_marker(path@),
{
    let n = path.unicode_len();
    if n >= 5 {
        path.substring_char(5, n)
    } else {
        proof {
            reveal_strlit("");
        }
        assert(""@ =~= Seq::<char>::empty());
        ""
    }
}

/// Maps a repository path to the absolute path it is linked to: `HOME/rest` goes below
/// the home directory, `ROOT/rest` below `/`; `HOME` or `ROOT` alone stands for the
/// base directory itself. A path whose first component is neither marker gives
/// `Ok(None)` and is to be skipped. A `HOME` path with no known home directory is a
/// configuration error rather than a guess at a base directory.
pub fn resolve_path(path: &str, home: Option<&str>) -> (r: Result<Option<String>, DotError>)
    ensures
        r is Err <==> lacks_home(path@, home),
        r matches Err(e) ==> e@ == ErrView::MissingHome,
        r matches Ok(t) ==> opt_view(t) == target_spec(path@, home_or_empty(home)),
{
    match marker(path) {
        Some(Marker::Home) => {
            match home {
                Some(h) => {
                    if h.unicode_len() == 0 {
                        return Err(DotError::MissingHome);
                    }
                    let rest = rest_below_marker(path);
                    Ok(Some(join(h, rest)))
                },
                None => Err(DotError::MissingHome),
            }
        },
        Some(Marker::Root) => {
            let rest = rest_below_marker(path);
            proof {
                reveal_strlit("/");
            }
            assert(dir_prefix("/"@) == seq!['/']);
            Ok(Some(join("/", rest)))
        },
        None => Ok(None),
    }
}

/// A `HOME` path resolves to what follows the marker, below the home directory; a
/// `ROOT` path to what follows the marker, below `/`, whatever the home directory.
pub proof fn resolve_home_and_root(rest: Seq<char>, home: Seq<char>, other_home: Seq<char>)
    requires
        home.len() > 0,
        home.last() != '/',
    ensures
        target_spec(home_marker() + rest, home) == Some(home + seq!['/'] + rest),
        target_spec(root_marker() + rest, home) == Some(seq!['/'] + rest),
        target_spec(root_marker() + rest, other_home) == target_spec(root_marker() + rest, home),
{
    let hp = home_marker() + rest;
    let rp = root_marker() + rest;
    assert(hp.subrange(0, 5) =~= home_marker());
    assert(hp.skip(5) =~= rest);
    assert(rp.subrange(0, 5) =~= root_marker());
    assert(rp.skip(5) =~= rest);
    assert(rp.subrange(0, 5)[0] != home_marker()[0]);
    assert(home + seq!['/'] + rest =~= home.push('/') + rest);
}

/// The values of a sequence of strings.
pub open spec fn strs_view(v: Seq<String>) -> Seq<Seq<char>> {
    v.map_values(|s: String| s@)
}

/// Whether a segment between separators names a component: it is not empty and not `.`.
pub open spec fn keeps(seg: Seq<char>) -> bool {
    seg.len() > 0 && seg != seq!['.']
}

/// The components closed so far, and the segment still open, after reading `s`.
pub open spec fn split_state(s: Seq<char>) -> (Seq<Seq<char>>, Seq<char>)
    decreases s.len(),
{
    if s.len() == 0 {
        (Seq::empty(), Seq::empty())
    } else {
        let (done, cur) = split_state(s.drop_last());
        if s.last() == '/' {
            (
                if keeps(cur) {
                    done.push(cur)
                } else {
                    done
                },
                Seq::empty(),
            )
        } else {
            (done, cur.push(s.last()))
        }
    }
}

/// The components of a path: what lies between separators, with empty segments (from
/// repeated or trailing separators) and `.` left out.
pub open spec fn components(s: Seq<char>) -> Seq<Seq<char>> {
    let (done, cur) = split_state(s);
    if keeps(cur) {
        done.push(cur)
    } else {
        done
    }
}

/// Whether a path begins at the filesystem root.
pub open spec fn is_absolute(s: Seq<char>) -> bool {
    s.len() > 0 && s[0] == '/'
}

/// Whether two paths name the same place, component by component.
pub open spec fn same_path_spec(a: Seq<char>, b: Seq<char>) -> bool {
    is_absolute(a) == is_absolute(b) && components(a) == components(b)
}

/// Whether the segment is a component.
fn keeps_segment(seg: &String) -> (r: bool)
    ensures
        r == keeps(seg@),
{
    let n = seg.as_str().unicode_len();
    let r = n > 0 && !(n == 1 && seg.as_str().get_char(0) == '.');
    assert(n == 1 && seg@[0] == '.' ==> seg@ =~= seq!['.']);
    r
}

/// The components of a path.
pub fn components_of(s: &str) -> (r: Vec<String>)
    ensures
        strs_view(r@) == components(s@),
{
    let n = s.unicode_len();
    let mut done: Vec<String> = Vec::new();
    let mut cur = String::new();
    let mut i: usize = 0;
    while i < n
        invariant
            i <= n,
            n == s@.len(),
            (strs_view(done@), cur@) == split_state(s@.take(i as int)),
        decreases n - i,
    {
        let c = s.get_char(i);
        assert(s@.take(i + 1).drop_last() =~= s@.take(i as int));
        assert(s@.take(i + 1).last() == c);
        let ghost before = done@;
        if c == '/' {
            if keeps_segment(&cur) {
                done.push(cur);
                assert(strs_view(done@) =~= strs_view(before).push(done@.last()@));
            }
            cur = String::new();
        } else {
            let one = s.substring_char(i, i + 1);
            assert(one@ =~= seq![c]);
            cur.append(one);
        }
        i += 1;
    }
    assert(s@.take(n as int) =~= s@);
    let ghost before = done@;
    if keeps_segment(&cur) {
        done.push(cur);
        assert(strs_view(done@) =~= strs_view(before).push(done@.last()@));
    }
    done
}

/// Whether two paths name the same place, component by component: repeated or
/// trailing separators and `.` components make no difference.
pub fn same_path(a: &str, b: &str) -> (r: bool)
    ensures
        r == same_path_spec(a@, b@),
{
    let abs_a = a.unicode_len() > 0 && a.get_char(0) == '/';
    let abs_b = b.unicode_len() > 0 && b.get_char(0) == '/';
    assert(abs_a == is_absolute(a@));
    assert(abs_b == is_absolute(b@));
    if abs_a != abs_b {
        return false;
    }
    let ca = components_of(a);
    let cb = components_of(b);
    if ca.len() != cb.len() {
        assert(strs_view(ca@).len() != strs_view(cb@).len());
        assert(components(a@) != components(b@));
        return false;
    }
    let mut i: usize = 0;
    while i < ca.len()
        invariant
            i <= ca@.len() == cb@.len(),
            strs_view(ca@) == components(a@),
            strs_view(cb@) == components(b@),
            abs_a == is_absolute(a@),
            abs_a == abs_b,
            abs_b == is_absolute(b@),
            forall|j: int| 0 <= j < i ==> ca@[j]@ == cb@[j]@,
        decreases ca@.len() - i,
    {
        if ca[i] != cb[i] {
            assert(strs_view(ca@)[i as int] != strs_view(cb@)[i as int]);
            return false;
        }
        i += 1;
    }
    assert(strs_view(ca@) =~= strs_view(cb@));
    true
}

} // verus!
