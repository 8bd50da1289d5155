use vstd::prelude::*;
use crate::path::{dir_prefix, is_prefix, starts_with};

verus! {

/// One entry met while walking the checkout: its full path, and whether it is a
/// regular file.
#[derive(Debug, Clone, PartialEq, Eq)]
pub struct WalkEntry {
    pub path: String,
    pub is_file: bool,
}

/// The repository path of an entry met below `root`, if it is a regular file there.
pub open spec fn relative_of(root: Seq<char>, path: Seq<char>, is_file: bool) -> Option<Seq<char>> {
    let pre = dir_prefix(root);
    if is_file && is_prefix(pre, path) && path.len() > pre.len() {
        Some(path.skip(pre.len() as int))
    } else {
        None
    }
}

/// The repository paths of the regular files among the entries, in their order.
pub open spec fn relative_files_spec(root: Seq<char>, entries: Seq<WalkEntry>) -> Seq<Seq<char>>
    decreases entries.len(),
{
    if entries.len() == 0 {
        Seq::empty()
    } else {
        let prev = relative_files_spec(root, entries.drop_last());
        let e = entries.last();
        match relative_of(root, e.path@, e.is_file) {
            Some(r) => prev.push(r),
            None => prev,
        }
    }
}

/// Makes the entries of a walk of the checkout at `root` relative to it, keeping
/// regular files only: directories and other kinds of entry are left out.
pub fn relative_files(root: &str, entries: &Vec<WalkEntry>) -> (r: Vec<String>)
    ensures
        r@.map_values(|s: String| s@) == relative_files_spec(root@, entries@),
{
    let n = root.unicode_len();
    let mut pre = String::from_str(root);
    if n == 0 || root.get_char(n - 1) != '/' {
        pre.append("/");
        proof {
            reveal_strlit("/");
        }
        assert(pre@ =~= root@.push('/'));
    }
    let m = pre.as_str().unicode_len();
    let mut out: Vec<String> = Vec::new();
    let mut i: usize = 0;
    while i < entries.len()
        invariant
            i <= entries@.len(),
            pre@ == dir_prefix(root@),
            m == pre@.len(),
            out@.map_values(|s: String| s@) == relative_files_spec(
                root@,
                entries@.take(i as int),
            ),
        decreases entries@.len() - i,
    {
        let e = &entries[i];
        let ghost before = out@;
        assert(entries@.take(i + 1).drop_last() =~= entries@.take(i as int));
        assert(entries@.take(i + 1).last() == *e);
        let len = e.path.as_str().unicode_len();
        if e.is_file && len > m && starts_with(e.path.as_str(), pre.as_str()) {
            let rel = e.path.as_str().substring_char(m, len);
            out.push(String::from_str(rel));
            assert(out@.map_values(|s: String| s@) =~= before.map_values(|s: String| s@).push(
                rel@,
            ));
        }
        i += 1;
    }
    assert(entries@.take(i as int) =~= entries@);
    out
}

} // verus!
