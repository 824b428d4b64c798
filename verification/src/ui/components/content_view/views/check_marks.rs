//! The check marks of a view's tree, and finding lines of the tree: a set of
//! paths (each the identifiers from the top of the tree down to an item)
//! that holds each checked item once.
use vstd::prelude::*;

use super::checktree_utils::{get_checked_things, id_pairs, spec_checked_record_ids};
use crate::state::library::RecordId;

verus! {

/// A path of identifiers, as texts.
pub open spec fn path_view(p: Vec<String>) -> Seq<Seq<char>> {
    p@.map_values(|s: String| s@)
}

/// Paths, as texts.
pub open spec fn paths_view(ps: Seq<Vec<String>>) -> Seq<Seq<Seq<char>>> {
    ps.map_values(|p: Vec<String>| path_view(p))
}

/// Whether the two paths hold the same identifiers.
pub fn same_path(a: &Vec<String>, b: &Vec<String>) -> (r: bool)
    ensures
        r == (path_view(*a) == path_view(*b)),
{
    if a.len() != b.len() {
        assert(path_view(*a).len() != path_view(*b).len());
        return false;
    }
    let mut i: usize = 0;
    while i < a.len()
        invariant
            a@.len() == b@.len(),
            i <= a@.len(),
            forall|k: int| 0 <= k < i ==> a@[k]@ == b@[k]@,
        decreases a.len() - i,
    {
        if !(a[i] == b[i]) {
            assert(path_view(*a)[i as int] != path_view(*b)[i as int]);
            return false;
        }
        i = i + 1;
    }
    assert(path_view(*a) =~= path_view(*b));
    true
}

/// The first position of `path` among `paths` (as texts), if it is there.
pub open spec fn spec_position_of(paths: Seq<Seq<Seq<char>>>, path: Seq<Seq<char>>) -> Option<int> {
    if paths.contains(path) {
        Some(choose|i: int| 0 <= i < paths.len() && paths[i] == path && forall|j: int| 0 <= j < i ==> paths[j] != path)
    } else {
        None
    }
}

/// The position of the line `selected` among the visible lines `lines` of
/// a tree (the first, should it be there twice); `None` when nothing is
/// selected or the selection is not visible.
pub fn position_of(lines: &Vec<Vec<String>>, selected: &Vec<String>) -> (r: Option<usize>)
    ensures
        selected@.len() == 0 ==> r is None,
        selected@.len() > 0 ==> match r {
            Some(i) => {
                &&& i < lines@.len()
                &&& paths_view(lines@)[i as int] == path_view(*selected)
                &&& forall|j: int| 0 <= j < i ==> paths_view(lines@)[j] != path_view(*selected)
            },
            None => !paths_view(lines@).contains(path_view(*selected)),
        },
{
    if selected.len() == 0 {
        return None;
    }
    let mut i: usize = 0;
    while i < lines.len()
        invariant
            i <= lines@.len(),
            selected@.len() > 0,
            forall|j: int| 0 <= j < i ==> paths_view(lines@)[j] != path_view(*selected),
        decreases lines.len() - i,
    {
        if same_path(&lines[i], selected) {
            return Some(i);
        }
        i = i + 1;
    }
    proof {
        if paths_view(lines@).contains(path_view(*selected)) {
            let k = choose|k: int| 0 <= k < paths_view(lines@).len() && paths_view(lines@)[k] == path_view(*selected);
            assert(paths_view(lines@)[k] != path_view(*selected));
        }
    }
    None
}

/// The line that selecting line `i` of a tree of `count` visible lines
/// lands on: the last line when `i` is past it; none in an empty tree.
pub fn clamp_line(i: usize, count: usize) -> (r: Option<usize>)
    ensures
        r == if count == 0 {
            None::<usize>
        } else if i < count {
            Some(i)
        } else {
            Some((count - 1) as usize)
        },
{
    if count == 0 {
        None
    } else if i < count {
        Some(i)
    } else {
        Some(count - 1)
    }
}

/// The checked items of a tree, by their paths, each once, in the order
/// they were checked.
#[derive(Debug)]
pub struct CheckMarks {
    paths: Vec<Vec<String>>,
}

impl CheckMarks {
    #[verifier::type_invariant]
    spec fn wf(self) -> bool {
        paths_view(self.paths@).no_duplicates()
    }

    /// The checked paths, as texts, in the order they were checked.
    pub closed spec fn view_paths(&self) -> Seq<Seq<Seq<char>>> {
        paths_view(self.paths@)
    }

    /// The checked paths.
    pub closed spec fn raw_paths(&self) -> Seq<Vec<String>> {
        self.paths@
    }

    /// Nothing checked.
    pub fn new() -> (r: Self)
        ensures
            r.view_paths() == Seq::<Seq<Seq<char>>>::empty(),
    {
        let r = CheckMarks { paths: Vec::new() };
        assert(paths_view(r.paths@) =~= Seq::<Seq<Seq<char>>>::empty());
        r
    }

    /// Whether nothing is checked.
    pub fn is_empty(&self) -> (r: bool)
        ensures
            r == (self.view_paths().len() == 0),
    {
        self.paths.len() == 0
    }

    /// Whether the item at `path` is checked.
    pub fn contains(&self, path: &Vec<String>) -> (r: bool)
        ensures
            r == self.view_paths().contains(path_view(*path)),
    {
        let mut i: usize = 0;
        while i < self.paths.len()
            invariant
                i <= self.paths@.len(),
                forall|j: int| 0 <= j < i ==> paths_view(self.paths@)[j] != path_view(*path),
            decreases self.paths.len() - i,
        {
            if same_path(&self.paths[i], path) {
                assert(paths_view(self.paths@)[i as int] == path_view(*path));
                return true;
            }
            i = i + 1;
        }
        proof {
            if self.view_paths().contains(path_view(*path)) {
                let k = choose|k: int| 0 <= k < self.view_paths().len() && self.view_paths()[k] == path_view(*path);
                assert(paths_view(self.paths@)[k] != path_view(*path));
            }
        }
        false
    }

    /// Checks the item at `path` if it is not checked, and unchecks it if it
    /// is; the other check marks stay, in their order.
    pub fn toggle(&mut self, path: Vec<String>)
        ensures
            old(self).view_paths().contains(path_view(path)) ==> exists|i: int|
                0 <= i < old(self).view_paths().len() && old(self).view_paths()[i] == path_view(path)
                    && final(self).view_paths() == old(self).view_paths().remove(i),
            !old(self).view_paths().contains(path_view(path)) ==> final(self).view_paths()
                == old(self).view_paths().push(path_view(path)),
    {
        proof {
            use_type_invariant(&*self);
        }
        let ghost orig = paths_view(self.paths@);
        let ghost pv = path_view(path);
        let mut i: usize = 0;
        let n = self.paths.len();
        while i < n
            invariant
                n == self.paths@.len(),
                i <= n,
                orig == paths_view(self.paths@),
                orig == old(self).view_paths(),
                orig.no_duplicates(),
                pv == path_view(path),
                forall|j: int| 0 <= j < i ==> orig[j] != pv,
            decreases n - i,
        {
            if same_path(&self.paths[i], &path) {
                let mut paths = Vec::new();
                std::mem::swap(&mut paths, &mut self.paths);
                let _removed = paths.remove(i);
                proof {
                    assert(paths_view(paths@) =~= orig.remove(i as int));
                    assert forall|a: int, b: int|
                        0 <= a < paths_view(paths@).len() && 0 <= b < paths_view(paths@).len() && a != b implies paths_view(paths@)[a] != paths_view(
                        paths@,
                    )[b] by {
                        let a1 = if a >= i { a + 1 } else { a };
                        let b1 = if b >= i { b + 1 } else { b };
                        assert(paths_view(paths@)[a] == orig[a1]);
                        assert(paths_view(paths@)[b] == orig[b1]);
                    }
                    assert(orig[i as int] == pv);
                }
                self.paths = paths;
                assert(self.view_paths() == orig.remove(i as int));
                assert(orig.contains(pv));
                assert(orig == old(self).view_paths());
                return;
            }
            i = i + 1;
        }
        let mut paths = Vec::new();
        std::mem::swap(&mut paths, &mut self.paths);
        paths.push(path);
        proof {
            assert(paths_view(paths@) =~= orig.push(pv));
            assert(!orig.contains(pv)) by {
                if orig.contains(pv) {
                    let k = choose|k: int| 0 <= k < orig.len() && orig[k] == pv;
                    assert(orig[k] != pv);
                }
            }
            assert forall|a: int, b: int|
                0 <= a < orig.len() + 1 && 0 <= b < orig.len() + 1 && a != b implies orig.push(pv)[a] != orig.push(pv)[b] by {
                if a == orig.len() {
                    assert(orig[b] != pv);
                } else if b == orig.len() {
                    assert(orig[a] != pv);
                }
            }
        }
        self.paths = paths;
    }

    /// Unchecks everything.
    pub fn clear(&mut self)
        ensures
            final(self).view_paths() == Seq::<Seq<Seq<char>>>::empty(),
    {
        self.paths = Vec::new();
        assert(paths_view(self.paths@) =~= Seq::<Seq<Seq<char>>>::empty());
    }

    /// The record ids of the checked things, in the order they were checked
    /// (see [`get_checked_things`]).
    pub fn things(&self) -> (r: Vec<RecordId>)
        ensures
            id_pairs(r@) == spec_checked_record_ids(self.raw_paths()),
    {
        get_checked_things(&self.paths)
    }

    /// The checked paths.
    pub fn paths(&self) -> (r: &Vec<Vec<String>>)
        ensures
            r@ == self.raw_paths(),
            paths_view(r@) == self.view_paths(),
    {
        &self.paths
    }
}

/// A check mark toggled twice is as before: checking an item and then
/// unchecking it leaves the other marks in their order.
pub proof fn lemma_toggle_twice(marks: Seq<Seq<Seq<char>>>, path: Seq<Seq<char>>)
    requires
        !marks.contains(path),
    ensures
        marks.push(path).contains(path),
        marks.push(path).remove(marks.len() as int) == marks,
{
    assert(marks.push(path)[marks.len() as int] == path);
    assert(marks.push(path).remove(marks.len() as int) =~= marks);
}

} // verus!
