//! The paths of a watch session.

use vstd::prelude::*;
use vstd::string::*;
use crate::error::{WatchError, WatchErrorView};

verus! {

/// The paths of a list, each as its text.
pub open spec fn texts(paths: Seq<String>) -> Seq<Seq<char>> {
    paths.map_values(|path: String| path@)
}

/// The paths of a list in their order, each kept where it comes first.
pub open spec fn first_occurrences(paths: Seq<Seq<char>>) -> Seq<Seq<char>>
    decreases paths.len(),
{
    if paths.len() == 0 {
        Seq::empty()
    } else {
        let kept = first_occurrences(paths.drop_last());
        if kept.contains(paths.last()) {
            kept
        } else {
            kept.push(paths.last())
        }
    }
}

/// Text of the failure that an empty list of paths gives.
pub open spec fn no_paths_reason() -> Seq<char> {
    "no path to watch"@
}

/// The paths that a session watches, each of them once and none below it.
#[derive(Debug)]
pub struct WatchSet {
    paths: Vec<String>,
}

impl View for WatchSet {
    type V = Seq<Seq<char>>;

    closed spec fn view(&self) -> Seq<Seq<char>> {
        texts(self.paths@)
    }
}

impl WatchSet {
    #[verifier::type_invariant]
    spec fn well_formed(self) -> bool {
        self@.len() > 0 && self@.no_duplicates()
    }

    /// The watch set of the paths asked for. A path that is asked for more
    /// than once is taken where it comes first. Without any path there is
    /// nothing to watch, which is a setup failure.
    pub fn new(paths: Vec<String>) -> (r: Result<WatchSet, WatchError>)
        ensures
            paths@.len() == 0 ==> r is Err && r->Err_0@ == WatchErrorView::WatchSetup(
                no_paths_reason(),
            ),
            paths@.len() > 0 ==> r is Ok && r->Ok_0@ == first_occurrences(texts(paths@)),
    {
        if paths.len() == 0 {
            return Err(WatchError::WatchSetup(String::from_str("no path to watch")));
        }
        let mut kept: Vec<String> = Vec::new();
        let mut i: usize = 0;
        while i < paths.len()
            invariant
                i <= paths.len(),
                texts(kept@) == first_occurrences(texts(paths@).take(i as int)),
            decreases paths.len() - i,
        {
            proof {
                assert(texts(paths@).take(i + 1).drop_last() =~= texts(paths@).take(i as int));
            }
            if !Self::holds(&kept, &paths[i]) {
                let ghost before = kept@;
                kept.push(paths[i].clone());
                proof {
                    assert(texts(kept@) =~= texts(before).push(paths@[i as int]@));
                }
            }
            i += 1;
        }
        proof {
            assert(texts(paths@).take(i as int) =~= texts(paths@));
            lemma_first_occurrences(texts(paths@));
        }
        Ok(WatchSet { paths: kept })
    }

    /// Number of paths watched; never zero.
    pub fn len(&self) -> (n: usize)
        ensures
            n == self@.len(),
            n > 0,
    {
        proof {
            use_type_invariant(self);
        }
        self.paths.len()
    }

    /// The paths in the order in which they are registered.
    pub fn paths(&self) -> (paths: &Vec<String>)
        ensures
            texts(paths@) == self@,
            self@.len() > 0,
            self@.no_duplicates(),
    {
        proof {
            use_type_invariant(self);
        }
        &self.paths
    }

    fn holds(paths: &Vec<String>, path: &String) -> (found: bool)
        ensures
            found == texts(paths@).contains(path@),
    {
        let mut i: usize = 0;
        while i < paths.len()
            invariant
                i <= paths.len(),
                forall|j: int| 0 <= j < i ==> texts(paths@)[j] != path@,
            decreases paths.len() - i,
        {
            if paths[i] == *path {
                assert(texts(paths@)[i as int] == path@);
                return true;
            }
            i += 1;
        }
        false
    }
}

/// Taking each path where it comes first leaves no path twice, loses none,
/// adds none, and leaves the first path first.
pub proof fn lemma_first_occurrences(paths: Seq<Seq<char>>)
    ensures
        first_occurrences(paths).no_duplicates(),
        forall|path: Seq<char>| first_occurrences(paths).contains(path) <==> paths.contains(path),
        first_occurrences(paths).len() <= paths.len(),
        paths.len() > 0 ==> first_occurrences(paths).len() > 0 && first_occurrences(paths)[0]
            == paths[0],
    decreases paths.len(),
{
    if paths.len() > 0 {
        let before = paths.drop_last();
        let kept = first_occurrences(before);
        lemma_first_occurrences(before);
        assert forall|path: Seq<char>| first_occurrences(paths).contains(path) <==> paths.contains(
            path,
        ) by {
            if paths.contains(path) {
                let i = choose|i: int| 0 <= i < paths.len() && paths[i] == path;
                if i < before.len() {
                    assert(before[i] == path);
                    assert(before.contains(path));
                    assert(kept.contains(path));
                    let j = choose|j: int| 0 <= j < kept.len() && kept[j] == path;
                    assert(first_occurrences(paths)[j] == path);
                } else {
                    if !kept.contains(path) {
                        assert(first_occurrences(paths)[kept.len() as int] == path);
                    }
                }
            }
            if first_occurrences(paths).contains(path) {
                let j = choose|j: int|
                    0 <= j < first_occurrences(paths).len() && first_occurrences(paths)[j] == path;
                if j < kept.len() {
                    assert(kept[j] == path);
                    assert(kept.contains(path));
                    assert(before.contains(path));
                    let i = choose|i: int| 0 <= i < before.len() && before[i] == path;
                    assert(paths[i] == path);
                } else {
                    assert(paths[paths.len() - 1] == path);
                }
            }
        }
        if before.len() > 0 {
            assert(before[0] == paths[0]);
        }
    }
}

} // verus!
