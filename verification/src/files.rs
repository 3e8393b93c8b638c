//! A record of which paths exist on disk, as far as the caller has looked.

use vstd::prelude::*;
use crate::text::{chars_of, same_chars, texts};

verus! {

/// The paths that are known to exist.
#[derive(Clone, Debug)]
pub struct FileSet {
    pub paths: Vec<Vec<char>>,
}

impl View for FileSet {
    type V = Set<Seq<char>>;

    open spec fn view(&self) -> Set<Seq<char>> {
        Set::new(|p: Seq<char>| exists|i: int| 0 <= i < self.paths@.len() && self.paths@[i]@ == p)
    }
}

/// The paths among `paths` that were seen to exist: `present` says of each
/// path, by position, whether it was.
pub open spec fn present_set(paths: Seq<Seq<char>>, present: Seq<bool>) -> Set<Seq<char>> {
    Set::new(
        |p: Seq<char>|
            exists|i: int| 0 <= i < paths.len() && i < present.len() && present[i] && paths[i] == p,
    )
}

impl FileSet {
    /// The record of what was seen of `paths`: `present` says of each path,
    /// by position, whether it exists.  A path without an answer counts as
    /// missing.
    pub fn of_present(paths: &Vec<String>, present: &Vec<bool>) -> (files: FileSet)
        ensures
            files@ == present_set(texts(paths@), present@),
    {
        let mut files = FileSet::new();
        let mut i: usize = 0;
        while i < paths.len() && i < present.len()
            invariant
                i <= paths.len(),
                i <= present.len(),
                forall|p: Seq<char>|
                    files@.contains(p) <==> exists|k: int|
                        0 <= k < i && present@[k] && #[trigger] texts(paths@)[k] == p,
            decreases paths.len() - i,
        {
            let ghost before = files@;
            if present[i] {
                files.insert(paths[i].as_str());
            }
            proof {
                assert(texts(paths@)[i as int] == paths@[i as int]@);
                assert forall|p: Seq<char>| files@.contains(p) <==> exists|k: int|
                    0 <= k < i + 1 && present@[k] && #[trigger] texts(paths@)[k] == p by {
                    if files@.contains(p) {
                        if before.contains(p) {
                            let k = choose|k: int|
                                0 <= k < i && present@[k] && #[trigger] texts(paths@)[k] == p;
                            assert(0 <= k < i + 1 && present@[k] && texts(paths@)[k] == p);
                        } else {
                            assert(present@[i as int] && texts(paths@)[i as int] == p);
                        }
                    }
                    if exists|k: int|
                        0 <= k < i + 1 && present@[k] && #[trigger] texts(paths@)[k] == p {
                        let k = choose|k: int|
                            0 <= k < i + 1 && present@[k] && #[trigger] texts(paths@)[k] == p;
                        if k < i {
                            assert(before.contains(p));
                        }
                    }
                }
            }
            i += 1;
        }
        proof {
            let all = texts(paths@);
            assert forall|p: Seq<char>| files@.contains(p) == present_set(all, present@).contains(
                p,
            ) by {
                if files@.contains(p) {
                    let k = choose|k: int| 0 <= k < i && present@[k] && #[trigger] all[k] == p;
                    assert(0 <= k < all.len() && k < present@.len() && present@[k] && all[k] == p);
                }
                if present_set(all, present@).contains(p) {
                    let k = choose|k: int|
                        0 <= k < all.len() && k < present@.len() && present@[k] && all[k] == p;
                    assert(0 <= k < i && present@[k] && all[k] == p);
                }
            }
            assert(files@ =~= present_set(all, present@));
        }
        files
    }

    /// The record in which no path exists.
    pub fn new() -> (files: FileSet)
        ensures
            files@ == Set::<Seq<char>>::empty(),
    {
        let files = FileSet { paths: Vec::new() };
        proof {
            assert(files@ =~= Set::<Seq<char>>::empty());
        }
        files
    }

    /// Records that `path` exists.
    pub fn insert(&mut self, path: &str)
        ensures
            final(self)@ == old(self)@.insert(path@),
    {
        let chars = chars_of(path);
        self.paths.push(chars);
        proof {
            let before = old(self).paths@;
            let after = final(self).paths@;
            assert forall|p: Seq<char>| final(self)@.contains(p) == old(self)@.insert(
                path@,
            ).contains(p) by {
                if final(self)@.contains(p) {
                    let i = choose|i: int| 0 <= i < after.len() && after[i]@ == p;
                    if i < before.len() {
                        assert(before[i]@ == p);
                    }
                }
                if old(self)@.contains(p) {
                    let i = choose|i: int| 0 <= i < before.len() && before[i]@ == p;
                    assert(after[i]@ == p);
                }
                if p == path@ {
                    assert(after[before.len() as int]@ == p);
                }
            }
            assert(final(self)@ =~= old(self)@.insert(path@));
        }
    }

    /// Whether the path spelled by `path` exists.
    pub fn contains_chars(&self, path: &Vec<char>) -> (present: bool)
        ensures
            present == self@.contains(path@),
    {
        let mut i: usize = 0;
        while i < self.paths.len()
            invariant
                i <= self.paths.len(),
                forall|k: int| 0 <= k < i ==> self.paths@[k]@ != path@,
            decreases self.paths.len() - i,
        {
            if same_chars(&self.paths[i], path) {
                return true;
            }
            i += 1;
        }
        false
    }

    /// Whether `path` exists.
    pub fn contains(&self, path: &str) -> (present: bool)
        ensures
            present == self@.contains(path@),
    {
        let chars = chars_of(path);
        self.contains_chars(&chars)
    }
}

} // verus!
