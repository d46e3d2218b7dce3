//! An in-memory filesystem: a map from paths to byte contents.
//!
//! The deployment and backup engines are verified against this model — its
//! view is a `Map<Seq<char>, Seq<u8>>` — and the tests exercise them on it
//! concretely. A caller working against the real filesystem performs the
//! same operations, in the same order, through the deployment plan.

use vstd::prelude::*;

verus! {

/// One file: a path and its contents.
pub struct FsEntry {
    pub path: String,
    pub data: Vec<u8>,
}

/// The map a write log denotes: later entries shadow earlier ones.
pub closed spec fn entries_map(s: Seq<FsEntry>) -> Map<Seq<char>, Seq<u8>>
    decreases s.len(),
{
    if s.len() == 0 {
        Map::empty()
    } else {
        entries_map(s.drop_last()).insert(s.last().path@, s.last().data@)
    }
}

proof fn lemma_entries_map_last_match(s: Seq<FsEntry>, p: Seq<char>, i: int)
    requires
        0 <= i < s.len(),
        s[i].path@ == p,
        forall|j: int| i < j < s.len() ==> (#[trigger] s[j]).path@ != p,
    ensures
        entries_map(s).contains_key(p),
        entries_map(s)[p] == s[i].data@,
    decreases s.len(),
{
    if i == s.len() - 1 {
    } else {
        lemma_entries_map_last_match(s.drop_last(), p, i);
    }
}

proof fn lemma_entries_map_no_match(s: Seq<FsEntry>, p: Seq<char>)
    requires
        forall|j: int| 0 <= j < s.len() ==> (#[trigger] s[j]).path@ != p,
    ensures
        !entries_map(s).contains_key(p),
    decreases s.len(),
{
    if s.len() > 0 {
        lemma_entries_map_no_match(s.drop_last(), p);
    }
}

/// A flat in-memory filesystem.
pub struct FsModel {
    files: Vec<FsEntry>,
}

impl View for FsModel {
    type V = Map<Seq<char>, Seq<u8>>;

    closed spec fn view(&self) -> Map<Seq<char>, Seq<u8>> {
        entries_map(self.files@)
    }
}

impl FsModel {
    pub fn new() -> (r: FsModel)
        ensures
            r@ =~= Map::<Seq<char>, Seq<u8>>::empty(),
    {
        FsModel { files: Vec::new() }
    }

    /// Whether a file exists at `path`.
    pub fn has_file(&self, path: &String) -> (r: bool)
        ensures
            r == self@.contains_key(path@),
    {
        let n = self.files.len();
        let mut j = n;
        while j > 0
            invariant
                j <= n,
                n == self.files@.len(),
                forall|k: int| j <= k < n ==> (#[trigger] self.files@[k]).path@ != path@,
            decreases j,
        {
            if self.files[j - 1].path == *path {
                proof {
                    lemma_entries_map_last_match(self.files@, path@, j - 1);
                }
                return true;
            }
            j = j - 1;
        }
        proof {
            lemma_entries_map_no_match(self.files@, path@);
        }
        false
    }

    /// The contents at `path`, copied out, or `None` when no file is there.
    pub fn read_copy(&self, path: &String) -> (r: Option<Vec<u8>>)
        ensures
            r is Some <==> self@.contains_key(path@),
            r matches Some(d) ==> d@ == self@[path@],
    {
        let n = self.files.len();
        let mut j = n;
        while j > 0
            invariant
                j <= n,
                n == self.files@.len(),
                forall|k: int| j <= k < n ==> (#[trigger] self.files@[k]).path@ != path@,
            decreases j,
        {
            if self.files[j - 1].path == *path {
                proof {
                    lemma_entries_map_last_match(self.files@, path@, j - 1);
                }
                let d = self.files[j - 1].data.clone();
                proof {
                    assert(d@ =~= self.files@[j - 1].data@);
                }
                return Some(d);
            }
            j = j - 1;
        }
        proof {
            lemma_entries_map_no_match(self.files@, path@);
        }
        None
    }

    /// Creates or overwrites the file at `path`.
    pub fn write(&mut self, path: String, data: Vec<u8>)
        ensures
            final(self)@ == old(self)@.insert(path@, data@),
    {
        let ghost p = path@;
        let ghost d = data@;
        self.files.push(FsEntry { path, data });
        proof {
            assert(self.files@.drop_last() =~= old(self).files@);
            assert(self.files@.last().path@ == p && self.files@.last().data@ == d);
        }
    }
}

} // verus!
