//! Files by absolute path, and search paths: ordered lists of directories in
//! which each one appears once.

use crate::string::JuceString;
use vstd::prelude::*;

verus! {

/// A file, named by its absolute path.
#[derive(Debug)]
pub struct File {
    path: JuceString,
}

impl View for File {
    type V = Seq<char>;

    closed spec fn view(&self) -> Seq<char> {
        self.path@
    }
}

impl File {
    /// The file at an absolute path.
    pub fn from_absolute_path(path: &str) -> (r: Self)
        ensures
            r@ == path@,
    {
        File { path: JuceString::new(path) }
    }

    /// The full path of the file.
    pub fn get_full_path_name(&self) -> (r: &JuceString)
        ensures
            r@ == self@,
    {
        &self.path
    }
}

impl Clone for File {
    fn clone(&self) -> (r: Self)
        ensures
            r@ == self@,
    {
        File { path: self.path.clone() }
    }
}

impl Default for File {
    fn default() -> (r: Self)
        ensures
            r@ == Seq::<char>::empty(),
    {
        File { path: JuceString::default() }
    }
}

impl PartialEq for File {
    fn eq(&self, other: &File) -> (r: bool)
        ensures
            r == (self@ == other@),
    {
        self.path == other.path
    }
}

impl vstd::std_specs::cmp::PartialEqSpecImpl for File {
    open spec fn obeys_eq_spec() -> bool {
        true
    }

    open spec fn eq_spec(&self, other: &File) -> bool {
        self@ == other@
    }
}

impl Eq for File {

}

/// The most directories a search path holds: its count is an `i32`.
pub const MAX_PATHS: usize = 0x7fff_ffff;

/// An ordered list of directories to search, none of them twice.
pub struct FileSearchPath {
    files: Vec<File>,
}

impl FileSearchPath {
    /// The paths of the directories, in order.
    pub closed spec fn paths(&self) -> Seq<Seq<char>> {
        self.files@.map_values(|f: File| f@)
    }

    /// No directory appears twice, and the count fits an `i32`.
    pub open spec fn wf(&self) -> bool {
        &&& self.paths().len() <= MAX_PATHS
        &&& self.paths().no_duplicates()
    }

    /// An empty search path.
    pub fn new() -> (r: Self)
        ensures
            r.wf(),
            r.paths() == Seq::<Seq<char>>::empty(),
    {
        let r = FileSearchPath { files: Vec::new() };
        assert(r.paths() =~= Seq::<Seq<char>>::empty());
        r
    }

    /// The number of directories.
    pub fn len(&self) -> (r: i32)
        requires
            self.wf(),
        ensures
            r as int == self.paths().len(),
    {
        self.files.len() as i32
    }

    /// Whether the directory is on the search path.
    pub fn contains(&self, file: &File) -> (r: bool)
        ensures
            r == self.paths().contains(file@),
    {
        let mut i: usize = 0;
        while i < self.files.len()
            invariant
                i <= self.files@.len(),
                forall|j: int| 0 <= j < i ==> self.paths()[j] != file@,
            decreases self.files@.len() - i,
        {
            if self.files[i] == *file {
                assert(self.paths()[i as int] == file@);
                return true;
            }
            i = i + 1;
        }
        false
    }

    /// Appends the directory unless it is there already. Returns whether it
    /// was added.
    pub fn add(&mut self, file: &File) -> (r: bool)
        requires
            old(self).wf(),
            old(self).paths().len() < MAX_PATHS,
        ensures
            final(self).wf(),
            r == !old(self).paths().contains(file@),
            final(self).paths() == (if r {
                old(self).paths().push(file@)
            } else {
                old(self).paths()
            }),
    {
        if self.contains(file) {
            return false;
        }
        self.files.push(file.clone());
        assert(self.paths() =~= old(self).paths().push(file@));
        proof {
            let p = self.paths();
            assert forall|a: int, b: int| 0 <= a < b < p.len() implies p[a] != p[b] by {
                if b == p.len() - 1 {
                    assert(old(self).paths()[a] == p[a]);
                }
            }
        }
        true
    }

    /// The directory at `index`, or `None` when `index` is negative or not
    /// below the count.
    pub fn get(&self, index: i32) -> (r: Option<File>)
        requires
            self.wf(),
        ensures
            r is Some <==> 0 <= index < self.paths().len(),
            r matches Some(f) ==> f@ == self.paths()[index as int],
    {
        if index < 0 || index >= self.len() {
            return None;
        }
        Some(self.files[index as usize].clone())
    }

    /// Consumes the search path into an iterator over its directories.
    pub fn into_iter(self) -> (r: FileSearchPathIter)
        requires
            self.wf(),
        ensures
            r.remaining() == self.paths(),
    {
        FileSearchPathIter { files: self.files }
    }
}

/// A consuming iterator over a search path.
pub struct FileSearchPathIter {
    files: Vec<File>,
}

impl FileSearchPathIter {
    /// The paths not yet handed out, in order.
    pub closed spec fn remaining(&self) -> Seq<Seq<char>> {
        self.files@.map_values(|f: File| f@)
    }

    /// Hands out the next directory, or `None` once all have been.
    pub fn next(&mut self) -> (r: Option<File>)
        ensures
            old(self).remaining().len() == 0 ==> r is None && final(self).remaining()
                == old(self).remaining(),
            old(self).remaining().len() > 0 ==> (r matches Some(f) && f@ == old(
                self,
            ).remaining()[0]) && final(self).remaining() == old(self).remaining().drop_first(),
    {
        if self.files.len() == 0 {
            return None;
        }
        let f = self.files.remove(0);
        assert(self.remaining() =~= old(self).remaining().drop_first());
        Some(f)
    }
}

} // verus!
