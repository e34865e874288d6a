//! The current browsing location: an absolute directory path together with
//! the listing of its immediate children.
//!
//! Directory contents are read from disk by the surrounding program; the
//! listing is handed in as plain values through [`FileManager::reload`].
//! Navigation first commits the new path (leaving the listing empty) and
//! the caller then reloads the listing for the new location, so the pair is
//! always replaced as one unit.

use vstd::prelude::*;

use crate::dirpath::DirPath;
use crate::dirpath::spec_parent;
use crate::entry::FileEntry;

verus! {

/// The current directory and the snapshot of its children.
pub struct FileManager {
    /// The absolute path of the directory being browsed.
    pub current_path: DirPath,
    /// The children of `current_path`, in the order they were listed.
    pub entries: Vec<FileEntry>,
}

impl FileManager {
    /// The path and every entry are well formed.
    pub open spec fn wf(&self) -> bool {
        &&& self.current_path.wf()
        &&& forall|i: int| 0 <= i < self.entries@.len() ==> self.entries@[i].wf()
    }

    /// Start browsing at the given path with the given listing.
    pub fn new(current_path: DirPath, entries: Vec<FileEntry>) -> (fm: FileManager)
        requires
            current_path.wf(),
            forall|i: int| 0 <= i < entries@.len() ==> entries@[i].wf(),
        ensures
            fm.current_path == current_path,
            fm.entries == entries,
            fm.wf(),
    {
        FileManager { current_path, entries }
    }

    /// Try to enter the entry at `index`.  Succeeds exactly when the index
    /// is in range and the entry is a directory; then the path gains that
    /// entry's name as a new last segment and the listing is emptied until
    /// the caller reloads it.  On failure nothing changes.
    pub fn navigate_to(&mut self, index: usize) -> (ok: bool)
        requires
            old(self).wf(),
        ensures
            final(self).wf(),
            ok == (index < old(self).entries@.len() && old(self).entries@[index as int].is_dir),
            ok ==> final(self).current_path@ == old(self).current_path@.push(
                old(self).entries@[index as int].name@,
            ) && final(self).entries@ == Seq::<FileEntry>::empty(),
            !ok ==> *final(self) == *old(self),
    {
        if index < self.entries.len() {
            if self.entries[index].is_dir {
                let name = self.entries[index].name.clone();
                self.current_path.descend(name);
                self.entries = Vec::new();
                proof {
                    assert(self.entries@ =~= Seq::<FileEntry>::empty());
                }
                return true;
            }
        }
        false
    }

    /// Move to the parent directory; at the root the path is unchanged.
    /// Either way the listing is emptied until the caller reloads it.
    pub fn go_back(&mut self)
        requires
            old(self).wf(),
        ensures
            final(self).wf(),
            final(self).current_path@ == spec_parent(old(self).current_path@),
            final(self).entries@ == Seq::<FileEntry>::empty(),
    {
        self.current_path.ascend();
        self.entries = Vec::new();
        proof {
            assert(self.entries@ =~= Seq::<FileEntry>::empty());
        }
    }

    /// Replace the listing with a freshly read one; the path is unchanged.
    pub fn reload(&mut self, listing: Vec<FileEntry>)
        requires
            old(self).wf(),
            forall|i: int| 0 <= i < listing@.len() ==> listing@[i].wf(),
        ensures
            final(self).wf(),
            final(self).current_path == old(self).current_path,
            final(self).entries == listing,
    {
        self.entries = listing;
    }
}

} // verus!
