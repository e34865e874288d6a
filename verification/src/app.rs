//! The navigation controller: cursor and scroll state over the current
//! directory listing, and the handlers for every user event.
//!
//! The central guarantee is the viewport invariant [`App::inv`]: after
//! every operation the selected row lies inside the visible window,
//! `offset_y <= selected_index <= offset_y + max_list - 1`, and the
//! selection indexes a real entry whenever the listing is non-empty.

use vstd::prelude::*;

use crate::dirpath::spec_parent;
use crate::entry::FileEntry;
use crate::manager::FileManager;

verus! {

/// The whole state of one browsing session.
pub struct App {
    /// Set when the session is over.
    pub exit: bool,
    /// The current directory and its listing.
    pub file_manager: FileManager,
    /// The index of the selected entry; `0` when the listing is empty.
    pub selected_index: usize,
    /// The number of list rows the terminal can show, at least `1`.
    pub max_list: usize,
    /// The index of the first visible row.
    pub offset_y: usize,
    /// Set when the user confirmed: the caller should report the current
    /// path on exit.
    pub get_path: bool,
}

/// The number of list rows a terminal of the given height can show: the
/// height minus the eight rows of fixed chrome, and never less than one.
pub open spec fn spec_viewport_rows(height: u16) -> usize {
    if height >= 9 {
        (height - 8) as usize
    } else {
        1
    }
}

impl App {
    /// The viewport invariant.  The scroll window always contains the
    /// selected row, the viewport is at least one row tall, and the
    /// selection is a valid index — `0` when the listing is empty.
    pub open spec fn inv(&self) -> bool {
        &&& self.file_manager.wf()
        &&& 1 <= self.max_list <= u16::MAX
        &&& self.offset_y <= self.selected_index
        &&& self.selected_index <= self.offset_y + self.max_list - 1
        &&& if self.file_manager.entries@.len() == 0 {
            self.selected_index == 0 && self.offset_y == 0
        } else {
            self.selected_index < self.file_manager.entries@.len()
        }
    }

    /// Start a session over the given location, with the cursor at the
    /// top and a viewport derived from the terminal height.
    pub fn new(height: u16, file_manager: FileManager) -> (app: App)
        requires
            file_manager.wf(),
        ensures
            app.inv(),
            !app.exit,
            !app.get_path,
            app.file_manager == file_manager,
            app.selected_index == 0,
            app.offset_y == 0,
            app.max_list == spec_viewport_rows(height),
    {
        let max_list: usize = if height >= 9 {
            (height - 8) as usize
        } else {
            1
        };
        App {
            exit: false,
            file_manager,
            selected_index: 0,
            max_list,
            offset_y: 0,
            get_path: false,
        }
    }

    /// Move the selection one row down.  A no-op on the last entry or on
    /// an empty listing; when the selection would leave the bottom of the
    /// window, the window scrolls down one row with it.
    pub fn move_down(&mut self)
        requires
            old(self).inv(),
        ensures
            final(self).inv(),
            final(self).file_manager == old(self).file_manager,
            final(self).max_list == old(self).max_list,
            final(self).exit == old(self).exit,
            final(self).get_path == old(self).get_path,
            old(self).selected_index + 1 < old(self).file_manager.entries@.len() ==> {
                &&& final(self).selected_index == old(self).selected_index + 1
                &&& final(self).offset_y == if old(self).selected_index + 2 > old(self).offset_y
                    + old(self).max_list {
                    old(self).offset_y + 1
                } else {
                    old(self).offset_y as int
                }
            },
            old(self).selected_index + 1 >= old(self).file_manager.entries@.len() ==> *final(self)
                == *old(self),
    {
        let len = self.file_manager.entries.len();
        if self.selected_index < len && self.selected_index + 1 < len {
            if self.selected_index - self.offset_y + 2 > self.max_list {
                self.offset_y = self.offset_y + 1;
            }
            self.selected_index = self.selected_index + 1;
        }
    }

    /// Move the selection one row up.  A no-op on the first entry; when
    /// the selection would leave the top of the window, the window scrolls
    /// up one row with it.
    pub fn move_up(&mut self)
        requires
            old(self).inv(),
        ensures
            final(self).inv(),
            final(self).file_manager == old(self).file_manager,
            final(self).max_list == old(self).max_list,
            final(self).exit == old(self).exit,
            final(self).get_path == old(self).get_path,
            old(self).selected_index > 0 ==> {
                &&& final(self).selected_index == old(self).selected_index - 1
                &&& final(self).offset_y == if old(self).selected_index - 1 < old(self).offset_y {
                    (old(self).offset_y - 1) as usize
                } else {
                    old(self).offset_y
                }
            },
            old(self).selected_index == 0 ==> *final(self) == *old(self),
    {
        if self.selected_index > 0 {
            if self.selected_index - 1 < self.offset_y {
                self.offset_y = self.offset_y - 1;
            }
            self.selected_index = self.selected_index - 1;
        }
    }

    /// Try to enter the selected entry.  Succeeds exactly when it is a
    /// directory; then the path gains its name, the cursor and the scroll
    /// window reset to the top, and the listing is empty until the caller
    /// reloads it.  On failure nothing changes.
    pub fn descend(&mut self) -> (ok: bool)
        requires
            old(self).inv(),
        ensures
            final(self).inv(),
            final(self).max_list == old(self).max_list,
            final(self).exit == old(self).exit,
            final(self).get_path == old(self).get_path,
            ok == (old(self).selected_index < old(self).file_manager.entries@.len() && old(
                self,
            ).file_manager.entries@[old(self).selected_index as int].is_dir),
            ok ==> {
                &&& final(self).file_manager.current_path@ == old(
                    self,
                ).file_manager.current_path@.push(
                    old(self).file_manager.entries@[old(self).selected_index as int].name@,
                )
                &&& final(self).file_manager.entries@ == Seq::<FileEntry>::empty()
                &&& final(self).selected_index == 0
                &&& final(self).offset_y == 0
            },
            !ok ==> *final(self) == *old(self),
    {
        let ok = self.file_manager.navigate_to(self.selected_index);
        if ok {
            self.offset_y = 0;
            self.selected_index = 0;
        }
        ok
    }

    /// Move to the parent directory.  The path loses its last segment (at
    /// the root it is unchanged), the cursor and the scroll window reset
    /// to the top, and the listing is empty until the caller reloads it.
    pub fn ascend(&mut self)
        requires
            old(self).inv(),
        ensures
            final(self).inv(),
            final(self).max_list == old(self).max_list,
            final(self).exit == old(self).exit,
            final(self).get_path == old(self).get_path,
            final(self).file_manager.current_path@ == spec_parent(
                old(self).file_manager.current_path@,
            ),
            final(self).file_manager.entries@ == Seq::<FileEntry>::empty(),
            final(self).selected_index == 0,
            final(self).offset_y == 0,
    {
        self.offset_y = 0;
        self.file_manager.go_back();
        self.selected_index = 0;
    }

    /// Replace the listing with a freshly read one for the current path.
    /// The cursor and the scroll window reset to the top, so the viewport
    /// invariant holds whatever the new listing's length.
    pub fn reload(&mut self, listing: Vec<FileEntry>)
        requires
            old(self).inv(),
            forall|i: int| 0 <= i < listing@.len() ==> listing@[i].wf(),
        ensures
            final(self).inv(),
            final(self).max_list == old(self).max_list,
            final(self).exit == old(self).exit,
            final(self).get_path == old(self).get_path,
            final(self).file_manager.current_path == old(self).file_manager.current_path,
            final(self).file_manager.entries == listing,
            final(self).selected_index == 0,
            final(self).offset_y == 0,
    {
        self.file_manager.reload(listing);
        self.selected_index = 0;
        self.offset_y = 0;
    }

    /// Accept the current directory: end the session and have the caller
    /// report the current path.  Navigation state is untouched.
    pub fn confirm(&mut self)
        requires
            old(self).inv(),
        ensures
            final(self).inv(),
            final(self).exit,
            final(self).get_path,
            final(self).file_manager == old(self).file_manager,
            final(self).selected_index == old(self).selected_index,
            final(self).offset_y == old(self).offset_y,
            final(self).max_list == old(self).max_list,
    {
        self.get_path = true;
        self.exit = true;
    }

    /// End the session without accepting anything: the caller reports no
    /// path.  Navigation state is untouched.
    pub fn quit(&mut self)
        requires
            old(self).inv(),
        ensures
            final(self).inv(),
            final(self).exit,
            final(self).get_path == old(self).get_path,
            final(self).file_manager == old(self).file_manager,
            final(self).selected_index == old(self).selected_index,
            final(self).offset_y == old(self).offset_y,
            final(self).max_list == old(self).max_list,
    {
        self.exit = true;
    }

    /// Recompute the viewport from a new terminal height.  If the window
    /// shrank past the selected row, the selection is clamped up to the
    /// new bottom visible row, so the viewport invariant still holds.
    pub fn resize(&mut self, height: u16)
        requires
            old(self).inv(),
        ensures
            final(self).inv(),
            final(self).exit == old(self).exit,
            final(self).get_path == old(self).get_path,
            final(self).file_manager == old(self).file_manager,
            final(self).max_list == spec_viewport_rows(height),
            final(self).offset_y == old(self).offset_y,
            final(self).selected_index == if old(self).selected_index > old(self).offset_y
                + spec_viewport_rows(height) - 1 {
                (old(self).offset_y + spec_viewport_rows(height) - 1) as usize
            } else {
                old(self).selected_index
            },
    {
        self.max_list = if height >= 9 {
            (height - 8) as usize
        } else {
            1
        };
        if self.selected_index - self.offset_y > self.max_list - 1 {
            self.selected_index = self.offset_y + (self.max_list - 1);
        }
    }
}

} // verus!
