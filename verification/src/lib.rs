//! Navigation core of an interactive terminal file browser.
//!
//! The library models the browsing state: the current absolute directory
//! path, the listing of its children, and the cursor/scroll viewport over
//! that listing.  All state transitions (moving the cursor, descending into
//! a child directory, ascending to the parent, resizing the viewport,
//! confirming or quitting) are verified to keep the cursor and the scroll
//! window consistent.  Reading directories from disk and drawing the screen
//! are left to the surrounding program, which hands the results in as plain
//! values.

pub mod app;
pub mod dirpath;
pub mod entry;
pub mod icon;
pub mod manager;

pub use app::App;
pub use dirpath::DirPath;
pub use entry::FileEntry;
pub use entry::extension_of;
pub use icon::get_icon_from_extension;
pub use manager::FileManager;
