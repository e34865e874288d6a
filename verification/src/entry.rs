//! One child of the current directory: its display name, whether it is a
//! directory, and — for files — the lower-cased extension taken from the
//! name.

use vstd::prelude::*;

verus! {

/// What `str::to_lowercase` returns for a given sequence of characters.
/// The mapping is Unicode case conversion; it depends on the characters
/// alone.
pub uninterp spec fn lower_of(s: Seq<char>) -> Seq<char>;

/// Relies on `str::to_lowercase`: Unicode lowercasing, determined by the
/// input characters alone; an empty input gives an empty result.
#[verifier::external_body]
fn lowercase(s: &str) -> (r: String)
    ensures
        r@ == lower_of(s@),
        s@.len() == 0 ==> r@.len() == 0,
{
    s.to_lowercase()
}

/// The index of the rightmost `.` in `s`, or `-1` if there is none.
pub open spec fn rightmost_dot(s: Seq<char>) -> int
    decreases s.len(),
{
    if s.len() == 0 {
        -1
    } else if s.last() == '.' {
        s.len() - 1
    } else {
        rightmost_dot(s.drop_last())
    }
}

/// The extension of a file name: the part after the rightmost `.`,
/// lower-cased.  A name with no `.`, or whose only `.` is the leading
/// character (a hidden file such as `.bashrc`), has no extension.
pub open spec fn spec_extension_of(name: Seq<char>) -> Option<Seq<char>> {
    let d = rightmost_dot(name);
    if d >= 1 {
        Some(lower_of(name.subrange(d + 1, name.len() as int)))
    } else {
        None
    }
}

/// The view of an optional owned string.
pub open spec fn opt_string_view(o: Option<String>) -> Option<Seq<char>> {
    match o {
        Some(s) => Some(s@),
        None => None,
    }
}

/// The extension of a file name, lower-cased: the part after the rightmost
/// `.`, unless the name has no `.` or only a leading one.
pub fn extension_of(name: &str) -> (r: Option<String>)
    ensures
        opt_string_view(r) == spec_extension_of(name@),
{
    let len = name.unicode_len();
    let mut last_dot: Option<usize> = None;
    let mut i: usize = 0;
    while i < len
        invariant
            i <= len,
            len == name@.len(),
            match last_dot {
                Some(j) => j < i && rightmost_dot(name@.take(i as int)) == j as int,
                None => rightmost_dot(name@.take(i as int)) == -1,
            },
        decreases len - i,
    {
        let c = name.get_char(i);
        proof {
            assert(name@.take(i + 1).drop_last() =~= name@.take(i as int));
            assert(name@.take(i + 1).last() == name@[i as int]);
        }
        if c == '.' {
            last_dot = Some(i);
        }
        i += 1;
    }
    proof {
        assert(name@.take(len as int) =~= name@);
    }
    if let Some(j) = last_dot {
        if j >= 1 {
            let raw = name.substring_char(j + 1, len);
            return Some(lowercase(raw));
        }
    }
    None
}

/// One immediate child of the current directory.
pub struct FileEntry {
    /// The final path component, never empty.
    pub name: String,
    /// Whether the child is itself a directory.
    pub is_dir: bool,
    /// For files, the lower-cased extension of the name, if the name has
    /// one; always `None` for directories.
    pub extension: Option<String>,
}

impl FileEntry {
    /// The name is non-empty, directories carry no extension, and a file's
    /// extension is exactly the one its name yields.
    pub open spec fn wf(&self) -> bool {
        &&& self.name@.len() > 0
        &&& self.is_dir ==> self.extension is None
        &&& !self.is_dir ==> opt_string_view(self.extension) == spec_extension_of(self.name@)
    }

    /// Build an entry from a name and the directory flag, deriving the
    /// extension from the name for files.
    pub fn new(name: String, is_dir: bool) -> (e: FileEntry)
        requires
            name@.len() > 0,
        ensures
            e.name == name,
            e.is_dir == is_dir,
            e.wf(),
    {
        let extension = if is_dir {
            None
        } else {
            extension_of(name.as_str())
        };
        FileEntry { name, is_dir, extension }
    }
}

} // verus!
