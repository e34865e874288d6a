//! Absolute directory paths, modeled as the sequence of path segments
//! below the filesystem root.

use vstd::prelude::*;

verus! {

/// An absolute directory path: the names of the directories between the
/// filesystem root and this directory, in order.  The root itself is the
/// empty sequence of segments.
pub struct DirPath {
    pub segments: Vec<String>,
}

/// The parent of a path: the path without its last segment.  The root is
/// its own parent, so ascending past the root is a no-op.
pub open spec fn spec_parent(segs: Seq<Seq<char>>) -> Seq<Seq<char>> {
    if segs.len() == 0 {
        segs
    } else {
        segs.drop_last()
    }
}

/// The textual form of the segments: a `/` before each segment, in order.
pub open spec fn spec_segments_string(segs: Seq<Seq<char>>) -> Seq<char>
    decreases segs.len(),
{
    if segs.len() == 0 {
        Seq::<char>::empty()
    } else {
        spec_segments_string(segs.drop_last()) + "/"@ + segs.last()
    }
}

/// The textual form of a whole path: `/` for the root, otherwise a `/`
/// before each segment.
pub open spec fn spec_path_string(segs: Seq<Seq<char>>) -> Seq<char> {
    if segs.len() == 0 {
        "/"@
    } else {
        spec_segments_string(segs)
    }
}

impl View for DirPath {
    type V = Seq<Seq<char>>;

    open spec fn view(&self) -> Seq<Seq<char>> {
        self.segments.deep_view()
    }
}

impl DirPath {
    /// Every segment is a non-empty name.
    pub open spec fn wf(&self) -> bool {
        forall|i: int| 0 <= i < self@.len() ==> self@[i].len() > 0
    }

    /// The filesystem root: the path with no segments.
    pub fn root() -> (p: DirPath)
        ensures
            p@ == Seq::<Seq<char>>::empty(),
            p.wf(),
    {
        let p = DirPath { segments: Vec::new() };
        proof {
            assert(p@ =~= Seq::<Seq<char>>::empty());
        }
        p
    }

    /// Whether this path is the filesystem root.
    pub fn is_root(&self) -> (r: bool)
        ensures
            r == (self@.len() == 0),
    {
        self.segments.len() == 0
    }

    /// Append one segment: the path of the named child directory.
    pub fn descend(&mut self, name: String)
        requires
            old(self).wf(),
            name@.len() > 0,
        ensures
            final(self).wf(),
            final(self)@ == old(self)@.push(name@),
    {
        self.segments.push(name);
        proof {
            assert(self@ =~= old(self)@.push(name@));
        }
    }

    /// Drop the last segment: move to the parent directory.  At the root
    /// this is a no-op.
    pub fn ascend(&mut self)
        requires
            old(self).wf(),
        ensures
            final(self).wf(),
            final(self)@ == spec_parent(old(self)@),
    {
        if self.segments.len() > 0 {
            let _ = self.segments.pop();
            proof {
                assert(self@ =~= old(self)@.drop_last());
            }
        }
    }

    /// The textual form of the path, such as `/home/user/docs`, or `/` for
    /// the root.
    pub fn display_string(&self) -> (r: String)
        ensures
            r@ == spec_path_string(self@),
    {
        if self.segments.len() == 0 {
            return String::from_str("/");
        }
        let ghost segs: Seq<Seq<char>> = self@;
        let mut r = String::new();
        let mut i: usize = 0;
        while i < self.segments.len()
            invariant
                i <= self.segments.len(),
                segs == self@,
                segs.len() == self.segments.len(),
                r@ == spec_segments_string(segs.take(i as int)),
            decreases self.segments.len() - i,
        {
            proof {
                assert(segs.take(i + 1).drop_last() =~= segs.take(i as int));
                assert(segs.take(i + 1).last() == segs[i as int]);
            }
            r.append("/");
            r.append(self.segments[i].as_str());
            i += 1;
        }
        proof {
            assert(segs.take(segs.len() as int) =~= segs);
        }
        r
    }
}

/// Ascending at the root changes nothing: once `current_path` is the root,
/// any number of further ascends leaves it unchanged.
pub proof fn lemma_ascend_at_root(segs: Seq<Seq<char>>)
    requires
        segs.len() == 0,
    ensures
        spec_parent(segs) == segs,
{
}

/// Round trip: descending into a child directory and then ascending
/// returns the path to its original value.
pub proof fn lemma_descend_then_ascend(segs: Seq<Seq<char>>, name: Seq<char>)
    ensures
        spec_parent(segs.push(name)) == segs,
{
    assert(segs.push(name).drop_last() =~= segs);
}

} // verus!
