//! Filesystem paths as plain data.
//!
//! The supervisor only ever builds paths from segments and takes parents;
//! the host shell converts an [`FsPath`] into an OS path by joining the
//! segments, and reports back which candidate paths exist on disk.

use vstd::prelude::*;

verus! {

/// A filesystem path modelled as a sequence of segments.
#[derive(Debug, PartialEq, Eq)]
pub struct FsPath {
    pub segments: Vec<String>,
}

impl View for FsPath {
    type V = Seq<Seq<char>>;

    open spec fn view(&self) -> Seq<Seq<char>> {
        self.segments@.map_values(|s: String| s@)
    }
}

/// The directory a path sits in: every segment but the last. A path with
/// no segments is its own parent.
pub open spec fn parent_view(p: Seq<Seq<char>>) -> Seq<Seq<char>> {
    if p.len() > 0 {
        p.drop_last()
    } else {
        p
    }
}

/// Copies a vector of segments element by element.
fn cloned_segments(v: &Vec<String>) -> (r: Vec<String>)
    ensures
        r@ == v@,
{
    let mut r: Vec<String> = Vec::new();
    let mut i: usize = 0;
    while i < v.len()
        invariant
            i <= v@.len(),
            r@ == v@.subrange(0, i as int),
        decreases v@.len() - i,
    {
        r.push(v[i].clone());
        proof {
            assert(v@.subrange(0, i as int).push(v@[i as int]) =~= v@.subrange(0, i as int + 1));
        }
        i += 1;
    }
    proof {
        assert(v@.subrange(0, v@.len() as int) =~= v@);
    }
    r
}

impl FsPath {
    /// The path with no segments.
    pub fn empty() -> (r: FsPath)
        ensures
            r@ == Seq::<Seq<char>>::empty(),
    {
        let r = FsPath { segments: Vec::new() };
        proof {
            assert(r@ =~= Seq::<Seq<char>>::empty());
        }
        r
    }

    /// A path of a single segment.
    pub fn single(seg: &str) -> (r: FsPath)
        ensures
            r@ == seq![seg@],
    {
        let mut segments: Vec<String> = Vec::new();
        segments.push(seg.to_owned());
        let r = FsPath { segments };
        proof {
            assert(r@ =~= seq![seg@]);
        }
        r
    }

    /// An exact copy of the path.
    pub fn clone_path(&self) -> (r: FsPath)
        ensures
            r@ == self@,
    {
        FsPath { segments: cloned_segments(&self.segments) }
    }

    /// The path extended by one more segment.
    pub fn child(&self, seg: &str) -> (r: FsPath)
        ensures
            r@ == self@.push(seg@),
    {
        let mut segments = cloned_segments(&self.segments);
        segments.push(seg.to_owned());
        let r = FsPath { segments };
        proof {
            assert(r@ =~= self@.push(seg@));
        }
        r
    }

    /// The directory this path sits in.
    pub fn parent(&self) -> (r: FsPath)
        ensures
            r@ == parent_view(self@),
    {
        let mut segments = cloned_segments(&self.segments);
        if segments.len() > 0 {
            segments.pop();
        }
        let r = FsPath { segments };
        proof {
            assert(r@ =~= parent_view(self@));
        }
        r
    }
}

/// The working directory for a launched server: the directory holding the
/// entry script, so relative asset lookups inside the server resolve.
pub fn get_server_cwd(server_path: &FsPath) -> (r: FsPath)
    ensures
        r@ == parent_view(server_path@),
{
    server_path.parent()
}

} // verus!
