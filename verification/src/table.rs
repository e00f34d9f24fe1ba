//! The decoded mapping table: ordered address ranges with backing files.

use vstd::prelude::*;

verus! {

/// One contiguous virtual-address range of the crashed process, backed by a
/// named file at the given offset.
#[derive(Debug, Clone, PartialEq)]
pub struct Stackframe {
    pub start: u64,
    pub end: u64,
    pub offset: u64,
    pub name: String,
}

/// Whether `addr` lies inside the range of `f` (start inclusive, end exclusive).
pub open spec fn frame_contains(f: Stackframe, addr: u64) -> bool {
    f.start <= addr < f.end
}

/// The index of the first entry of `frames` whose range contains `addr`, in
/// table order, if any. Where ranges overlap, the earliest entry wins.
pub open spec fn first_match(frames: Seq<Stackframe>, addr: u64) -> Option<int>
    decreases frames.len(),
{
    if frames.len() == 0 {
        None
    } else if frame_contains(frames[0], addr) {
        Some(0)
    } else {
        match first_match(frames.drop_first(), addr) {
            None => None,
            Some(i) => Some(i + 1),
        }
    }
}

/// `first_match` returns exactly the least matching index.
pub proof fn lemma_first_match_is(frames: Seq<Stackframe>, addr: u64, i: int)
    requires
        0 <= i <= frames.len(),
        forall|k: int| 0 <= k < i ==> !frame_contains(frames[k], addr),
        i < frames.len() ==> frame_contains(frames[i], addr),
    ensures
        i < frames.len() ==> first_match(frames, addr) == Some(i),
        i == frames.len() ==> first_match(frames, addr) is None,
    decreases frames.len(),
{
    if frames.len() == 0 {
    } else if i == 0 {
        if frames.len() > 0 && !frame_contains(frames[0], addr) {
            lemma_first_match_is(frames.drop_first(), addr, if i == 0 { 0 } else { i - 1 });
        }
    } else {
        assert(!frame_contains(frames[0], addr));
        lemma_first_match_is(frames.drop_first(), addr, i - 1);
        assert(forall|k: int|
            0 <= k < i - 1 ==> frames.drop_first()[k] == frames[k + 1]
                && !frame_contains(frames[k + 1], addr));
    }
}

/// A matching index returned by `first_match` really matches.
pub proof fn lemma_first_match_hit(frames: Seq<Stackframe>, addr: u64)
    requires
        first_match(frames, addr) is Some,
    ensures
        0 <= first_match(frames, addr).unwrap() < frames.len(),
        frame_contains(frames[first_match(frames, addr).unwrap()], addr),
    decreases frames.len(),
{
    if frames.len() == 0 {
    } else if frame_contains(frames[0], addr) {
    } else {
        lemma_first_match_hit(frames.drop_first(), addr);
    }
}

/// The decoded mapped-file note: the page size recorded in the note's header
/// and the ordered table of memory mappings.
#[derive(Debug)]
pub struct CoredumpNotesHeader {
    pub page_size: u64,
    pub frames: Vec<Stackframe>,
}

impl CoredumpNotesHeader {
    /// An empty table carrying the note's page size.
    pub fn new(page_size: u64) -> (r: Self)
        ensures
            r.page_size == page_size,
            r.frames@ =~= Seq::<Stackframe>::empty(),
    {
        Self { page_size, frames: Vec::new() }
    }

    /// Append one mapping entry at the end of the table.
    pub fn add_frame(&mut self, frame: Stackframe)
        ensures
            final(self).page_size == old(self).page_size,
            final(self).frames@ == old(self).frames@.push(frame),
    {
        self.frames.push(frame);
    }

    /// The first entry in table order whose range contains `addr`, if any.
    /// Absence is the normal outcome for addresses in anonymous memory.
    pub fn find(&self, addr: u64) -> (r: Option<&Stackframe>)
        ensures
            r is Some <==> first_match(self.frames@, addr) is Some,
            r matches Some(f) ==> *f == self.frames@[first_match(self.frames@, addr).unwrap()]
                && frame_contains(*f, addr),
            r is None ==> forall|k: int|
                0 <= k < self.frames@.len() ==> !frame_contains(#[trigger] self.frames@[k], addr),
    {
        let n = self.frames.len();
        for i in 0..n
            invariant
                n == self.frames@.len(),
                forall|k: int| 0 <= k < i ==> !frame_contains(self.frames@[k], addr),
        {
            if self.frames[i].start <= addr && addr < self.frames[i].end {
                proof {
                    lemma_first_match_is(self.frames@, addr, i as int);
                }
                return Some(&self.frames[i]);
            }
        }
        proof {
            lemma_first_match_is(self.frames@, addr, n as int);
        }
        None
    }
}

} // verus!
