//! Common capability used to access archive bytes.

use vstd::prelude::*;

verus! {

use crate::utils::{intersect_slice, spec_intersect};

/// A trait used to access portions of a buffer at a time, without
/// (necessarily) having the full buffer in memory at any point in time.
///
/// An implementation juggling multiple buffers may need to use interior
/// mutability behind its read-only interface.
pub trait Reader {
    /// The full contents of the archive, as the contracts see it.
    spec fn contents(&self) -> Seq<u8>;

    /// Returns the size of the archive.
    fn size(&self) -> (n: usize)
        ensures
            n == self.contents().len(),
    ;

    /// Returns the slice of bytes corresponding to the intersection of the
    /// range `[start, end)` and the archive.
    fn get(&self, start: usize, end: usize) -> (r: &[u8])
        ensures
            r@ == spec_intersect(self.contents(), start as int, end as int),
    ;
}

impl Reader for [u8] {
    open spec fn contents(&self) -> Seq<u8> {
        self@
    }

    fn size(&self) -> (n: usize) {
        self.len()
    }

    fn get(&self, start: usize, end: usize) -> (r: &[u8]) {
        intersect_slice(self, start, end)
    }
}

} // verus!
