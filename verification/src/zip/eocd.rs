//! End of Central Directory record reader.
//!
//! Layout (all multi-byte fields little-endian):
//!
//! | Offset | Bytes | Description                                       |
//! |--------|-------|---------------------------------------------------|
//! |      0 |     4 | End of central directory signature = 0x06054b50   |
//! |      4 |     2 | Number of this disk                               |
//! |      6 |     2 | Disk where central directory starts               |
//! |      8 |     2 | Number of central directory records on this disk  |
//! |     10 |     2 | Total number of central directory records         |
//! |     12 |     4 | Size of central directory (bytes)                 |
//! |     16 |     4 | Offset of start of central directory              |
//! |     20 |     2 | Comment length (n)                                |
//! |     22 |     n | Comment                                           |

use vstd::prelude::*;

verus! {

use vstd::math::min;
use crate::utils::{LeFieldReader, Slice, spec_u16_at, spec_u32_at};

/// An End of Central Directory record.
///
/// This structure only guarantees that access to its various fields is safe,
/// it does not guarantee their integrity.
#[derive(Clone, Copy, Debug, PartialEq, Eq)]
pub struct EndOfCentralDirectoryReader<'a> {
    data: Slice<'a>,
}

impl<'a> View for EndOfCentralDirectoryReader<'a> {
    type V = Seq<u8>;

    closed spec fn view(&self) -> Seq<u8> {
        self.data@
    }
}

impl<'a> EndOfCentralDirectoryReader<'a> {
    /// A constructed reader always holds a well-formed backing slice of at
    /// least the fixed-header size, truncated to the record's maximum size.
    pub closed spec fn wf(&self) -> bool {
        &&& self.data.wf()
        &&& 22 <= self.data@.len() <= 65557
    }

    /// The position of the record's first byte, counted from the start of
    /// the buffer its backing slice was carved from.
    pub closed spec fn spec_offset(&self) -> int {
        self.data.spec_offset()
    }

    /// Returns the minimum size of the record.
    pub fn min_size() -> (n: usize)
        ensures
            n == 22,
    {
        22
    }

    /// Returns the maximum size of the record.
    pub fn max_size() -> (n: usize)
        ensures
            n == 65557,
    {
        22 + 65535
    }

    /// Returns the expected signature.
    pub fn expected_signature() -> (r: u32)
        ensures
            r == 0x06054b50,
    {
        0x06054b50
    }

    /// Returns a new instance if the slice is sufficiently large (22 bytes),
    /// otherwise returns `None`. The backing slice is truncated to
    /// `max_size()` bytes, so that an over-long buffer never makes the
    /// comment extend beyond the format's legal maximum.
    ///
    /// Note that neither the signature nor the size of the comment field are
    /// checked, this is so that decoding potentially corrupted archives is
    /// still possible.
    pub fn new(slice: Slice<'a>) -> (r: Option<EndOfCentralDirectoryReader<'a>>)
        requires
            slice.wf(),
        ensures
            slice@.len() >= 22 ==> (r matches Some(e) && e.wf() && e@ == slice@.subrange(
                0,
                min(slice@.len() as int, 65557),
            ) && e.spec_offset() == slice.spec_offset()),
            slice@.len() < 22 ==> r is None,
    {
        if slice.len() >= 22 {
            Some(EndOfCentralDirectoryReader { data: slice.take(22 + 65535) })
        } else {
            None
        }
    }

    /// Returns the underlying slice.
    pub fn raw(&self) -> (r: Slice<'a>)
        ensures
            r@ == self@,
            r.spec_offset() == self.spec_offset(),
            self.wf() ==> r.wf(),
    {
        self.data
    }

    /// Returns the signature.
    pub fn signature(&self) -> (r: u32)
        requires
            self.wf(),
        ensures
            r == spec_u32_at(self@, 0),
    {
        self.read_u32(0, 4)
    }

    /// Returns the number of the disk.
    pub fn disk(&self) -> (r: u16)
        requires
            self.wf(),
        ensures
            r == spec_u16_at(self@, 4),
    {
        self.read_u16(4, 6)
    }

    /// Returns the number of the disk where the central directory starts.
    pub fn central_directory_disk(&self) -> (r: u16)
        requires
            self.wf(),
        ensures
            r == spec_u16_at(self@, 6),
    {
        self.read_u16(6, 8)
    }

    /// Returns the number of central directory records on this disk.
    pub fn nb_local_central_directory_records(&self) -> (r: u16)
        requires
            self.wf(),
        ensures
            r == spec_u16_at(self@, 8),
    {
        self.read_u16(8, 10)
    }

    /// Returns the number of central directory records on all disks.
    pub fn nb_central_directory_records(&self) -> (r: u16)
        requires
            self.wf(),
        ensures
            r == spec_u16_at(self@, 10),
    {
        self.read_u16(10, 12)
    }

    /// Returns the size of the central directory (in bytes).
    pub fn central_directory_size(&self) -> (r: u32)
        requires
            self.wf(),
        ensures
            r == spec_u32_at(self@, 12),
    {
        self.read_u32(12, 16)
    }

    /// Returns the offset of the central directory, from start of archive.
    pub fn central_directory_offset(&self) -> (r: u32)
        requires
            self.wf(),
        ensures
            r == spec_u32_at(self@, 16),
    {
        self.read_u32(16, 20)
    }

    /// Returns the comment field size.
    pub fn comment_size(&self) -> (r: u16)
        requires
            self.wf(),
        ensures
            r == spec_u16_at(self@, 20),
    {
        self.read_u16(20, 22)
    }

    /// Returns the comment field, possibly of length 0, or `None` if the
    /// slice is truncated relative to the declared comment size.
    pub fn comment(&self) -> (r: Option<&'a [u8]>)
        requires
            self.wf(),
        ensures
            ({
                let n = spec_u16_at(self@, 20) as int;
                &&& 22 + n <= self@.len() ==> (r matches Some(b) && b@ == self@.subrange(
                    22,
                    22 + n,
                ))
                &&& 22 + n > self@.len() ==> r is None
            }),
    {
        let n = self.comment_size();
        match self.data.slice(22, 22 + n as usize) {
            Some(s) => Some(s.raw()),
            None => None,
        }
    }
}

impl<'a> LeFieldReader<'a> for EndOfCentralDirectoryReader<'a> {
    closed spec fn view_slice(&self) -> Slice<'a> {
        self.data
    }

    closed spec fn spec_min_size() -> usize {
        22
    }

    fn min_size() -> (n: usize) {
        22
    }

    fn get_slice(&self) -> (s: Slice<'a>) {
        self.data
    }
}

} // verus!
