//! Data Descriptor record reader.
//!
//! When bit 0x08 of the general purpose bit flag in the Local File Header is
//! set, the compressed size, uncompressed size and CRC-32 of the file were
//! unknown at the time of writing (when streaming, for example). The Local
//! File Header then contains zeroes in those three fields and a Data
//! Descriptor is appended after the compressed data.
//!
//! Layout (all multi-byte fields little-endian):
//!
//! | Offset | Bytes | Description                                      |
//! |--------|-------|--------------------------------------------------|
//! |      0 |   0/4 | Optional data descriptor signature = 0x08074b50  |
//! |    0/4 |     4 | CRC-32                                           |
//! |    4/8 |     4 | Compressed size                                  |
//! |   8/12 |     4 | Uncompressed size                                |

use vstd::prelude::*;

verus! {

use crate::utils::{DEADBEEF, Slice, read_u32_le, spec_u32_at};

/// A Data Descriptor record.
///
/// This structure only guarantees that access to its various fields is safe,
/// it does not guarantee their integrity.
#[derive(Clone, Copy, Debug, PartialEq, Eq)]
pub struct DataDescriptorReader<'a> {
    data: Slice<'a>,
}

impl<'a> View for DataDescriptorReader<'a> {
    type V = Seq<u8>;

    closed spec fn view(&self) -> Seq<u8> {
        self.data@
    }
}

impl<'a> DataDescriptorReader<'a> {
    /// A constructed reader always holds a well-formed backing slice of one
    /// of the record's two exact sizes.
    pub closed spec fn wf(&self) -> bool {
        &&& self.data.wf()
        &&& (self.data@.len() == 12 || self.data@.len() == 16)
    }

    /// Whether the record carries the optional leading signature, which
    /// holds exactly when the backing slice has the larger of the two valid
    /// sizes.
    pub open spec fn spec_has_signature(&self) -> bool {
        self@.len() == 16
    }

    /// Returns the minimum size of the record.
    pub fn min_size() -> (n: usize)
        ensures
            n == 12,
    {
        12
    }

    /// Returns the maximum size of the record.
    pub fn max_size() -> (n: usize)
        ensures
            n == 16,
    {
        12 + 4
    }

    /// Returns the expected signature.
    pub fn expected_signature() -> (r: u32)
        ensures
            r == 0x08074b50,
    {
        0x08074b50
    }

    /// Returns a new instance if the slice is either 12 bytes or 16 bytes
    /// long, otherwise returns `None`. The two exact sizes correspond to the
    /// "signature absent" and "signature present" variants, which cannot
    /// otherwise be told apart.
    ///
    /// Note that the signature is not checked, this is so that decoding
    /// potentially corrupted archives is still possible.
    pub fn new(slice: Slice<'a>) -> (r: Option<DataDescriptorReader<'a>>)
        requires
            slice.wf(),
        ensures
            (slice@.len() == 12 || slice@.len() == 16) ==> (r matches Some(d) && d.wf() && d@
                == slice@ && d.spec_offset() == slice.spec_offset()),
            !(slice@.len() == 12 || slice@.len() == 16) ==> r is None,
    {
        let len = slice.len();
        if len == 12 || len == 16 {
            Some(DataDescriptorReader { data: slice })
        } else {
            None
        }
    }

    /// Returns the underlying slice.
    pub fn raw(&self) -> (r: Slice<'a>)
        ensures
            r@ == self@,
            r.spec_offset() == self.spec_offset(),
            self.wf() ==> r.wf(),
    {
        self.data
    }

    /// The position of the record's first byte, counted from the start of
    /// the buffer its backing slice was carved from.
    pub closed spec fn spec_offset(&self) -> int {
        self.data.spec_offset()
    }

    /// Returns whether this instance has a signature field, or not.
    pub fn has_signature(&self) -> (r: bool)
        requires
            self.wf(),
        ensures
            r == self.spec_has_signature(),
    {
        self.data.len() == 16
    }

    /// Returns the signature when the record carries one, `None` otherwise.
    pub fn signature(&self) -> (r: Option<u32>)
        requires
            self.wf(),
        ensures
            self.spec_has_signature() ==> r == Some(spec_u32_at(self@, 0)),
            !self.spec_has_signature() ==> r is None,
    {
        if self.has_signature() {
            Some(self.read_u32(0, 4))
        } else {
            None
        }
    }

    /// Returns the CRC-32 of the file.
    ///
    /// (see `CentralDirectoryFileHeaderReader` for more ample information)
    pub fn crc32(&self) -> (r: u32)
        requires
            self.wf(),
        ensures
            r == spec_u32_at(self@, if self.spec_has_signature() { 4 } else { 0 }),
    {
        if self.has_signature() {
            self.read_u32(4, 8)
        } else {
            self.read_u32(0, 4)
        }
    }

    /// Returns the compressed size of the file.
    pub fn compressed_size(&self) -> (r: u32)
        requires
            self.wf(),
        ensures
            r == spec_u32_at(self@, if self.spec_has_signature() { 8 } else { 4 }),
    {
        if self.has_signature() {
            self.read_u32(8, 12)
        } else {
            self.read_u32(4, 8)
        }
    }

    /// Returns the uncompressed size of the file.
    pub fn uncompressed_size(&self) -> (r: u32)
        requires
            self.wf(),
        ensures
            r == spec_u32_at(self@, if self.spec_has_signature() { 12 } else { 8 }),
    {
        if self.has_signature() {
            self.read_u32(12, 16)
        } else {
            self.read_u32(8, 12)
        }
    }

    /// Interprets the 4 bytes at `[start, end)` as a u32 (little-endian).
    fn read_u32(&self, start: usize, end: usize) -> (r: u32)
        requires
            self.wf(),
            start + 4 == end,
            end <= self@.len(),
        ensures
            r == spec_u32_at(self@, start as int),
    {
        match self.data.slice(start, end) {
            Some(s) => match read_u32_le(s) {
                Some(v) => v,
                None => DEADBEEF,
            },
            None => DEADBEEF,
        }
    }
}

} // verus!
