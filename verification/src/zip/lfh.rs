//! Local File Header record reader.
//!
//! Layout (all multi-byte fields little-endian):
//!
//! | Offset | Bytes | Description                                |
//! |--------|-------|--------------------------------------------|
//! |      0 |     4 | Local file header signature = 0x04034b50   |
//! |      4 |     2 | Version needed to extract (minimum)        |
//! |      6 |     2 | General purpose bit flag                   |
//! |      8 |     2 | Compression method                         |
//! |     10 |     2 | File last modification time                |
//! |     12 |     2 | File last modification date                |
//! |     14 |     4 | CRC-32                                     |
//! |     18 |     4 | Compressed size                            |
//! |     22 |     4 | Uncompressed size                          |
//! |     26 |     2 | File name length (n)                       |
//! |     28 |     2 | Extra field length (m)                     |
//! |     30 |     n | File name                                  |
//! |   30+n |     m | Extra field                                |
//!
//! In a well-formed archive this information is redundant with the Central
//! Directory File Header of the same file; it is stored again here to allow
//! recovering data from incomplete or corrupted archives.

use vstd::prelude::*;

verus! {

use crate::utils::{LeFieldReader, Slice, spec_u16_at, spec_u32_at};

/// A Local File Header record.
///
/// This structure only guarantees that access to its various fields is safe,
/// it does not guarantee their integrity.
#[derive(Clone, Copy, Debug, PartialEq, Eq)]
pub struct LocalFileHeaderReader<'a> {
    data: Slice<'a>,
}

impl<'a> View for LocalFileHeaderReader<'a> {
    type V = Seq<u8>;

    closed spec fn view(&self) -> Seq<u8> {
        self.data@
    }
}

impl<'a> LocalFileHeaderReader<'a> {
    /// A constructed reader always holds a well-formed backing slice of at
    /// least the fixed-header size.
    pub closed spec fn wf(&self) -> bool {
        &&& self.data.wf()
        &&& self.data@.len() >= 30
    }

    /// The position of the record's first byte, counted from the start of
    /// the buffer its backing slice was carved from.
    pub closed spec fn spec_offset(&self) -> int {
        self.data.spec_offset()
    }

    /// Returns the minimum size of the record.
    pub fn min_size() -> (n: usize)
        ensures
            n == 30,
    {
        30
    }

    /// Returns the maximum size of the record.
    pub fn max_size() -> (n: usize)
        ensures
            n == 30 + 65535 * 2,
    {
        30 + 65535 * 2
    }

    /// Returns the expected signature.
    pub fn expected_signature() -> (r: u32)
        ensures
            r == 0x04034b50,
    {
        0x04034b50
    }

    /// Returns a new instance if the slice is sufficiently large (30 bytes),
    /// otherwise returns `None`.
    ///
    /// Note that neither the signature nor the size of the dynamic fields
    /// are checked, this is so that decoding potentially corrupted archives
    /// is still possible.
    pub fn new(slice: Slice<'a>) -> (r: Option<LocalFileHeaderReader<'a>>)
        requires
            slice.wf(),
        ensures
            slice@.len() >= 30 ==> (r matches Some(h) && h.wf() && h@ == slice@
                && h.spec_offset() == slice.spec_offset()),
            slice@.len() < 30 ==> r is None,
    {
        if slice.len() >= 30 {
            Some(LocalFileHeaderReader { data: slice })
        } else {
            None
        }
    }

    /// Returns the signature.
    pub fn signature(&self) -> (r: u32)
        requires
            self.wf(),
        ensures
            r == spec_u32_at(self@, 0),
    {
        self.read_u32(0, 4)
    }

    /// Returns the minimum ZIP version needed to extract.
    ///
    /// (see `CentralDirectoryFileHeaderReader` for more ample information)
    pub fn version_needed_to_extract(&self) -> (r: u16)
        requires
            self.wf(),
        ensures
            r == spec_u16_at(self@, 4),
    {
        self.read_u16(4, 6)
    }

    /// Returns the general purpose bit flags.
    ///
    /// (see `CentralDirectoryFileHeaderReader` for more ample information)
    pub fn general_purpose_bit_flag(&self) -> (r: u16)
        requires
            self.wf(),
        ensures
            r == spec_u16_at(self@, 6),
    {
        self.read_u16(6, 8)
    }

    /// Returns the compression method used to compress the file.
    ///
    /// (see `CentralDirectoryFileHeaderReader` for more ample information)
    pub fn compression_method(&self) -> (r: u16)
        requires
            self.wf(),
        ensures
            r == spec_u16_at(self@, 8),
    {
        self.read_u16(8, 10)
    }

    /// Returns the last modification time of the file, MS-DOS format.
    pub fn file_last_modification_time(&self) -> (r: u16)
        requires
            self.wf(),
        ensures
            r == spec_u16_at(self@, 10),
    {
        self.read_u16(10, 12)
    }

    /// Returns the last modification date of the file, MS-DOS format.
    pub fn file_last_modification_date(&self) -> (r: u16)
        requires
            self.wf(),
        ensures
            r == spec_u16_at(self@, 12),
    {
        self.read_u16(12, 14)
    }

    /// Returns the CRC-32 of the file.
    ///
    /// (see `CentralDirectoryFileHeaderReader` for more ample information)
    pub fn crc32(&self) -> (r: u32)
        requires
            self.wf(),
        ensures
            r == spec_u32_at(self@, 14),
    {
        self.read_u32(14, 18)
    }

    /// Returns the compressed size of the file.
    pub fn compressed_size(&self) -> (r: u32)
        requires
            self.wf(),
        ensures
            r == spec_u32_at(self@, 18),
    {
        self.read_u32(18, 22)
    }

    /// Returns the uncompressed size of the file.
    pub fn uncompressed_size(&self) -> (r: u32)
        requires
            self.wf(),
        ensures
            r == spec_u32_at(self@, 22),
    {
        self.read_u32(22, 26)
    }

    /// Returns the size of the file name.
    pub fn file_name_size(&self) -> (r: u16)
        requires
            self.wf(),
        ensures
            r == spec_u16_at(self@, 26),
    {
        self.read_u16(26, 28)
    }

    /// Returns the size of the extra field.
    pub fn extra_field_size(&self) -> (r: u16)
        requires
            self.wf(),
        ensures
            r == spec_u16_at(self@, 28),
    {
        self.read_u16(28, 30)
    }

    /// Returns the file name, possibly of length 0, or `None` if the slice
    /// is truncated.
    pub fn file_name(&self) -> (r: Option<&'a [u8]>)
        requires
            self.wf(),
        ensures
            ({
                let n = spec_u16_at(self@, 26) as int;
                &&& 30 + n <= self@.len() ==> (r matches Some(b) && b@ == self@.subrange(
                    30,
                    30 + n,
                ))
                &&& 30 + n > self@.len() ==> r is None
            }),
    {
        self.read_field(30, self.file_name_size() as usize)
    }

    /// Returns the extra field, possibly of length 0, or `None` if the slice
    /// is truncated.
    pub fn extra_field(&self) -> (r: Option<&'a [u8]>)
        requires
            self.wf(),
        ensures
            ({
                let n = spec_u16_at(self@, 26) as int;
                let m = spec_u16_at(self@, 28) as int;
                &&& 30 + n + m <= self@.len() ==> (r matches Some(b) && b@ == self@.subrange(
                    30 + n,
                    30 + n + m,
                ))
                &&& 30 + n + m > self@.len() ==> r is None
            }),
    {
        self.read_field(self.extra_field_position(), self.extra_field_size() as usize)
    }

    /// Returns the position of the extra field.
    pub fn extra_field_position(&self) -> (r: usize)
        requires
            self.wf(),
        ensures
            r == 30 + spec_u16_at(self@, 26),
    {
        30 + self.file_name_size() as usize
    }
}

impl<'a> LeFieldReader<'a> for LocalFileHeaderReader<'a> {
    closed spec fn view_slice(&self) -> Slice<'a> {
        self.data
    }

    closed spec fn spec_min_size() -> usize {
        30
    }

    fn min_size() -> (n: usize) {
        30
    }

    fn get_slice(&self) -> (s: Slice<'a>) {
        self.data
    }
}

} // verus!
