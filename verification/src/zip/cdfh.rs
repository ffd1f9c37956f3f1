//! Central Directory File Header record reader.
//!
//! Layout (all multi-byte fields little-endian):
//!
//! | Offset | Bytes | Description                                           |
//! |--------|-------|-------------------------------------------------------|
//! |      0 |     4 | Central directory file header signature = 0x02014b50  |
//! |      4 |     2 | Version made by                                       |
//! |      6 |     2 | Version needed to extract (minimum)                   |
//! |      8 |     2 | General purpose bit flag                              |
//! |     10 |     2 | Compression method                                    |
//! |     12 |     2 | File last modification time                           |
//! |     14 |     2 | File last modification date                           |
//! |     16 |     4 | CRC-32                                                |
//! |     20 |     4 | Compressed size                                       |
//! |     24 |     4 | Uncompressed size                                     |
//! |     28 |     2 | File name length (n)                                  |
//! |     30 |     2 | Extra field length (m)                                |
//! |     32 |     2 | File comment length (k)                               |
//! |     34 |     2 | Disk number where file starts                         |
//! |     36 |     2 | Internal file attributes                              |
//! |     38 |     4 | External file attributes                              |
//! |     42 |     4 | Relative offset of local file header                  |
//! |     46 |     n | File name                                             |
//! |   46+n |     m | Extra field                                           |
//! | 46+n+m |     k | File comment                                          |

use vstd::prelude::*;

verus! {

use crate::utils::{LeFieldReader, Slice, spec_u16_at, spec_u32_at};

/// A Central Directory File Header record.
///
/// This structure only guarantees that access to its various fields is safe,
/// it does not guarantee their integrity.
#[derive(Clone, Copy, Debug, PartialEq, Eq)]
pub struct CentralDirectoryFileHeaderReader<'a> {
    data: Slice<'a>,
}

impl<'a> View for CentralDirectoryFileHeaderReader<'a> {
    type V = Seq<u8>;

    closed spec fn view(&self) -> Seq<u8> {
        self.data@
    }
}

impl<'a> CentralDirectoryFileHeaderReader<'a> {
    /// A constructed reader always holds a well-formed backing slice of at
    /// least the fixed-header size.
    pub closed spec fn wf(&self) -> bool {
        &&& self.data.wf()
        &&& self.data@.len() >= 46
    }

    /// The position of the record's first byte, counted from the start of
    /// the buffer its backing slice was carved from.
    pub closed spec fn spec_offset(&self) -> int {
        self.data.spec_offset()
    }

    /// Returns the minimum size of the record.
    pub fn min_size() -> (n: usize)
        ensures
            n == 46,
    {
        46
    }

    /// Returns the maximum size of the record.
    pub fn max_size() -> (n: usize)
        ensures
            n == 46 + 65535 * 3,
    {
        46 + 65535 * 3
    }

    /// Returns the expected signature.
    pub fn expected_signature() -> (r: u32)
        ensures
            r == 0x02014b50,
    {
        0x02014b50
    }

    /// Returns a new instance if the slice is sufficiently large (46 bytes),
    /// otherwise returns `None`.
    ///
    /// Note that neither the signature nor the size of the dynamic fields
    /// are checked, this is so that decoding potentially corrupted archives
    /// is still possible.
    pub fn new(slice: Slice<'a>) -> (r: Option<CentralDirectoryFileHeaderReader<'a>>)
        requires
            slice.wf(),
        ensures
            slice@.len() >= 46 ==> (r matches Some(c) && c.wf() && c@ == slice@
                && c.spec_offset() == slice.spec_offset()),
            slice@.len() < 46 ==> r is None,
    {
        if slice.len() >= 46 {
            Some(CentralDirectoryFileHeaderReader { data: slice })
        } else {
            None
        }
    }

    /// Returns the underlying slice.
    pub fn raw(&self) -> (r: Slice<'a>)
        ensures
            r@ == self@,
            r.spec_offset() == self.spec_offset(),
            self.wf() ==> r.wf(),
    {
        self.data
    }

    /// Returns the signature.
    pub fn signature(&self) -> (r: u32)
        requires
            self.wf(),
        ensures
            r == spec_u32_at(self@, 0),
    {
        self.read_u32(0, 4)
    }

    /// Returns the version of the software that created the record, and its
    /// OS.
    ///
    /// The upper byte encodes the host, with 0 for FAT, 3 for UNIX, 10 for
    /// NTFS and 19 for OS X. The lower byte encodes the ZIP specification
    /// version as `major * 10 + minor`.
    pub fn version_made_by(&self) -> (r: u16)
        requires
            self.wf(),
        ensures
            r == spec_u16_at(self@, 4),
    {
        self.read_u16(4, 6)
    }

    /// Returns the minimum ZIP version needed to extract.
    ///
    /// The ZIP specification version is encoded as `major * 10 + minor`.
    pub fn version_needed_to_extract(&self) -> (r: u16)
        requires
            self.wf(),
        ensures
            r == spec_u16_at(self@, 6),
    {
        self.read_u16(6, 8)
    }

    /// Returns the general purpose bit flags.
    ///
    /// Of particular interest, 0x08 is used to indicate the presence of a
    /// Data Descriptor record for this file.
    pub fn general_purpose_bit_flag(&self) -> (r: u16)
        requires
            self.wf(),
        ensures
            r == spec_u16_at(self@, 8),
    {
        self.read_u16(8, 10)
    }

    /// Returns the compression method used to compress the file.
    ///
    /// Of particular interest: 0 is no compression, 8 is Deflate and 14 is
    /// LZMA.
    pub fn compression_method(&self) -> (r: u16)
        requires
            self.wf(),
        ensures
            r == spec_u16_at(self@, 10),
    {
        self.read_u16(10, 12)
    }

    /// Returns the last modification time of the file, MS-DOS format.
    pub fn file_last_modification_time(&self) -> (r: u16)
        requires
            self.wf(),
        ensures
            r == spec_u16_at(self@, 12),
    {
        self.read_u16(12, 14)
    }

    /// Returns the last modification date of the file, MS-DOS format.
    pub fn file_last_modification_date(&self) -> (r: u16)
        requires
            self.wf(),
        ensures
            r == spec_u16_at(self@, 14),
    {
        self.read_u16(14, 16)
    }

    /// Returns the CRC-32 of the file.
    ///
    /// The magic number used is 0xdebb20e3, the register is pre-conditioned
    /// with 0xffffffff and the value is post-conditioned by taking the
    /// one-complement of the CRC residual.
    pub fn crc32(&self) -> (r: u32)
        requires
            self.wf(),
        ensures
            r == spec_u32_at(self@, 16),
    {
        self.read_u32(16, 20)
    }

    /// Returns the compressed size of the file.
    pub fn compressed_size(&self) -> (r: u32)
        requires
            self.wf(),
        ensures
            r == spec_u32_at(self@, 20),
    {
        self.read_u32(20, 24)
    }

    /// Returns the uncompressed size of the file.
    pub fn uncompressed_size(&self) -> (r: u32)
        requires
            self.wf(),
        ensures
            r == spec_u32_at(self@, 24),
    {
        self.read_u32(24, 28)
    }

    /// Returns the size of the file name.
    pub fn file_name_size(&self) -> (r: u16)
        requires
            self.wf(),
        ensures
            r == spec_u16_at(self@, 28),
    {
        self.read_u16(28, 30)
    }

    /// Returns the size of the extra field.
    pub fn extra_field_size(&self) -> (r: u16)
        requires
            self.wf(),
        ensures
            r == spec_u16_at(self@, 30),
    {
        self.read_u16(30, 32)
    }

    /// Returns the size of the file comment.
    pub fn file_comment_size(&self) -> (r: u16)
        requires
            self.wf(),
        ensures
            r == spec_u16_at(self@, 32),
    {
        self.read_u16(32, 34)
    }

    /// Returns the number of the disk in which the file starts.
    pub fn file_start_disk(&self) -> (r: u16)
        requires
            self.wf(),
        ensures
            r == spec_u16_at(self@, 34),
    {
        self.read_u16(34, 36)
    }

    /// Returns the internal file attributes.
    pub fn interal_file_attributes(&self) -> (r: u16)
        requires
            self.wf(),
        ensures
            r == spec_u16_at(self@, 36),
    {
        self.read_u16(36, 38)
    }

    /// Returns the external file attributes.
    ///
    /// The signification depends on the host (see `version_made_by`).
    pub fn external_file_attributes(&self) -> (r: u32)
        requires
            self.wf(),
        ensures
            r == spec_u32_at(self@, 38),
    {
        self.read_u32(38, 42)
    }

    /// Returns the relative offset of the Local File Header record.
    pub fn local_file_header_relative_offset(&self) -> (r: u32)
        requires
            self.wf(),
        ensures
            r == spec_u32_at(self@, 42),
    {
        self.read_u32(42, 46)
    }

    /// Returns the file name, possibly of length 0, or `None` if the slice
    /// is truncated.
    pub fn file_name(&self) -> (r: Option<&'a [u8]>)
        requires
            self.wf(),
        ensures
            ({
                let n = spec_u16_at(self@, 28) as int;
                &&& 46 + n <= self@.len() ==> (r matches Some(b) && b@ == self@.subrange(
                    46,
                    46 + n,
                ))
                &&& 46 + n > self@.len() ==> r is None
            }),
    {
        self.read_field(46, self.file_name_size() as usize)
    }

    /// Returns the extra field, possibly of length 0, or `None` if the slice
    /// is truncated.
    pub fn extra_field(&self) -> (r: Option<&'a [u8]>)
        requires
            self.wf(),
        ensures
            ({
                let n = spec_u16_at(self@, 28) as int;
                let m = spec_u16_at(self@, 30) as int;
                &&& 46 + n + m <= self@.len() ==> (r matches Some(b) && b@ == self@.subrange(
                    46 + n,
                    46 + n + m,
                ))
                &&& 46 + n + m > self@.len() ==> r is None
            }),
    {
        self.read_field(self.extra_field_position(), self.extra_field_size() as usize)
    }

    /// Returns the file comment, possibly of length 0, or `None` if the
    /// slice is truncated.
    pub fn file_comment(&self) -> (r: Option<&'a [u8]>)
        requires
            self.wf(),
        ensures
            ({
                let n = spec_u16_at(self@, 28) as int;
                let m = spec_u16_at(self@, 30) as int;
                let k = spec_u16_at(self@, 32) as int;
                &&& 46 + n + m + k <= self@.len() ==> (r matches Some(b) && b@ == self@.subrange(
                    46 + n + m,
                    46 + n + m + k,
                ))
                &&& 46 + n + m + k > self@.len() ==> r is None
            }),
    {
        self.read_field(self.file_comment_position(), self.file_comment_size() as usize)
    }

    /// Returns the position of the extra field.
    pub fn extra_field_position(&self) -> (r: usize)
        requires
            self.wf(),
        ensures
            r == 46 + spec_u16_at(self@, 28),
    {
        46 + self.file_name_size() as usize
    }

    /// Returns the position of the file comment field.
    pub fn file_comment_position(&self) -> (r: usize)
        requires
            self.wf(),
        ensures
            r == 46 + spec_u16_at(self@, 28) + spec_u16_at(self@, 30),
    {
        46 + self.file_name_size() as usize + self.extra_field_size() as usize
    }
}

impl<'a> LeFieldReader<'a> for CentralDirectoryFileHeaderReader<'a> {
    closed spec fn view_slice(&self) -> Slice<'a> {
        self.data
    }

    closed spec fn spec_min_size() -> usize {
        46
    }

    fn min_size() -> (n: usize) {
        46
    }

    fn get_slice(&self) -> (s: Slice<'a>) {
        self.data
    }
}

} // verus!
