//! Bounds-checked byte slices and little-endian field decoding.

use vstd::prelude::*;

verus! {

use vstd::math::min;

/// Sentinel substituted when a 16-bit fixed field cannot be decoded.
pub const DEAD: u16 = 0xdead;

/// Sentinel substituted when a 32-bit fixed field cannot be decoded.
pub const DEADBEEF: u32 = 0xdeadbeef;

/// The value of the 2 bytes of `s` at offset `i`, read as a little-endian
/// integer.
pub open spec fn spec_u16_at(s: Seq<u8>, i: int) -> u16
    recommends
        0 <= i,
        i + 2 <= s.len(),
{
    (s[i] + 0x100 * s[i + 1]) as u16
}

/// The value of the 4 bytes of `s` at offset `i`, read as a little-endian
/// integer.
pub open spec fn spec_u32_at(s: Seq<u8>, i: int) -> u32
    recommends
        0 <= i,
        i + 4 <= s.len(),
{
    (s[i] + 0x100 * s[i + 1] + 0x1_0000 * s[i + 2] + 0x100_0000 * s[i + 3]) as u32
}

/// Law: writing any 16-bit value little-endian at offset `i` of a buffer and
/// decoding the 2 bytes at `i` returns exactly that value.
pub proof fn lemma_u16_le_round_trip(s: Seq<u8>, i: int, v: u16)
    requires
        0 <= i,
        i + 2 <= s.len(),
    ensures
        spec_u16_at(s.update(i, (v % 0x100) as u8).update(i + 1, (v / 0x100) as u8), i) == v,
{
    vstd::arithmetic::div_mod::lemma_fundamental_div_mod(v as int, 0x100);
}

/// Law: writing any 32-bit value little-endian at offset `i` of a buffer and
/// decoding the 4 bytes at `i` returns exactly that value.
pub proof fn lemma_u32_le_round_trip(s: Seq<u8>, i: int, v: u32)
    requires
        0 <= i,
        i + 4 <= s.len(),
    ensures
        spec_u32_at(
            s.update(i, (v % 0x100) as u8).update(i + 1, ((v / 0x100) % 0x100) as u8).update(
                i + 2,
                ((v / 0x1_0000) % 0x100) as u8,
            ).update(i + 3, (v / 0x100_0000) as u8),
            i,
        ) == v,
{
    assert(v % 0x100 + 0x100 * ((v / 0x100) % 0x100) + 0x1_0000 * ((v / 0x1_0000) % 0x100)
        + 0x100_0000 * (v / 0x100_0000) == v) by (bit_vector);
}

/// A slice of bytes.
///
/// It is used in preference to a raw `&[u8]` so that every access is
/// bounds-checked and can never panic on untrusted input. Alongside the bytes
/// it carries the position of its first byte relative to the buffer it was
/// originally carved from, so that the position of a sub-slice within a
/// parent can be recovered without address arithmetic.
#[derive(Clone, Copy, Debug, PartialEq, Eq)]
pub struct Slice<'a> {
    data: &'a [u8],
    offset: usize,
}

impl<'a> View for Slice<'a> {
    type V = Seq<u8>;

    closed spec fn view(&self) -> Seq<u8> {
        self.data@
    }
}

impl<'a> Slice<'a> {
    /// The position of this slice's first byte, counted from the start of
    /// the buffer it was carved from.
    pub closed spec fn spec_offset(&self) -> int {
        self.offset as int
    }

    /// A slice is well formed when its offset plus its length stays within
    /// the address space, as holds for every slice carved from a real
    /// buffer.
    pub closed spec fn wf(&self) -> bool {
        self.offset + self.data@.len() <= usize::MAX
    }

    /// Wraps a raw byte slice; the wrapped bytes begin at offset 0.
    pub fn new(data: &'a [u8]) -> (r: Slice<'a>)
        ensures
            r@ == data@,
            r.spec_offset() == 0,
            r.wf(),
    {
        // a live slice is no longer than the address space, which bounds the
        // offset arithmetic of every sub-slice carved from this one
        let n = data.len();
        proof {
            assert(n == data@.len());
        }
        Slice { data, offset: 0 }
    }

    /// Returns the underlying bytes.
    pub fn raw(&self) -> (r: &'a [u8])
        ensures
            r@ == self@,
    {
        self.data
    }

    /// Returns the number of bytes in the slice.
    pub fn len(&self) -> (n: usize)
        ensures
            n == self@.len(),
    {
        self.data.len()
    }

    /// Returns the byte at `index`, or `None` if the index is out of bounds.
    pub fn get(&self, index: usize) -> (r: Option<u8>)
        ensures
            index < self@.len() ==> r == Some(self@[index as int]),
            index >= self@.len() ==> r is None,
    {
        if index < self.data.len() {
            Some(*vstd::slice::slice_index_get(self.data, index))
        } else {
            None
        }
    }

    /// Returns the position of the start of this slice within `hay`, or
    /// `None` if this slice does not start within `hay`.
    ///
    /// Both slices must have been carved from the same buffer for the result
    /// to be meaningful; this slice need not fit entirely within `hay`.
    pub fn position(&self, hay: Slice<'a>) -> (r: Option<usize>)
        ensures
            match r {
                Some(d) => hay.spec_offset() + d == self.spec_offset() && d < hay@.len(),
                None => self.spec_offset() < hay.spec_offset() || self.spec_offset()
                    - hay.spec_offset() >= hay@.len(),
            },
    {
        position(*self, hay)
    }

    /// Returns the sub-slice over `[start, end)`, or `None` if the range is
    /// out of bounds or ill-formed.
    pub fn slice(&self, start: usize, end: usize) -> (r: Option<Slice<'a>>)
        requires
            self.wf(),
        ensures
            start <= end <= self@.len() ==> (r matches Some(s) && s@ == self@.subrange(
                start as int,
                end as int,
            ) && s.spec_offset() == self.spec_offset() + start && s.wf()),
            !(start <= end <= self@.len()) ==> r is None,
    {
        if start <= end && end <= self.data.len() {
            Some(
                Slice {
                    data: vstd::slice::slice_subrange(self.data, start, end),
                    offset: self.offset + start,
                },
            )
        } else {
            None
        }
    }

    /// Returns a copy of the original slice, minus the `n` first bytes;
    /// `n` larger than the length clamps to the empty suffix.
    pub fn skip(&self, n: usize) -> (r: Slice<'a>)
        requires
            self.wf(),
        ensures
            r@ == self@.subrange(min(n as int, self@.len() as int), self@.len() as int),
            r.spec_offset() == self.spec_offset() + min(n as int, self@.len() as int),
            r.wf(),
    {
        let len = self.data.len();
        let k = if n < len {
            n
        } else {
            len
        };
        Slice { data: vstd::slice::slice_subrange(self.data, k, len), offset: self.offset + k }
    }

    /// Returns a copy of the slice, minus any byte after the `n`-th;
    /// `n` larger than the length keeps the whole slice.
    pub fn take(&self, n: usize) -> (r: Slice<'a>)
        requires
            self.wf(),
        ensures
            r@ == self@.subrange(0, min(n as int, self@.len() as int)),
            r.spec_offset() == self.spec_offset(),
            r.wf(),
    {
        let len = self.data.len();
        let k = if n < len {
            n
        } else {
            len
        };
        Slice { data: vstd::slice::slice_subrange(self.data, 0, k), offset: self.offset }
    }
}

/// The bytes of `s` that overlap the range `[start, end)`; a reversed range
/// or one starting past the end yields the empty sequence.
pub open spec fn spec_intersect(s: Seq<u8>, start: int, end: int) -> Seq<u8> {
    if 0 <= start <= end && start <= s.len() {
        s.subrange(start, min(end, s.len() as int))
    } else {
        Seq::empty()
    }
}

/// Returns the elements of the `hay` slice that overlap with `[start, end)`.
pub fn intersect_slice<'a>(hay: &'a [u8], start: usize, end: usize) -> (r: &'a [u8])
    ensures
        r@ == spec_intersect(hay@, start as int, end as int),
{
    if start <= end && start <= hay.len() {
        let r = take(skip(hay, start), end - start);
        proof {
            assert(r@ =~= spec_intersect(hay@, start as int, end as int));
        }
        r
    } else {
        let r = vstd::slice::slice_subrange(hay, 0, 0);
        proof {
            assert(r@ =~= spec_intersect(hay@, start as int, end as int));
        }
        r
    }
}

/// Returns the position of the `needle` slice within the `hay` slice,
/// computed from the offsets both slices carry, or `None` if the `needle`
/// slice does not start within the `hay` slice.
///
/// The `needle` slice need not fit entirely within the `hay` slice.
pub fn position<'a>(needle: Slice<'a>, hay: Slice<'a>) -> (r: Option<usize>)
    ensures
        match r {
            Some(d) => hay.spec_offset() + d == needle.spec_offset() && d < hay@.len(),
            None => needle.spec_offset() < hay.spec_offset() || needle.spec_offset()
                - hay.spec_offset() >= hay@.len(),
        },
{
    if needle.offset >= hay.offset {
        let d = needle.offset - hay.offset;
        if d < hay.data.len() {
            Some(d)
        } else {
            None
        }
    } else {
        None
    }
}

/// Returns a u16 interpreting the first 2 bytes of the slice in
/// little-endian encoding, or `None` if the slice is too short.
///
/// Does not assume that the data is suitably aligned.
pub fn read_u16_le<'a>(slice: Slice<'a>) -> (r: Option<u16>)
    ensures
        slice@.len() >= 2 ==> r == Some(spec_u16_at(slice@, 0)),
        slice@.len() < 2 ==> r is None,
{
    match (slice.get(0), slice.get(1)) {
        (Some(b0), Some(b1)) => Some(b0 as u16 + 0x100 * (b1 as u16)),
        _ => None,
    }
}

/// Returns a u32 interpreting the first 4 bytes of the slice in
/// little-endian encoding, or `None` if the slice is too short.
///
/// Does not assume that the data is suitably aligned.
pub fn read_u32_le<'a>(slice: Slice<'a>) -> (r: Option<u32>)
    ensures
        slice@.len() >= 4 ==> r == Some(spec_u32_at(slice@, 0)),
        slice@.len() < 4 ==> r is None,
{
    match (slice.get(0), slice.get(1), slice.get(2), slice.get(3)) {
        (Some(b0), Some(b1), Some(b2), Some(b3)) => Some(
            b0 as u32 + 0x100 * (b1 as u32) + 0x1_0000 * (b2 as u32) + 0x100_0000 * (b3 as u32),
        ),
        _ => None,
    }
}

/// Returns the elements of the slice comprised in `[start, end)`, or `None`
/// if the range is out of bounds or ill-formed.
pub fn slice<'a>(original: &'a [u8], start: usize, end: usize) -> (r: Option<&'a [u8]>)
    ensures
        start <= end <= original@.len() ==> (r matches Some(s) && s@ == original@.subrange(
            start as int,
            end as int,
        )),
        !(start <= end <= original@.len()) ==> r is None,
{
    if start <= end && end <= original.len() {
        Some(vstd::slice::slice_subrange(original, start, end))
    } else {
        None
    }
}

/// Returns a copy of the original slice, minus the `n` first elements;
/// `n` larger than the length clamps to the empty suffix.
pub fn skip<'a>(original: &'a [u8], n: usize) -> (r: &'a [u8])
    ensures
        r@ == original@.subrange(min(n as int, original@.len() as int), original@.len() as int),
{
    let len = original.len();
    let k = if n < len {
        n
    } else {
        len
    };
    vstd::slice::slice_subrange(original, k, len)
}

/// Returns a copy of the original slice, minus any element after the
/// `n`-th; `n` larger than the length keeps the whole slice.
pub fn take<'a>(original: &'a [u8], n: usize) -> (r: &'a [u8])
    ensures
        r@ == original@.subrange(0, min(n as int, original@.len() as int)),
{
    let len = original.len();
    let k = if n < len {
        n
    } else {
        len
    };
    vstd::slice::slice_subrange(original, 0, k)
}

/// Helper trait shared by the record readers to decode fixed little-endian
/// fields and variable-length trailing fields out of a backing slice.
pub trait LeFieldReader<'a> {
    /// The backing slice, as the contracts see it.
    spec fn view_slice(&self) -> Slice<'a>;

    /// The fixed-header size of the record kind, as the contracts see it.
    spec fn spec_min_size() -> usize;

    /// Returns the fixed-header size of the record kind.
    fn min_size() -> (n: usize)
        ensures
            n == Self::spec_min_size(),
    ;

    /// Returns the backing slice.
    fn get_slice(&self) -> (s: Slice<'a>)
        ensures
            s == self.view_slice(),
    ;

    /// Interprets the 2 bytes at `[start, end)` as a u16 (little-endian),
    /// substituting a sentinel when the backing slice is too short.
    fn read_u16(&self, start: usize, end: usize) -> (r: u16)
        requires
            self.view_slice().wf(),
            start + 2 == end,
            end <= Self::spec_min_size(),
        ensures
            end <= self.view_slice()@.len() ==> r == spec_u16_at(self.view_slice()@, start as int),
            end > self.view_slice()@.len() ==> r == DEAD,
    {
        match self.get_slice().slice(start, end) {
            Some(s) => match read_u16_le(s) {
                Some(v) => v,
                None => DEAD,
            },
            None => DEAD,
        }
    }

    /// Interprets the 4 bytes at `[start, end)` as a u32 (little-endian),
    /// substituting a sentinel when the backing slice is too short.
    fn read_u32(&self, start: usize, end: usize) -> (r: u32)
        requires
            self.view_slice().wf(),
            start + 4 == end,
            end <= Self::spec_min_size(),
        ensures
            end <= self.view_slice()@.len() ==> r == spec_u32_at(self.view_slice()@, start as int),
            end > self.view_slice()@.len() ==> r == DEADBEEF,
    {
        match self.get_slice().slice(start, end) {
            Some(s) => match read_u32_le(s) {
                Some(v) => v,
                None => DEADBEEF,
            },
            None => DEADBEEF,
        }
    }

    /// Optional binary field of a given length at a given index: the field
    /// bytes when they fit within the backing slice, `None` otherwise. A
    /// zero-length field at a valid index yields an empty slice.
    fn read_field(&self, index: usize, length: usize) -> (r: Option<&'a [u8]>)
        requires
            self.view_slice().wf(),
            index + length <= usize::MAX,
        ensures
            index + length <= self.view_slice()@.len() ==> (r matches Some(b) && b@
                == self.view_slice()@.subrange(index as int, index + length)),
            index + length > self.view_slice()@.len() ==> r is None,
    {
        match self.get_slice().slice(index, index + length) {
            Some(s) => Some(s.raw()),
            None => None,
        }
    }
}

} // verus!
