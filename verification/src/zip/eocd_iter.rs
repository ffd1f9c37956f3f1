//! Backward search for End of Central Directory records.

use vstd::prelude::*;

verus! {

use vstd::math::{max, min};
use crate::api::Reader;
use crate::utils::{Slice, position, spec_u16_at};
use crate::zip::eocd::EndOfCentralDirectoryReader;

/// The 4 raw bytes of an End of Central Directory signature stand at
/// position `i` of `s`.
pub open spec fn spec_eocd_sig_at(s: Seq<u8>, i: int) -> bool {
    &&& 0 <= i
    &&& i + 4 <= s.len()
    &&& s[i] == 0x50u8
    &&& s[i + 1] == 0x4bu8
    &&& s[i + 2] == 0x05u8
    &&& s[i + 3] == 0x06u8
}

/// An End of Central Directory record genuinely ends the buffer at position
/// `i`: the signature bytes stand there, the fixed header fits, and the
/// declared comment size makes the record reach exactly the end of `s`.
pub open spec fn spec_eocd_match_at(s: Seq<u8>, i: int) -> bool {
    &&& spec_eocd_sig_at(s, i)
    &&& i + 22 <= s.len()
    &&& i + 22 + spec_u16_at(s, i + 20) == s.len()
}

/// The window of an archive in which its authoritative End of Central
/// Directory record must stand: the last `max_size` bytes, or the whole
/// archive when it is shorter.
pub open spec fn spec_eocd_window(c: Seq<u8>) -> Seq<u8> {
    c.subrange(c.len() - min(65557, c.len() as int), c.len() as int)
}

/// An iterator over all potential End of Central Directory records within
/// the slice, iterating *backward* (from the end of the slice).
///
/// This is an iterator for two reasons:
///
/// - a correct archive may embed multiple "fake" such records within the
///   comment field of the real record.
///
/// - a user may be interested in browsing all records in an archive, to see
///   its history.
///
/// To quickly get to the most likely End of Central Directory record, use
/// the `locate_end_of_central_directory` function below.
///
/// Note: this iterator does not attempt to validate the potential records in
/// any way.
#[derive(Debug)]
pub struct EndOfCentralDirectoryIterator<'a> {
    data: Slice<'a>,
    rpos: usize,
}

impl<'a> EndOfCentralDirectoryIterator<'a> {
    /// The iterator's backing slice is well formed and its cursor never
    /// falls below the last admissible start position.
    pub closed spec fn wf(&self) -> bool {
        &&& self.data.wf()
        &&& self.rpos >= 21
    }

    /// The slice being scanned.
    pub closed spec fn spec_data(&self) -> Slice<'a> {
        self.data
    }

    /// The scan cursor, counted backward from the end of the slice: every
    /// start position nearer the end than `len - rpos` has already been
    /// scanned.
    pub closed spec fn spec_rpos(&self) -> int {
        self.rpos as int
    }

    /// Returns an instance of EndOfCentralDirectoryIterator to search for
    /// End of Central Directory records within the slice.
    ///
    /// The most up-to-date record is in the last
    /// `EndOfCentralDirectoryReader::max_size()` bytes of the archive.
    pub fn new(slice: Slice<'a>) -> (r: EndOfCentralDirectoryIterator<'a>)
        requires
            slice.wf(),
        ensures
            r.wf(),
            r.spec_data() == slice,
            r.spec_rpos() == 21,
    {
        EndOfCentralDirectoryIterator { data: slice, rpos: 22 - 1 }
    }

    /// Returns the next candidate record, scanning toward the start of the
    /// slice; every candidate yielded starts at a strictly smaller position
    /// than the one before.
    pub fn next(&mut self) -> (r: Option<EndOfCentralDirectoryReader<'a>>)
        requires
            old(self).wf(),
        ensures
            final(self).wf(),
            final(self).spec_data() == old(self).spec_data(),
            ({
                let s = old(self).spec_data()@;
                let len = s.len() as int;
                match r {
                    Some(e) => {
                        let pos = len - final(self).spec_rpos();
                        &&& old(self).spec_rpos() < final(self).spec_rpos() <= len
                        &&& final(self).spec_rpos() >= 22
                        &&& spec_eocd_sig_at(s, pos)
                        &&& forall|p: int|
                            pos < p <= len - old(self).spec_rpos() - 1 ==> !spec_eocd_sig_at(s, p)
                        &&& e.wf()
                        &&& e@ == s.subrange(pos, min(len, pos + 65557))
                        &&& e.spec_offset() == old(self).spec_data().spec_offset() + pos
                    },
                    None => {
                        &&& final(self).spec_rpos() == max(old(self).spec_rpos(), len)
                        &&& forall|p: int|
                            0 <= p <= len - old(self).spec_rpos() - 1 ==> !spec_eocd_sig_at(s, p)
                    },
                }
            }),
    {
        let len = self.data.len();
        let mut rpos = self.rpos;
        while rpos < len
            invariant
                self == old(self),
                old(self).wf(),
                len == self.data@.len(),
                old(self).spec_rpos() <= rpos as int,
                rpos as int <= max(old(self).spec_rpos(), len as int),
                forall|p: int|
                    len - rpos <= p <= len - old(self).spec_rpos() - 1 ==> !spec_eocd_sig_at(
                        self.data@,
                        p,
                    ),
            decreases len - rpos,
        {
            rpos = rpos + 1;
            let pos = len - rpos;

            let b0 = self.data.get(pos);
            let b1 = self.data.get(pos + 1);
            let b2 = self.data.get(pos + 2);
            let b3 = self.data.get(pos + 3);
            let found = b0 == Some(0x50u8) && b1 == Some(0x4bu8) && b2 == Some(0x05u8) && b3
                == Some(0x06u8);
            if found {
                self.rpos = rpos;
                let suffix = self.data.skip(pos);
                let e = EndOfCentralDirectoryReader::new(suffix);
                match e {
                    Some(e) => {
                        proof {
                            assert(e@ =~= self.data@.subrange(
                                pos as int,
                                min(len as int, pos + 65557),
                            ));
                        }
                        return Some(e);
                    },
                    None => {
                        // unreachable: the suffix spans at least `rpos >= 22` bytes
                        assert(false);
                        return None;
                    },
                }
            }
        }
        self.rpos = rpos;
        None
    }
}

/// Returns the most likely End of Central Directory record in the archive.
///
/// The heuristic used is:
///
/// - to look, backward, in the last `EndOfCentralDirectoryReader::max_size()`
///   bytes of the archive;
///
/// - to pick the first record whose comment size field concords with the
///   size of the archive, i.e. whose comment, taken literally, reaches
///   exactly the end of the scanned window. A comment may itself contain the
///   signature bytes as decoys, and only a genuine record ends exactly at
///   the true end of the archive.
///
/// Multiple records may legitimately exist (archives carrying their edit
/// history); the most recently appended one is authoritative and is always
/// the closest to the end, hence the backward scan and the first-match
/// choice.
pub fn locate_end_of_central_directory<'a, R: Reader + ?Sized>(reader: &'a R) -> (r: Option<
    EndOfCentralDirectoryReader<'a>,
>)
    ensures
        ({
            let w = spec_eocd_window(reader.contents());
            match r {
                Some(e) => exists|pos: int|
                    {
                        &&& #[trigger] spec_eocd_match_at(w, pos)
                        &&& e.wf()
                        &&& e@ == w.subrange(pos, min(w.len() as int, pos + 65557))
                        &&& e.spec_offset() == pos
                        &&& forall|q: int| pos < q ==> !spec_eocd_match_at(w, q)
                    },
                None => forall|p: int| !spec_eocd_match_at(w, p),
            }
        }),
{
    let end = reader.size();
    let span = if end < 65557 {
        end
    } else {
        65557
    };
    let window = reader.get(end - span, end);
    proof {
        assert(window@ =~= spec_eocd_window(reader.contents()));
    }
    let wslice = Slice::new(window);
    let wlen = wslice.len();
    let ghost w = wslice@;

    let mut it = EndOfCentralDirectoryIterator::new(wslice);
    loop
        invariant
            it.wf(),
            it.spec_data() == wslice,
            wslice.wf(),
            wslice@ == w,
            wslice.spec_offset() == 0,
            w == spec_eocd_window(reader.contents()),
            wlen == w.len(),
            forall|p: int| wlen - it.spec_rpos() <= p ==> !spec_eocd_match_at(w, p),
        decreases wlen + 22 - it.spec_rpos(),
    {
        let ghost pre = it;
        match it.next() {
            Some(e) => {
                let ghost pos = wlen - it.spec_rpos();
                let p = match position(e.raw(), wslice) {
                    Some(p) => p,
                    None => {
                        // unreachable: a yielded candidate starts within the window
                        assert(false);
                        return None;
                    },
                };
                let comment_size = e.comment_size();
                proof {
                    assert(e@.subrange(20, 22) =~= w.subrange(pos + 20, pos + 22));
                    assert(spec_u16_at(e@, 20) == spec_u16_at(w, pos + 20));
                    assert(p == pos);
                }
                if p + 22 + comment_size as usize == wlen {
                    proof {
                        assert(spec_eocd_match_at(w, pos));
                        assert forall|q: int| pos < q implies !spec_eocd_match_at(w, q) by {
                            if q <= wlen - pre.spec_rpos() - 1 {
                                assert(!spec_eocd_sig_at(w, q));
                            } else {
                                assert(wlen - pre.spec_rpos() <= q);
                            }
                        }
                    }
                    return Some(e);
                }
                proof {
                    assert(pos + 22 + spec_u16_at(w, pos + 20) != wlen);
                    assert forall|q: int|
                        wlen - it.spec_rpos() <= q implies !spec_eocd_match_at(w, q) by {
                        if q == pos {
                            assert(!spec_eocd_match_at(w, pos));
                        } else if q <= wlen - pre.spec_rpos() - 1 {
                            assert(!spec_eocd_sig_at(w, q));
                        } else {
                            assert(wlen - pre.spec_rpos() <= q);
                        }
                    }
                }
            },
            None => {
                return None;
            },
        }
    }
}

} // verus!
