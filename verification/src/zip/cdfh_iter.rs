//! Forward iteration over a run of Central Directory File Header records.

use vstd::prelude::*;

verus! {

use vstd::math::min;
use crate::utils::{Slice, spec_u16_at};
use crate::zip::cdfh::CentralDirectoryFileHeaderReader;

/// The total length a Central Directory File Header record standing at the
/// start of `s` declares for itself: the fixed header plus the three
/// variable-length fields.
pub open spec fn spec_cdfh_total_len(s: Seq<u8>) -> int
    recommends
        s.len() >= 46,
{
    46 + spec_u16_at(s, 28) + spec_u16_at(s, 30) + spec_u16_at(s, 32)
}

/// How far the iterator advances past a record standing at the start of
/// `s`: the record's declared total length, clamped to the buffer.
pub open spec fn spec_cdfh_advance(s: Seq<u8>) -> int
    recommends
        s.len() >= 46,
{
    min(s.len() as int, spec_cdfh_total_len(s))
}

/// How many records the iterator will still yield from a buffer `s` with
/// `budget` records left to return: one per record until the budget is
/// exhausted or the remaining bytes are shorter than a fixed header.
pub open spec fn spec_records_yielded(s: Seq<u8>, budget: nat) -> nat
    decreases budget,
{
    if budget == 0 || s.len() < 46 {
        0
    } else {
        1 + spec_records_yielded(
            s.subrange(spec_cdfh_advance(s), s.len() as int),
            (budget - 1) as nat,
        )
    }
}

/// An iterator over a contiguous sequence of Central Directory File Header
/// records.
///
/// The iterator returns the Central Directory File Header records in the
/// order in which they appear in the archive.
///
/// Note in particular that there is no guarantee:
///
/// - that the sequence be contained within a single part
/// - that the files in the archive appear in the same order
///
/// Note: this iterator does not attempt to validate the potential records in
/// any way, it does not even check that the signature matches.
#[derive(Debug)]
pub struct CentralDirectoryFileHeaderIterator<'a> {
    data: Slice<'a>,
    remaining: usize,
}

impl<'a> CentralDirectoryFileHeaderIterator<'a> {
    /// The iterator's backing slice is well formed.
    pub closed spec fn wf(&self) -> bool {
        self.data.wf()
    }

    /// The unconsumed bytes.
    pub closed spec fn spec_data(&self) -> Slice<'a> {
        self.data
    }

    /// How many records may still be returned.
    pub closed spec fn spec_remaining(&self) -> int {
        self.remaining as int
    }

    /// Returns an instance of CentralDirectoryFileHeaderIterator.
    ///
    /// The `slice` parameter is the slice iterated over. It should start
    /// exactly on the boundary of the first record. See
    /// `EndOfCentralDirectoryReader::central_directory_offset` and
    /// `EndOfCentralDirectoryReader::central_directory_size`.
    ///
    /// The `total` parameter is the maximum number of records that will be
    /// returned by the iterator. See
    /// `EndOfCentralDirectoryReader::nb_central_directory_records`.
    pub fn new(slice: Slice<'a>, total: usize) -> (r: CentralDirectoryFileHeaderIterator<'a>)
        requires
            slice.wf(),
        ensures
            r.wf(),
            r.spec_data() == slice,
            r.spec_remaining() == total,
    {
        CentralDirectoryFileHeaderIterator { data: slice, remaining: total }
    }

    /// Returns the next record of the run, or `None` when the budget is
    /// exhausted or the remaining bytes are shorter than a fixed header.
    /// On success the iterator advances past the record's declared total
    /// length (clamped to the buffer) and its budget shrinks by one.
    pub fn next(&mut self) -> (r: Option<CentralDirectoryFileHeaderReader<'a>>)
        requires
            old(self).wf(),
        ensures
            final(self).wf(),
            ({
                let d = old(self).spec_data();
                match r {
                    Some(c) => {
                        let adv = spec_cdfh_advance(d@);
                        &&& old(self).spec_remaining() > 0
                        &&& d@.len() >= 46
                        &&& c.wf()
                        &&& c@ == d@
                        &&& c.spec_offset() == d.spec_offset()
                        &&& final(self).spec_remaining() == old(self).spec_remaining() - 1
                        &&& final(self).spec_data()@ == d@.subrange(adv, d@.len() as int)
                        &&& final(self).spec_data().spec_offset() == d.spec_offset() + adv
                    },
                    None => {
                        &&& *final(self) == *old(self)
                        &&& (old(self).spec_remaining() == 0 || d@.len() < 46)
                    },
                }
            }),
            r is Some <==> spec_records_yielded(
                old(self).spec_data()@,
                old(self).spec_remaining() as nat,
            ) > 0,
            spec_records_yielded(final(self).spec_data()@, final(self).spec_remaining() as nat)
                == spec_records_yielded(
                old(self).spec_data()@,
                old(self).spec_remaining() as nat,
            ) - (if r is Some {
                1int
            } else {
                0int
            }),
    {
        if self.remaining == 0 {
            return None;
        }
        match CentralDirectoryFileHeaderReader::new(self.data) {
            Some(cdfh) => {
                let n = cdfh.file_name_size() as usize;
                let m = cdfh.extra_field_size() as usize;
                let k = cdfh.file_comment_size() as usize;
                self.data = self.data.skip(46 + n + m + k);
                self.remaining = self.remaining - 1;
                Some(cdfh)
            },
            None => None,
        }
    }
}

/// Law: the iterator never yields more records than its budget allows.
pub proof fn lemma_yield_count_bounded_by_budget(s: Seq<u8>, budget: nat)
    ensures
        spec_records_yielded(s, budget) <= budget,
    decreases budget,
{
    if budget == 0 || s.len() < 46 {
    } else {
        lemma_yield_count_bounded_by_budget(
            s.subrange(spec_cdfh_advance(s), s.len() as int),
            (budget - 1) as nat,
        );
    }
}

/// Law: every yielded record consumes at least the fixed-header size of the
/// buffer, so a buffer truncated below `46 * n` bytes yields fewer than `n`
/// records no matter the budget.
pub proof fn lemma_yield_count_bounded_by_length(s: Seq<u8>, budget: nat)
    ensures
        46 * spec_records_yielded(s, budget) <= s.len(),
    decreases budget,
{
    if budget == 0 || s.len() < 46 {
    } else {
        lemma_yield_count_bounded_by_length(
            s.subrange(spec_cdfh_advance(s), s.len() as int),
            (budget - 1) as nat,
        );
    }
}

/// The buffer `s` holds exactly `n` consecutively laid-out minimum-size
/// records: each declares zero-length name, extra field and comment, and
/// nothing follows the last one.
pub open spec fn spec_min_size_run(s: Seq<u8>, n: nat) -> bool
    decreases n,
{
    if n == 0 {
        s.len() == 0
    } else {
        &&& s.len() >= 46
        &&& spec_cdfh_total_len(s) == 46
        &&& spec_min_size_run(s.subrange(46, s.len() as int), (n - 1) as nat)
    }
}

/// Law: over a buffer holding exactly `n` consecutive minimum-size records,
/// an iterator budgeted for `n` records yields all `n` of them.
pub proof fn lemma_min_size_run_yields_exactly(s: Seq<u8>, n: nat)
    requires
        spec_min_size_run(s, n),
    ensures
        spec_records_yielded(s, n) == n,
    decreases n,
{
    if n == 0 {
    } else {
        lemma_min_size_run_yields_exactly(s.subrange(46, s.len() as int), (n - 1) as nat);
    }
}

} // verus!
