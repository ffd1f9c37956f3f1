//! Readers and iterators for the structural records of the ZIP format.
//!
//! A ZIP archive stores files in arbitrary order, each compressed
//! independently, and describes the current set of files in a central
//! directory located toward the end of the archive. Four structural records
//! tie the format together: the End of Central Directory record, the Central
//! Directory File Header records, the Local File Header records and the
//! optional Data Descriptor records. Multi-byte fields are stored in
//! little-endian order.

pub mod cdfh;
pub mod cdfh_iter;
pub mod dd;
pub mod eocd;
pub mod eocd_iter;
pub mod lfh;
