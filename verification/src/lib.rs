//! Zero-copy readers for the structural records of the ZIP archive format.
//!
//! The crate exposes bounds-checked, typed views over raw archive bytes: the
//! End of Central Directory record, Central Directory File Header records,
//! Local File Header records and Data Descriptor records, together with the
//! search and iteration primitives needed to locate them inside a possibly
//! corrupted buffer.

pub mod api;
pub mod utils;
pub mod zip;
