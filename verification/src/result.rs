//! Error types for archive reading.

use vstd::prelude::*;

verus! {

/// Error type for operations on an archive.
#[derive(Clone, Copy, Debug)]
pub enum ZipError {
    /// The archive bytes break the container format: a bad signature, or a
    /// malformed offset or length.
    InvalidArchive(&'static str),
    /// The archive uses a feature this reader does not support, with a
    /// human-readable reason.
    UnsupportedArchive(&'static str),
    /// The requested entry is not in the archive.
    FileNotFound,
    /// The entry's content did not match its declared checksum.
    Crc32Mismatch,
}

/// Generic result type for operations on an archive.
pub type ZipResult<T> = Result<T, ZipError>;

/// Builds the error every unsupported-feature rejection carries.
pub fn unsupported_zip_error<T>(detail: &'static str) -> (r: ZipResult<T>)
    ensures
        r matches Err(e) && e matches ZipError::UnsupportedArchive(d) && d == detail,
{
    Err(ZipError::UnsupportedArchive(detail))
}

} // verus!
