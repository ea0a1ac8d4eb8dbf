//! Locating and parsing the end-of-central-directory trailer.

use vstd::prelude::*;

use crate::bytes::{bytes_at, u16_at, u16_le_at, u32_at, u32_le_at};
use crate::result::{ZipError, ZipResult};

verus! {

/// Signature opening the end-of-central-directory trailer.
pub const END_OF_CENTRAL_DIRECTORY_SIGNATURE: u32 = 0x06054b50;

/// Byte count of the trailer's fixed portion, signature included.
pub const TRAILER_FIXED_SIZE: usize = 22;

/// The end-of-central-directory trailer: the fixed fields following its
/// signature, and the archive comment.
pub struct CentralDirectoryEnd {
    /// Number of the disk this trailer is on.
    pub disk_number: u16,
    /// Number of the disk holding the central directory.
    pub disk_with_central_directory: u16,
    /// Count of directory records on this disk.
    pub number_of_files_on_this_disk: u16,
    /// Count of directory records over all disks.
    pub number_of_files: u16,
    /// Byte size of the central directory.
    pub central_directory_size: u32,
    /// Byte offset at which the central directory starts.
    pub central_directory_offset: u32,
    /// Raw bytes of the archive comment.
    pub zip_file_comment: Vec<u8>,
}

/// Lowest position the backward signature scan may reach: the trailer's
/// fixed portion can be preceded by content and followed by a comment of at
/// most 65535 bytes.
pub open spec fn spec_window_lo(len: int) -> int {
    if len - TRAILER_FIXED_SIZE - 65535 >= 0 {
        len - TRAILER_FIXED_SIZE - 65535
    } else {
        0
    }
}

/// Position of the first trailer signature at or below `p`, scanning down
/// to `lo`.
pub open spec fn spec_sig_scan(s: Seq<u8>, p: int, lo: int) -> Option<int>
    decreases p - lo,
{
    if p < lo {
        None
    } else if u32_le_at(s, p) == END_OF_CENTRAL_DIRECTORY_SIGNATURE {
        Some(p)
    } else if p == lo {
        None
    } else {
        spec_sig_scan(s, p - 1, lo)
    }
}

/// Position of the trailer signature the backward scan finds: the highest
/// position in the searchable window holding the signature.
pub open spec fn spec_trailer_pos(s: Seq<u8>) -> Option<int> {
    if s.len() < TRAILER_FIXED_SIZE {
        None
    } else {
        spec_sig_scan(s, s.len() - TRAILER_FIXED_SIZE, spec_window_lo(s.len() as int))
    }
}

/// Whether the trailer parses: its signature is found in the searchable
/// window, and the comment its length field declares lies within the source.
pub open spec fn spec_trailer_parses(s: Seq<u8>) -> bool {
    &&& spec_trailer_pos(s) is Some
    &&& spec_trailer_pos(s).unwrap() + TRAILER_FIXED_SIZE + u16_le_at(
        s,
        spec_trailer_pos(s).unwrap() + 20,
    ) <= s.len()
}

/// Whether `t` holds exactly the fields of the trailer at position `p`.
pub open spec fn spec_trailer_matches(s: Seq<u8>, p: int, t: CentralDirectoryEnd) -> bool {
    &&& t.disk_number == u16_le_at(s, p + 4)
    &&& t.disk_with_central_directory == u16_le_at(s, p + 6)
    &&& t.number_of_files_on_this_disk == u16_le_at(s, p + 8)
    &&& t.number_of_files == u16_le_at(s, p + 10)
    &&& t.central_directory_size == u32_le_at(s, p + 12)
    &&& t.central_directory_offset == u32_le_at(s, p + 16)
    &&& t.zip_file_comment@ == s.subrange(
        p + TRAILER_FIXED_SIZE,
        p + TRAILER_FIXED_SIZE + u16_le_at(s, p + 20),
    )
}

impl CentralDirectoryEnd {
    /// Scans backward from the end of the source for the trailer signature,
    /// allowing a trailing comment of up to 65535 bytes, and parses the
    /// fields that follow it. Fails with an archive-structure error when no
    /// signature lies in the window, or when the comment the trailer
    /// declares would run past the end of the source.
    pub fn find_and_parse(source: &Vec<u8>) -> (r: ZipResult<CentralDirectoryEnd>)
        ensures
            r is Ok <==> spec_trailer_parses(source@),
            r matches Ok(t) ==> spec_trailer_matches(source@, spec_trailer_pos(source@).unwrap(), t),
            r matches Err(e) ==> e is InvalidArchive,
    {
        let len = source.len();
        if len < TRAILER_FIXED_SIZE {
            return Err(ZipError::InvalidArchive("Could not find central directory end"));
        }
        let hi = len - TRAILER_FIXED_SIZE;
        let lo = if hi >= 65535 {
            hi - 65535
        } else {
            0
        };
        let mut p = hi;
        loop
            invariant
                lo <= p <= hi,
                len == source@.len(),
                hi + TRAILER_FIXED_SIZE == source@.len(),
                lo == spec_window_lo(source@.len() as int),
                spec_sig_scan(source@, hi as int, lo as int) == spec_sig_scan(
                    source@,
                    p as int,
                    lo as int,
                ),
            decreases p,
        {
            let sig = u32_at(source, p);
            if sig == END_OF_CENTRAL_DIRECTORY_SIGNATURE {
                let disk_number = u16_at(source, p + 4);
                let disk_with_central_directory = u16_at(source, p + 6);
                let number_of_files_on_this_disk = u16_at(source, p + 8);
                let number_of_files = u16_at(source, p + 10);
                let central_directory_size = u32_at(source, p + 12);
                let central_directory_offset = u32_at(source, p + 16);
                let comment_length = u16_at(source, p + 20) as usize;
                if comment_length > len - (p + TRAILER_FIXED_SIZE) {
                    return Err(ZipError::InvalidArchive("Invalid zip file comment length"));
                }
                let zip_file_comment = bytes_at(source, p + TRAILER_FIXED_SIZE, comment_length);
                return Ok(CentralDirectoryEnd {
                    disk_number,
                    disk_with_central_directory,
                    number_of_files_on_this_disk,
                    number_of_files,
                    central_directory_size,
                    central_directory_offset,
                    zip_file_comment,
                });
            }
            if p == lo {
                return Err(ZipError::InvalidArchive("Could not find central directory end"));
            }
            p = p - 1;
        }
    }
}

} // verus!
