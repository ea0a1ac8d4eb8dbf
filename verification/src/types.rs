//! Metadata of one archive entry.

use vstd::prelude::*;

use crate::compression::CompressionMethod;

verus! {

/// A last-modified timestamp decoded from the packed 16-bit date and time
/// fields of a directory record.
#[derive(Copy, Clone, Debug, PartialEq, Eq, Structural)]
pub struct DateTime {
    /// Calendar year.
    pub year: u16,
    /// Month of the year, 1 to 12 in well-formed fields.
    pub month: u8,
    /// Day of the month, 1 to 31 in well-formed fields.
    pub day: u8,
    /// Hour of the day.
    pub hour: u8,
    /// Minute of the hour.
    pub minute: u8,
    /// Second of the minute, with the packed field's two-second granularity.
    pub second: u8,
}

/// The timestamp a packed date and time pair decodes to. The time packs
/// hour, minute and seconds÷2 in 5, 6 and 5 bits; the date packs year−1980,
/// month and day in 7, 4 and 5 bits.
pub open spec fn spec_datetime_from_packed(time: u16, date: u16) -> DateTime {
    DateTime {
        year: (1980 + (date >> 9)) as u16,
        month: ((date >> 5) & 0x0f) as u8,
        day: (date & 0x1f) as u8,
        hour: (time >> 11) as u8,
        minute: ((time >> 5) & 0x3f) as u8,
        second: ((time & 0x1f) * 2) as u8,
    }
}

/// Decodes the packed date and time fields into a calendar timestamp.
pub fn datetime_from_packed(time: u16, date: u16) -> (r: DateTime)
    ensures
        r == spec_datetime_from_packed(time, date),
{
    proof {
        assert((date >> 9) <= 127) by (bit_vector);
        assert((time & 0x1f) <= 31) by (bit_vector);
        assert(((date >> 5) & 0x0f) <= 15) by (bit_vector);
        assert((time >> 11) <= 31) by (bit_vector);
        assert(((time >> 5) & 0x3f) <= 63) by (bit_vector);
    }
    DateTime {
        year: 1980 + (date >> 9),
        month: ((date >> 5) & 0x0f) as u8,
        day: (date & 0x1f) as u8,
        hour: (time >> 11) as u8,
        minute: ((time >> 5) & 0x3f) as u8,
        second: ((time & 0x1f) as u8) * 2,
    }
}

/// Metadata of one archive entry, parsed from its central directory record
/// and its local header. Built once while the archive is opened, immutable
/// afterward.
#[derive(Debug, Clone)]
pub struct ZipFileData {
    /// True if the entry's encrypted flag is set.
    pub encrypted: bool,
    /// Compression method of the entry's content.
    pub compression_method: CompressionMethod,
    /// Last-modified timestamp, decoded from the packed date and time pair.
    pub last_modified_time: DateTime,
    /// Declared 32-bit checksum of the content.
    pub crc32: u32,
    /// Size of the content as stored in the archive.
    pub compressed_size: u64,
    /// Size of the content once decoded.
    pub uncompressed_size: u64,
    /// Decoded entry name.
    pub file_name: String,
    /// Decoded entry comment.
    pub file_comment: String,
    /// Offset of the entry's local header.
    pub header_start: u64,
    /// Offset of the entry's first content byte, always computed from the
    /// local header's own length fields.
    pub data_start: u64,
}

} // verus!
