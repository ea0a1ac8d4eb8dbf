//! Random-access reading of zip archive containers held in memory.
//!
//! An archive is opened from its raw bytes: the end-of-central-directory
//! trailer is located and parsed, every central directory record is decoded
//! and cross-checked against its local header, and each stored entry can then
//! be streamed back out through a checksum-verifying reader.

pub mod bytes;
pub mod compression;
pub mod crc32;
pub mod encoding;
pub mod footer;
pub mod read;
pub mod result;
pub mod types;

pub use compression::CompressionMethod;
pub use read::ZipArchive;
pub use read::ZipFile;
