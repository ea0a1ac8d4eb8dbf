//! Possible compression methods of an archive entry.

use vstd::prelude::*;

verus! {

/// Compression method of the content of an archive entry. Only `Stored`
/// (content copied verbatim) is supported for reading; every other raw code
/// is kept explicitly as `Unsupported`.
#[derive(Copy, Clone, Debug, PartialEq, Eq, Structural)]
pub enum CompressionMethod {
    /// The entry is stored (no compression).
    Stored,
    /// Unsupported compression method, carrying its raw code.
    Unsupported(u16),
}

impl CompressionMethod {
    /// The method a raw 16-bit code denotes: 0 is `Stored`, every other code
    /// is `Unsupported`.
    pub open spec fn spec_from_u16(val: u16) -> CompressionMethod {
        if val == 0 {
            CompressionMethod::Stored
        } else {
            CompressionMethod::Unsupported(val)
        }
    }

    /// The raw 16-bit code of a method.
    pub open spec fn spec_to_u16(self) -> u16 {
        match self {
            CompressionMethod::Stored => 0,
            CompressionMethod::Unsupported(v) => v,
        }
    }

    /// Converts a `u16` to its corresponding `CompressionMethod`.
    pub fn from_u16(val: u16) -> (r: CompressionMethod)
        ensures
            r == CompressionMethod::spec_from_u16(val),
    {
        match val {
            0 => CompressionMethod::Stored,
            v => CompressionMethod::Unsupported(v),
        }
    }

    /// Converts a `CompressionMethod` to a `u16`.
    pub fn to_u16(self) -> (r: u16)
        ensures
            r == self.spec_to_u16(),
    {
        match self {
            CompressionMethod::Stored => 0,
            CompressionMethod::Unsupported(v) => v,
        }
    }
}

/// Decoding a raw code and encoding the result recovers the code, and 0 is
/// the one and only code that decodes to `Stored`.
pub proof fn lemma_method_code_round_trip(val: u16)
    ensures
        CompressionMethod::spec_from_u16(val).spec_to_u16() == val,
        (CompressionMethod::spec_from_u16(val) is Stored) <==> val == 0,
{
}

} // verus!
