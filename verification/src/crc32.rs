//! The checksum primitive, and a checksum-verifying bounded reader.
//!
//! The 32-bit checksum itself is a commodity primitive taken from the
//! `crc32fast` crate; its running state is used opaquely through a small set
//! of trusted wrappers. `Crc32Reader` is the verified part: a bounded view
//! over the archive bytes that folds every consumed byte into the running
//! checksum and compares it with the declared value at exhaustion.

use vstd::prelude::*;

use crate::result::{ZipError, ZipResult};

verus! {

/// `crc32fast`'s running checksum state, used opaquely.
#[verifier::external_type_specification]
#[verifier::external_body]
pub struct ExHasher(crc32fast::Hasher);

/// The bytes a running checksum state has been fed since it was created.
pub uninterp spec fn hasher_data(h: crc32fast::Hasher) -> Seq<u8>;

/// The 32-bit checksum of a byte sequence, as `crc32fast` computes it.
pub uninterp spec fn crc32_of(bytes: Seq<u8>) -> u32;

/// Relies on `crc32fast::Hasher::new`: a fresh state has been fed nothing.
#[verifier::external_body]
fn hasher_new() -> (r: crc32fast::Hasher)
    ensures
        hasher_data(r) == Seq::<u8>::empty(),
{
    crc32fast::Hasher::new()
}

/// Relies on `crc32fast::Hasher::update`: feeding bytes appends them to the
/// state's data.
#[verifier::external_body]
fn hasher_update(h: &mut crc32fast::Hasher, bytes: &Vec<u8>)
    ensures
        hasher_data(*final(h)) == hasher_data(*old(h)) + bytes@,
{
    h.update(bytes)
}

/// Relies on `crc32fast::Hasher::finalize`, called on a clone of the state
/// (`Hasher`'s derived `Clone` copies the state): the result is the checksum
/// of the bytes the state has been fed.
#[verifier::external_body]
fn hasher_finalize(h: &crc32fast::Hasher) -> (r: u32)
    ensures
        r == crc32_of(hasher_data(*h)),
{
    h.clone().finalize()
}

/// A checksum-verifying reader over one entry's content: a bounded view of
/// the archive bytes. While content remains, reads hand bytes out and fold
/// them into the running checksum; once the bound is reached, a read
/// signals a clean end only if the running checksum equals the declared
/// value, and fails with a checksum-mismatch error otherwise.
pub struct Crc32Reader<'a> {
    /// The whole archive's bytes.
    pub source: &'a Vec<u8>,
    /// Position of the first content byte.
    pub start: usize,
    /// Position of the next unconsumed content byte.
    pub pos: usize,
    /// Position one past the last content byte.
    pub end: usize,
    /// Running checksum over the consumed content bytes.
    pub hasher: crc32fast::Hasher,
    /// The declared checksum the content is held against.
    pub check: u32,
}

impl<'a> Crc32Reader<'a> {
    /// The entry content this reader ranges over.
    pub open spec fn content(self) -> Seq<u8> {
        self.source@.subrange(self.start as int, self.end as int)
    }

    /// How many content bytes have been consumed so far.
    pub open spec fn consumed(self) -> int {
        self.pos - self.start
    }

    /// The cursor lies inside the bounded view, and the running checksum
    /// state holds exactly the consumed prefix of the content.
    pub open spec fn wf(self) -> bool {
        &&& self.start <= self.pos <= self.end <= self.source@.len()
        &&& hasher_data(self.hasher) == self.source@.subrange(self.start as int, self.pos as int)
    }

    /// Creates a reader over `source[start .. end]`, holding the content
    /// against the declared checksum `check`.
    pub fn new(source: &'a Vec<u8>, start: usize, end: usize, check: u32) -> (r: Self)
        requires
            start <= end <= source@.len(),
        ensures
            r.wf(),
            r.source == source,
            r.start == start,
            r.end == end,
            r.check == check,
            r.consumed() == 0,
    {
        let hasher = hasher_new();
        let r = Crc32Reader { source, start, pos: start, end, hasher, check };
        proof {
            assert(hasher_data(r.hasher) =~= source@.subrange(start as int, start as int));
        }
        r
    }

    /// Reads up to `max` content bytes. While content remains, returns the
    /// next bytes and advances. At exhaustion a read with `max > 0` signals
    /// a clean end (an empty result) exactly when the content's checksum
    /// equals the declared value, and fails with a checksum-mismatch error
    /// otherwise.
    pub fn read(&mut self, max: usize) -> (r: ZipResult<Vec<u8>>)
        requires
            old(self).wf(),
        ensures
            final(self).wf(),
            final(self).source == old(self).source,
            final(self).start == old(self).start,
            final(self).end == old(self).end,
            final(self).check == old(self).check,
            ({
                let avail = old(self).end - old(self).pos;
                let want = if max <= avail { max as int } else { avail as int };
                if max == 0 {
                    &&& r matches Ok(v) && v@ == Seq::<u8>::empty()
                    &&& final(self).pos == old(self).pos
                } else if old(self).pos < old(self).end {
                    &&& r matches Ok(v) && v@ == old(self).source@.subrange(
                        old(self).pos as int,
                        old(self).pos + want,
                    )
                    &&& final(self).pos == old(self).pos + want
                } else if crc32_of(old(self).content()) == old(self).check {
                    &&& r matches Ok(v) && v@ == Seq::<u8>::empty()
                    &&& final(self).pos == old(self).pos
                } else {
                    &&& r matches Err(e) && e is Crc32Mismatch
                    &&& final(self).pos == old(self).pos
                }
            }),
    {
        if max == 0 {
            return Ok(Vec::new());
        }
        if self.pos < self.end {
            let avail = self.end - self.pos;
            let k = if max <= avail { max } else { avail };
            let out = crate::bytes::bytes_at(self.source, self.pos, k);
            hasher_update(&mut self.hasher, &out);
            self.pos = self.pos + k;
            proof {
                assert(hasher_data(self.hasher) =~= self.source@.subrange(
                    self.start as int,
                    self.pos as int,
                ));
            }
            Ok(out)
        } else {
            let sum = hasher_finalize(&self.hasher);
            proof {
                assert(self.source@.subrange(self.start as int, self.pos as int) =~= self
                    .content());
            }
            if sum == self.check {
                Ok(Vec::new())
            } else {
                Err(ZipError::Crc32Mismatch)
            }
        }
    }
}

} // verus!
