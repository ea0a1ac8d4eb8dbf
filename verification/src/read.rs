//! Opening an archive, looking entries up, and reading their content.

use vstd::prelude::*;

use crate::bytes::{bytes_at, u16_at, u16_le_at, u32_at, u32_le_at};
use crate::compression::CompressionMethod;
use crate::crc32::{crc32_of, Crc32Reader};
use crate::encoding::{decode_text, decoded_text};
use crate::footer::{spec_trailer_parses, spec_trailer_pos, CentralDirectoryEnd};
use crate::result::{unsupported_zip_error, ZipError, ZipResult};
use crate::types::{datetime_from_packed, spec_datetime_from_packed, DateTime, ZipFileData};

verus! {

/// Signature opening each central directory record.
pub const CENTRAL_DIRECTORY_HEADER_SIGNATURE: u32 = 0x02014b50;

/// Signature opening each local header.
pub const LOCAL_FILE_HEADER_SIGNATURE: u32 = 0x04034b50;

/// Whether the extra-field bytes of `e`, from position `pos` on, walk as a
/// whole sequence of tag (16-bit), length (16-bit), value (length bytes)
/// sub-records: no tag, length or value may run past the field's end.
pub open spec fn spec_extra_ok(e: Seq<u8>, pos: int) -> bool
    decreases e.len() - pos,
{
    if pos == e.len() {
        true
    } else if pos > e.len() || e.len() - pos < 4 {
        false
    } else {
        let l = u16_le_at(e, pos + 2) as int;
        if pos + 4 + l > e.len() {
            false
        } else {
            spec_extra_ok(e, pos + 4 + l)
        }
    }
}

/// Position one past the central directory record at `pos`: its 46 fixed
/// bytes plus its name, extra and comment blocks.
pub open spec fn spec_next_record_pos(s: Seq<u8>, pos: int) -> int {
    pos + 46 + u16_le_at(s, pos + 28) + u16_le_at(s, pos + 30) + u16_le_at(s, pos + 32)
}

/// Whether the central directory record at `pos` parses: its signature and
/// blocks lie within the source, the local header it points at carries the
/// local signature, and its extra field walks whole.
pub open spec fn spec_record_ok(s: Seq<u8>, pos: int) -> bool {
    let nlen = u16_le_at(s, pos + 28) as int;
    let elen = u16_le_at(s, pos + 30) as int;
    let clen = u16_le_at(s, pos + 32) as int;
    let off = u32_le_at(s, pos + 42) as int;
    &&& pos + 46 <= s.len()
    &&& u32_le_at(s, pos) == CENTRAL_DIRECTORY_HEADER_SIGNATURE
    &&& pos + 46 + nlen + elen + clen <= s.len()
    &&& off + 30 <= s.len()
    &&& u32_le_at(s, off) == LOCAL_FILE_HEADER_SIGNATURE
    &&& spec_extra_ok(s.subrange(pos + 46 + nlen, pos + 46 + nlen + elen), 0)
}

/// Whether `f` holds exactly what the central directory record at `pos`
/// declares, with the content offset computed from the local header's own
/// length fields, and `next` is the position after the record.
pub open spec fn spec_record_matches(s: Seq<u8>, pos: int, f: ZipFileData, next: int) -> bool {
    let flags = u16_le_at(s, pos + 8);
    let is_utf8 = (flags & 2048) != 0;
    let nlen = u16_le_at(s, pos + 28) as int;
    let elen = u16_le_at(s, pos + 30) as int;
    let clen = u16_le_at(s, pos + 32) as int;
    let off = u32_le_at(s, pos + 42) as int;
    &&& f.encrypted == ((flags & 1) == 1)
    &&& f.compression_method == CompressionMethod::spec_from_u16(u16_le_at(s, pos + 10))
    &&& f.last_modified_time == spec_datetime_from_packed(
        u16_le_at(s, pos + 12),
        u16_le_at(s, pos + 14),
    )
    &&& f.crc32 == u32_le_at(s, pos + 16)
    &&& f.compressed_size == u32_le_at(s, pos + 20)
    &&& f.uncompressed_size == u32_le_at(s, pos + 24)
    &&& f.file_name@ == decoded_text(s.subrange(pos + 46, pos + 46 + nlen), is_utf8)
    &&& f.file_comment@ == decoded_text(
        s.subrange(pos + 46 + nlen + elen, pos + 46 + nlen + elen + clen),
        is_utf8,
    )
    &&& f.header_start == off
    &&& f.data_start == off + 30 + u16_le_at(s, off + 26) + u16_le_at(s, off + 28)
    &&& next == spec_next_record_pos(s, pos)
}

/// Position of the `i`-th central directory record, for a directory whose
/// first record starts at `start`.
pub open spec fn spec_record_pos(s: Seq<u8>, start: int, i: int) -> int
    decreases i,
{
    if i <= 0 {
        start
    } else {
        spec_next_record_pos(s, spec_record_pos(s, start, i - 1))
    }
}

/// Whether all `n` declared central directory records parse.
pub open spec fn spec_directory_ok(s: Seq<u8>, start: int, n: int) -> bool {
    forall|i: int| 0 <= i < n ==> #[trigger] spec_record_ok(s, spec_record_pos(s, start, i))
}

/// Whether an archive held in `s` opens: its trailer parses, the trailer
/// names no second disk, and every declared directory record parses.
pub open spec fn spec_archive_open_ok(s: Seq<u8>) -> bool {
    &&& spec_trailer_parses(s)
    &&& ({
        let p = spec_trailer_pos(s).unwrap();
        &&& u16_le_at(s, p + 4) == u16_le_at(s, p + 6)
        &&& spec_directory_ok(s, u32_le_at(s, p + 16) as int, u16_le_at(s, p + 8) as int)
    })
}

/// An archive whose trailer parses, names one disk, and declares zero
/// entries opens, whatever else the source holds: with nothing declared, no
/// directory record is required to parse.
pub proof fn lemma_open_zero_entries(s: Seq<u8>)
    requires
        spec_trailer_parses(s),
        u16_le_at(s, spec_trailer_pos(s).unwrap() + 4) == u16_le_at(
            s,
            spec_trailer_pos(s).unwrap() + 6,
        ),
        u16_le_at(s, spec_trailer_pos(s).unwrap() + 8) == 0,
    ensures
        spec_archive_open_ok(s),
{
}

/// First position of an entry's content that lies within the source.
pub open spec fn spec_entry_start(s: Seq<u8>, f: ZipFileData) -> int {
    if f.data_start <= s.len() {
        f.data_start as int
    } else {
        s.len() as int
    }
}

/// Position one past an entry's content, clipped to the source's end.
pub open spec fn spec_entry_end(s: Seq<u8>, f: ZipFileData) -> int {
    if f.data_start + f.compressed_size <= s.len() {
        f.data_start + f.compressed_size
    } else {
        s.len() as int
    }
}

/// The bytes of an entry's content that lie within the source: the
/// `compressed_size` bytes from `data_start` on, clipped to the source.
pub open spec fn spec_entry_content(s: Seq<u8>, f: ZipFileData) -> Seq<u8> {
    s.subrange(spec_entry_start(s, f), spec_entry_end(s, f))
}

/// Skip-walks the extra field of a central directory record: tag (16-bit),
/// length (16-bit), value (length bytes) sub-records until the field is
/// exhausted. No tag is interpreted. Fails with an archive-structure error
/// when a tag, a length or a value would run past the field's end.
fn parse_extra_field(data: &Vec<u8>) -> (r: ZipResult<()>)
    ensures
        r is Ok <==> spec_extra_ok(data@, 0),
        r matches Err(e) ==> e is InvalidArchive,
{
    let dlen = data.len();
    let mut pos: usize = 0;
    while pos < dlen
        invariant
            dlen == data@.len(),
            pos <= dlen,
            spec_extra_ok(data@, 0) == spec_extra_ok(data@, pos as int),
        decreases dlen - pos,
    {
        if dlen - pos < 4 {
            return Err(ZipError::InvalidArchive("Incomplete extra data field"));
        }
        let l = u16_at(data, pos + 2) as usize;
        if l > dlen - (pos + 4) {
            return Err(ZipError::InvalidArchive("Extra data field length exceeds its bounds"));
        }
        pos = pos + 4 + l;
    }
    Ok(())
}

/// Parses the central directory record at `pos` together with the local
/// header it points at, and returns the entry's metadata and the position
/// one past the record. Fails with an archive-structure error on a missing
/// signature or any field running past the source's end.
fn central_header_to_zip_file(source: &Vec<u8>, pos: usize) -> (r: ZipResult<
    (ZipFileData, usize),
>)
    ensures
        r is Ok <==> spec_record_ok(source@, pos as int),
        r matches Ok(p) ==> spec_record_matches(source@, pos as int, p.0, p.1 as int),
        r matches Err(e) ==> e is InvalidArchive,
{
    let len = source.len();
    if len < 46 || pos > len - 46 {
        return Err(ZipError::InvalidArchive("Unexpected end of central directory"));
    }
    let signature = u32_at(source, pos);
    if signature != CENTRAL_DIRECTORY_HEADER_SIGNATURE {
        return Err(ZipError::InvalidArchive("Invalid Central Directory header"));
    }
    let flags = u16_at(source, pos + 8);
    let encrypted = flags & 1 == 1;
    let is_utf8 = flags & 2048 != 0;
    let compression_method = u16_at(source, pos + 10);
    let last_mod_time = u16_at(source, pos + 12);
    let last_mod_date = u16_at(source, pos + 14);
    let crc32 = u32_at(source, pos + 16);
    let compressed_size = u32_at(source, pos + 20);
    let uncompressed_size = u32_at(source, pos + 24);
    let file_name_length = u16_at(source, pos + 28) as usize;
    let extra_field_length = u16_at(source, pos + 30) as usize;
    let file_comment_length = u16_at(source, pos + 32) as usize;
    let offset = u32_at(source, pos + 42);

    let rem = len - (pos + 46);
    if file_name_length > rem || extra_field_length > rem - file_name_length
        || file_comment_length > rem - file_name_length - extra_field_length {
        return Err(ZipError::InvalidArchive("Unexpected end of central directory"));
    }
    let name_start = pos + 46;
    let extra_start = name_start + file_name_length;
    let comment_start = extra_start + extra_field_length;
    let return_position = comment_start + file_comment_length;
    let file_name_raw = bytes_at(source, name_start, file_name_length);
    let extra_field = bytes_at(source, extra_start, extra_field_length);
    let file_comment_raw = bytes_at(source, comment_start, file_comment_length);

    let offset_index = offset as usize;
    if len < 30 || offset_index > len - 30 {
        return Err(ZipError::InvalidArchive("Invalid local file header"));
    }
    let local_signature = u32_at(source, offset_index);
    if local_signature != LOCAL_FILE_HEADER_SIGNATURE {
        return Err(ZipError::InvalidArchive("Invalid local file header"));
    }
    let local_name_length = u16_at(source, offset_index + 26);
    let local_extra_length = u16_at(source, offset_index + 28);
    let data_start = offset as u64 + 30 + local_name_length as u64 + local_extra_length as u64;

    match parse_extra_field(&extra_field) {
        Ok(()) => {},
        Err(e) => {
            return Err(e);
        },
    }

    let file_name = decode_text(&file_name_raw, is_utf8);
    let file_comment = decode_text(&file_comment_raw, is_utf8);

    let result = ZipFileData {
        encrypted,
        compression_method: CompressionMethod::from_u16(compression_method),
        last_modified_time: datetime_from_packed(last_mod_time, last_mod_date),
        crc32,
        compressed_size: compressed_size as u64,
        uncompressed_size: uncompressed_size as u64,
        file_name,
        file_comment,
        header_start: offset as u64,
        data_start,
    };
    Ok((result, return_position))
}

/// Index of the entry a name lookup resolves to: the highest index whose
/// decoded name equals the queried name, since a later record under the
/// same name shadows an earlier one.
pub open spec fn spec_name_lookup(files: Seq<ZipFileData>, name: Seq<char>) -> Option<int>
    decreases files.len(),
{
    if files.len() == 0 {
        None
    } else if files[files.len() - 1].file_name@ == name {
        Some(files.len() - 1)
    } else {
        spec_name_lookup(files.drop_last(), name)
    }
}

/// A name lookup resolves to an entry carrying exactly the queried name,
/// and fails exactly when no entry carries it.
pub proof fn lemma_name_lookup(files: Seq<ZipFileData>, name: Seq<char>)
    ensures
        spec_name_lookup(files, name) matches Some(j) ==> 0 <= j < files.len()
            && files[j].file_name@ == name,
        spec_name_lookup(files, name) is None <==> (forall|k: int|
            0 <= k < files.len() ==> files[k].file_name@ != name),
    decreases files.len(),
{
    if files.len() > 0 {
        lemma_name_lookup(files.drop_last(), name);
        if files[files.len() - 1].file_name@ != name {
            assert(forall|k: int|
                0 <= k < files.len() - 1 ==> files.drop_last()[k] == files[k]);
        }
    }
}

/// A reader over the contents of an archive held in memory. The archive
/// owns its byte source; the entry table is built once when the archive is
/// opened and never changes afterward.
pub struct ZipArchive {
    /// The archive's byte source.
    pub source: Vec<u8>,
    /// Metadata of every entry, in central directory order.
    pub files: Vec<ZipFileData>,
}

/// Per-method decoder over one entry's content; `Stored` content sits
/// verbatim behind the checksum-verifying reader.
pub enum ZipFileReader<'a> {
    /// Verbatim content behind the checksum-verifying reader.
    Stored(Crc32Reader<'a>),
}

/// A read session over one archive entry.
pub struct ZipFile<'a> {
    /// The entry's metadata.
    pub data: &'a ZipFileData,
    /// The decoding reader over the entry's content.
    pub reader: ZipFileReader<'a>,
}

impl ZipArchive {
    /// Opens an archive and parses its whole central directory: locates the
    /// trailer, rejects multi-disk archives, then parses every declared
    /// directory record and its local header. Fails on the first malformed
    /// record, leaving no partially built archive.
    pub fn new(source: Vec<u8>) -> (r: ZipResult<ZipArchive>)
        ensures
            r is Ok <==> spec_archive_open_ok(source@),
            r matches Ok(ar) ==> ({
                let s = source@;
                let p = spec_trailer_pos(s).unwrap();
                let start = u32_le_at(s, p + 16) as int;
                &&& ar.source@ == s
                &&& ar.files@.len() == u16_le_at(s, p + 8)
                &&& forall|i: int|
                    0 <= i < ar.files@.len() ==> spec_record_matches(
                        s,
                        spec_record_pos(s, start, i),
                        #[trigger] ar.files@[i],
                        spec_record_pos(s, start, i + 1),
                    )
            }),
            r matches Err(e) ==> (e is InvalidArchive || e is UnsupportedArchive),
            spec_trailer_parses(source@) && u16_le_at(source@, spec_trailer_pos(source@).unwrap() + 4)
                != u16_le_at(source@, spec_trailer_pos(source@).unwrap() + 6) ==> (r matches Err(e)
                && e is UnsupportedArchive),
    {
        let footer = match CentralDirectoryEnd::find_and_parse(&source) {
            Ok(f) => f,
            Err(e) => {
                return Err(e);
            },
        };

        if footer.disk_number != footer.disk_with_central_directory {
            return unsupported_zip_error("Support for multi-disk files is not implemented");
        }

        let directory_start = footer.central_directory_offset as usize;
        let number_of_files = footer.number_of_files_on_this_disk as usize;

        let ghost s = source@;
        let ghost p = spec_trailer_pos(source@).unwrap();

        let mut files: Vec<ZipFileData> = Vec::new();
        let mut pos = directory_start;
        let mut i: usize = 0;
        while i < number_of_files
            invariant
                s == source@,
                spec_trailer_parses(s),
                p == spec_trailer_pos(s).unwrap(),
                number_of_files == u16_le_at(s, p + 8),
                directory_start == u32_le_at(s, p + 16),
                u16_le_at(s, p + 4) == u16_le_at(s, p + 6),
                i <= number_of_files,
                files@.len() == i,
                pos == spec_record_pos(s, directory_start as int, i as int),
                forall|j: int|
                    0 <= j < i ==> #[trigger] spec_record_ok(
                        s,
                        spec_record_pos(s, directory_start as int, j),
                    ),
                forall|j: int|
                    0 <= j < i ==> spec_record_matches(
                        s,
                        spec_record_pos(s, directory_start as int, j),
                        #[trigger] files@[j],
                        spec_record_pos(s, directory_start as int, j + 1),
                    ),
            decreases number_of_files - i,
        {
            match central_header_to_zip_file(&source, pos) {
                Ok(file_and_next) => {
                    let (file, next) = file_and_next;
                    proof {
                        assert(spec_record_pos(s, directory_start as int, i + 1)
                            == spec_next_record_pos(
                            s,
                            spec_record_pos(s, directory_start as int, i as int),
                        ));
                        assert(spec_record_ok(s, spec_record_pos(s, directory_start as int, i as int)));
                    }
                    files.push(file);
                    pos = next;
                    i = i + 1;
                },
                Err(e) => {
                    proof {
                        assert(!spec_record_ok(
                            s,
                            spec_record_pos(s, directory_start as int, i as int),
                        ));
                        assert(!spec_archive_open_ok(s));
                    }
                    return Err(e);
                },
            }
        }
        Ok(ZipArchive { source, files })
    }

    /// Number of entries in this archive.
    pub fn len(&self) -> (r: usize)
        ensures
            r == self.files@.len(),
    {
        self.files.len()
    }

    /// Looks an entry up by its decoded name; a later entry under the same
    /// name shadows an earlier one. Fails with not-found exactly when no
    /// entry carries the name; an entry found but encrypted or not stored
    /// verbatim is rejected as unsupported.
    pub fn by_name<'a>(&'a self, name: &str) -> (r: ZipResult<ZipFile<'a>>)
        ensures
            ({
                let lk = spec_name_lookup(self.files@, name@);
                match lk {
                    Option::None => r matches Err(ZipError::FileNotFound),
                    Option::Some(j) => {
                        &&& (self.files@[j].encrypted ==> (r matches Err(e)
                            && e is UnsupportedArchive))
                        &&& (!self.files@[j].encrypted && !(self.files@[j].compression_method
                            is Stored) ==> (r matches Err(e) && e is UnsupportedArchive))
                        &&& (!self.files@[j].encrypted && self.files@[j].compression_method
                            is Stored ==> (r matches Ok(f) && ({
                            &&& *f.data == self.files@[j]
                            &&& f.data.file_name@ == name@
                            &&& f.wf()
                            &&& f.consumed() == 0
                            &&& f.content() == spec_entry_content(self.source@, self.files@[j])
                        })))
                    },
                }
            }),
            (r matches Err(ZipError::FileNotFound)) <==> (forall|k: int|
                0 <= k < self.files@.len() ==> self.files@[k].file_name@ != name@),
    {
        proof {
            lemma_name_lookup(self.files@, name@);
        }
        let query: String = name.to_owned();
        let n = self.files.len();
        let mut j: usize = n;
        proof {
            assert(self.files@.take(n as int) =~= self.files@);
        }
        while j > 0
            invariant
                j <= n,
                n == self.files@.len(),
                query@ == name@,
                spec_name_lookup(self.files@, name@) == spec_name_lookup(
                    self.files@.take(j as int),
                    name@,
                ),
            decreases j,
        {
            j = j - 1;
            proof {
                assert(self.files@.take((j + 1) as int).drop_last() =~= self.files@.take(j as int));
                assert(self.files@.take((j + 1) as int).last() == self.files@[j as int]);
            }
            if self.files[j].file_name == query {
                return self.by_index(j);
            }
        }
        Err(ZipError::FileNotFound)
    }

    /// Hands out a read session over the entry at `file_number`. Fails with
    /// not-found for every index at or past the entry count; an entry whose
    /// encrypted flag is set, or whose compression method is not `Stored`,
    /// is rejected as unsupported, each with its own reason.
    pub fn by_index<'a>(&'a self, file_number: usize) -> (r: ZipResult<ZipFile<'a>>)
        ensures
            file_number >= self.files@.len() ==> r matches Err(ZipError::FileNotFound),
            file_number < self.files@.len() && self.files@[file_number as int].encrypted ==> (
            r matches Err(e) && e is UnsupportedArchive),
            file_number < self.files@.len() && !self.files@[file_number as int].encrypted && !(
            self.files@[file_number as int].compression_method is Stored) ==> (r matches Err(e)
                && e is UnsupportedArchive),
            file_number < self.files@.len() && !self.files@[file_number as int].encrypted
                && self.files@[file_number as int].compression_method is Stored ==> (r matches Ok(f)
                && ({
                let data = self.files@[file_number as int];
                &&& *f.data == data
                &&& f.wf()
                &&& f.consumed() == 0
                &&& f.content() == spec_entry_content(self.source@, data)
            })),
    {
        if file_number >= self.files.len() {
            return Err(ZipError::FileNotFound);
        }
        let data = &self.files[file_number];

        if data.encrypted {
            return unsupported_zip_error("Encrypted files are not supported");
        }
        match data.compression_method {
            CompressionMethod::Stored => {},
            _ => {
                return unsupported_zip_error("Compression method not supported");
            },
        }

        let source_len = self.source.len() as u64;
        let start64 = if data.data_start <= source_len {
            data.data_start
        } else {
            source_len
        };
        let end64 = if data.data_start <= source_len && data.compressed_size <= source_len
            - data.data_start {
            data.data_start + data.compressed_size
        } else {
            source_len
        };
        let start = start64 as usize;
        let end = end64 as usize;
        let reader = Crc32Reader::new(&self.source, start, end, data.crc32);
        Ok(ZipFile { data, reader: ZipFileReader::Stored(reader) })
    }

    /// Unwraps and returns the inner byte source.
    pub fn into_inner(self) -> (r: Vec<u8>)
        ensures
            r == self.source,
    {
        self.source
    }
}

impl<'a> ZipFile<'a> {
    /// The checksum-verifying reader behind this session.
    pub open spec fn spec_inner(self) -> Crc32Reader<'a> {
        match self.reader {
            ZipFileReader::Stored(r) => r,
        }
    }

    /// The session is over the reader's bounded view, whose content is held
    /// against this entry's declared checksum.
    pub open spec fn wf(self) -> bool {
        &&& self.spec_inner().wf()
        &&& self.spec_inner().check == self.data.crc32
    }

    /// The entry content this session ranges over.
    pub open spec fn content(self) -> Seq<u8> {
        self.spec_inner().content()
    }

    /// How many content bytes this session has consumed.
    pub open spec fn consumed(self) -> int {
        self.spec_inner().consumed()
    }

    /// The decoding reader for this entry's compression method.
    pub fn get_reader(&mut self) -> (r: &mut Crc32Reader<'a>)
        ensures
            *r == old(self).spec_inner(),
            final(self).data == old(self).data,
            final(self).reader == (ZipFileReader::Stored(*final(r))),
    {
        match &mut self.reader {
            ZipFileReader::Stored(r) => r,
        }
    }

    /// Whether the session has consumed all its content.
    pub fn exhausted(&self) -> (b: bool)
        requires
            self.wf(),
        ensures
            b == (self.consumed() == self.content().len()),
    {
        match &self.reader {
            ZipFileReader::Stored(r) => r.pos >= r.end,
        }
    }

    /// Reads up to `max` content bytes. While content remains, returns the
    /// next bytes. At exhaustion a read with `max > 0` signals a clean end
    /// (an empty result) exactly when the content's checksum equals the
    /// declared value, and fails with a checksum-mismatch error otherwise.
    pub fn read(&mut self, max: usize) -> (r: ZipResult<Vec<u8>>)
        requires
            old(self).wf(),
        ensures
            final(self).wf(),
            final(self).data == old(self).data,
            final(self).content() == old(self).content(),
            ({
                let avail = old(self).content().len() - old(self).consumed();
                let want = if max <= avail { max as int } else { avail };
                if max == 0 {
                    &&& r matches Ok(v) && v@ == Seq::<u8>::empty()
                    &&& final(self).consumed() == old(self).consumed()
                } else if old(self).consumed() < old(self).content().len() {
                    &&& r matches Ok(v) && v@ == old(self).content().subrange(
                        old(self).consumed(),
                        old(self).consumed() + want,
                    )
                    &&& final(self).consumed() == old(self).consumed() + want
                } else if crc32_of(old(self).content()) == old(self).data.crc32 {
                    &&& r matches Ok(v) && v@ == Seq::<u8>::empty()
                    &&& final(self).consumed() == old(self).consumed()
                } else {
                    &&& r matches Err(e) && e is Crc32Mismatch
                    &&& final(self).consumed() == old(self).consumed()
                }
            }),
    {
        let reader = self.get_reader();
        reader.read(max)
    }

    /// Reads the rest of the content to exhaustion. Succeeds, returning all
    /// remaining content bytes, exactly when the content's checksum equals
    /// the declared value, and fails with a checksum-mismatch error
    /// otherwise.
    pub fn read_to_end(&mut self) -> (r: ZipResult<Vec<u8>>)
        requires
            old(self).wf(),
        ensures
            final(self).wf(),
            final(self).data == old(self).data,
            final(self).content() == old(self).content(),
            r is Ok <==> crc32_of(old(self).content()) == old(self).data.crc32,
            r matches Ok(v) ==> v@ == old(self).content().skip(old(self).consumed()),
            r matches Err(e) ==> e is Crc32Mismatch,
    {
        let mut out: Vec<u8> = Vec::new();
        while !self.exhausted()
            invariant
                old(self).wf(),
                self.wf(),
                self.data == old(self).data,
                self.content() == old(self).content(),
                old(self).consumed() <= self.consumed() <= self.content().len(),
                out@ == old(self).content().subrange(old(self).consumed(), self.consumed()),
            decreases self.content().len() - self.consumed(),
        {
            match self.read(1024) {
                Ok(mut chunk) => {
                    out.append(&mut chunk);
                    proof {
                        assert(out@ =~= old(self).content().subrange(
                            old(self).consumed(),
                            self.consumed(),
                        ));
                    }
                },
                Err(_) => {
                    // Content remains, so this read hands bytes out and
                    // cannot reach the checksum comparison.
                    proof {
                        assert(false);
                    }
                },
            }
        }
        match self.read(1) {
            Ok(_) => {
                proof {
                    assert(out@ =~= old(self).content().skip(old(self).consumed()));
                }
                Ok(out)
            },
            Err(e) => Err(e),
        }
    }

    /// The decoded name of the entry.
    pub fn name(&self) -> (r: &str)
        ensures
            r@ == self.data.file_name@,
    {
        self.data.file_name.as_str()
    }

    /// The decoded comment of the entry.
    pub fn comment(&self) -> (r: &str)
        ensures
            r@ == self.data.file_comment@,
    {
        self.data.file_comment.as_str()
    }

    /// The compression method the entry's content is stored under.
    pub fn compression(&self) -> (r: CompressionMethod)
        ensures
            r == self.data.compression_method,
    {
        self.data.compression_method
    }

    /// The size of the entry's content as stored in the archive.
    pub fn compressed_size(&self) -> (r: u64)
        ensures
            r == self.data.compressed_size,
    {
        self.data.compressed_size
    }

    /// The size of the entry's content once decoded.
    pub fn size(&self) -> (r: u64)
        ensures
            r == self.data.uncompressed_size,
    {
        self.data.uncompressed_size
    }

    /// The time the entry was last modified.
    pub fn last_modified(&self) -> (r: DateTime)
        ensures
            r == self.data.last_modified_time,
    {
        self.data.last_modified_time
    }
}

} // verus!
