use zip::result::ZipError;
use zip::CompressionMethod;
use zip::ZipArchive;

fn push_u16(out: &mut Vec<u8>, x: u16) {
    out.push((x & 0xff) as u8);
    out.push((x >> 8) as u8);
}

fn push_u32(out: &mut Vec<u8>, x: u32) {
    out.push((x & 0xff) as u8);
    out.push(((x >> 8) & 0xff) as u8);
    out.push(((x >> 16) & 0xff) as u8);
    out.push(((x >> 24) & 0xff) as u8);
}

fn local_header(
    name: &[u8],
    flags: u16,
    method: u16,
    crc: u32,
    sizes: (u32, u32),
    extra: &[u8],
) -> Vec<u8> {
    let mut out = Vec::new();
    push_u32(&mut out, 0x04034b50);
    push_u16(&mut out, 20); // version needed
    push_u16(&mut out, flags);
    push_u16(&mut out, method);
    push_u16(&mut out, 0x6c75); // mod time 13:35:42
    push_u16(&mut out, 0x4d71); // mod date 2018-11-17
    push_u32(&mut out, crc);
    push_u32(&mut out, sizes.0);
    push_u32(&mut out, sizes.1);
    push_u16(&mut out, name.len() as u16);
    push_u16(&mut out, extra.len() as u16);
    out.extend_from_slice(name);
    out.extend_from_slice(extra);
    out
}

fn central_record(
    name: &[u8],
    comment: &[u8],
    flags: u16,
    method: u16,
    crc: u32,
    sizes: (u32, u32),
    extra: &[u8],
    local_offset: u32,
) -> Vec<u8> {
    let mut out = Vec::new();
    push_u32(&mut out, 0x02014b50);
    push_u16(&mut out, 20); // version made by
    push_u16(&mut out, 20); // version needed
    push_u16(&mut out, flags);
    push_u16(&mut out, method);
    push_u16(&mut out, 0x6c75); // mod time
    push_u16(&mut out, 0x4d71); // mod date
    push_u32(&mut out, crc);
    push_u32(&mut out, sizes.0);
    push_u32(&mut out, sizes.1);
    push_u16(&mut out, name.len() as u16);
    push_u16(&mut out, extra.len() as u16);
    push_u16(&mut out, comment.len() as u16);
    push_u16(&mut out, 0); // disk start
    push_u16(&mut out, 0); // internal attributes
    push_u32(&mut out, 0); // external attributes
    push_u32(&mut out, local_offset);
    out.extend_from_slice(name);
    out.extend_from_slice(extra);
    out.extend_from_slice(comment);
    out
}

fn trailer(
    disk_number: u16,
    disk_with_directory: u16,
    entries: u16,
    dir_size: u32,
    dir_offset: u32,
    comment: &[u8],
) -> Vec<u8> {
    let mut out = Vec::new();
    push_u32(&mut out, 0x06054b50);
    push_u16(&mut out, disk_number);
    push_u16(&mut out, disk_with_directory);
    push_u16(&mut out, entries);
    push_u16(&mut out, entries);
    push_u32(&mut out, dir_size);
    push_u32(&mut out, dir_offset);
    push_u16(&mut out, comment.len() as u16);
    out.extend_from_slice(comment);
    out
}

struct Entry<'x> {
    name: &'x [u8],
    content: &'x [u8],
    comment: &'x [u8],
    flags: u16,
    method: u16,
    crc: u32,
    extra: Vec<u8>,
}

impl<'x> Entry<'x> {
    fn stored(name: &'x [u8], content: &'x [u8]) -> Entry<'x> {
        Entry {
            name,
            content,
            comment: b"",
            flags: 0,
            method: 0,
            crc: crc32fast::hash(content),
            extra: Vec::new(),
        }
    }
}

fn build_archive(entries: &[Entry]) -> Vec<u8> {
    let mut out = Vec::new();
    let mut offsets = Vec::new();
    for e in entries {
        offsets.push(out.len() as u32);
        let sizes = (e.content.len() as u32, e.content.len() as u32);
        out.extend_from_slice(&local_header(e.name, e.flags, e.method, e.crc, sizes, &[]));
        out.extend_from_slice(e.content);
    }
    let dir_offset = out.len() as u32;
    for (e, off) in entries.iter().zip(offsets.iter()) {
        let sizes = (e.content.len() as u32, e.content.len() as u32);
        out.extend_from_slice(&central_record(
            e.name, e.comment, e.flags, e.method, e.crc, sizes, &e.extra, *off,
        ));
    }
    let dir_size = out.len() as u32 - dir_offset;
    out.extend_from_slice(&trailer(0, 0, entries.len() as u16, dir_size, dir_offset, b""));
    out
}

#[test]
fn empty_archive_opens() {
    let archive = ZipArchive::new(trailer(0, 0, 0, 0, 0, b"")).unwrap();
    assert_eq!(archive.len(), 0);
}

#[test]
fn empty_archive_with_comment_opens() {
    let archive = ZipArchive::new(trailer(0, 0, 0, 0, 0, b"archive comment")).unwrap();
    assert_eq!(archive.len(), 0);
}

#[test]
fn truncated_trailer_comment_fails() {
    let mut bytes = trailer(0, 0, 0, 0, 0, b"archive comment");
    bytes.truncate(bytes.len() - 3);
    assert!(matches!(ZipArchive::new(bytes), Err(ZipError::InvalidArchive(_))));
}

#[test]
fn no_trailer_fails() {
    assert!(matches!(
        ZipArchive::new(vec![0u8; 128]),
        Err(ZipError::InvalidArchive(_))
    ));
    assert!(matches!(ZipArchive::new(Vec::new()), Err(ZipError::InvalidArchive(_))));
}

#[test]
fn by_index_out_of_bounds_is_not_found() {
    let archive = ZipArchive::new(trailer(0, 0, 0, 0, 0, b"")).unwrap();
    assert!(matches!(archive.by_index(0), Err(ZipError::FileNotFound)));
    let bytes = build_archive(&[Entry::stored(b"a.txt", b"alpha")]);
    let archive = ZipArchive::new(bytes).unwrap();
    assert_eq!(archive.len(), 1);
    assert!(matches!(archive.by_index(1), Err(ZipError::FileNotFound)));
    assert!(matches!(archive.by_index(usize::MAX), Err(ZipError::FileNotFound)));
    assert!(archive.by_index(0).is_ok());
}

#[test]
fn by_name_miss_and_hit() {
    let bytes = build_archive(&[
        Entry::stored(b"a.txt", b"alpha"),
        Entry::stored(b"b.txt", b"bravo"),
    ]);
    let archive = ZipArchive::new(bytes).unwrap();
    assert!(matches!(archive.by_name("missing"), Err(ZipError::FileNotFound)));
    let entry = archive.by_name("b.txt").unwrap();
    assert_eq!(entry.name(), "b.txt");
}

#[test]
fn duplicate_names_resolve_to_last() {
    let bytes = build_archive(&[
        Entry::stored(b"same.txt", b"first"),
        Entry::stored(b"same.txt", b"second"),
    ]);
    let archive = ZipArchive::new(bytes).unwrap();
    let mut entry = archive.by_name("same.txt").unwrap();
    let content = entry.read_to_end().unwrap();
    assert_eq!(content, b"second");
}

#[test]
fn stored_entry_reads_to_exhaustion() {
    let body = b"Hello, World! This is content held in a stored entry.";
    let bytes = build_archive(&[Entry::stored(b"hello.txt", body)]);
    let archive = ZipArchive::new(bytes).unwrap();
    let mut entry = archive.by_index(0).unwrap();
    assert_eq!(entry.name(), "hello.txt");
    assert_eq!(entry.size(), body.len() as u64);
    assert_eq!(entry.compressed_size(), body.len() as u64);
    assert!(matches!(entry.compression(), CompressionMethod::Stored));
    let content = entry.read_to_end().unwrap();
    assert_eq!(content.len() as u64, entry.size());
    assert_eq!(content, body);
    assert_eq!(crc32fast::hash(&content), crc32fast::hash(body));
}

#[test]
fn chunked_reads_yield_content() {
    let body = b"0123456789";
    let bytes = build_archive(&[Entry::stored(b"digits", body)]);
    let archive = ZipArchive::new(bytes).unwrap();
    let mut entry = archive.by_index(0).unwrap();
    assert_eq!(entry.read(0).unwrap(), b"");
    assert_eq!(entry.read(4).unwrap(), b"0123");
    assert_eq!(entry.read(4).unwrap(), b"4567");
    assert_eq!(entry.read(4).unwrap(), b"89");
    assert_eq!(entry.read(4).unwrap(), b"");
}

#[test]
fn corrupted_content_fails_checksum() {
    let body = b"payload that will be corrupted";
    let mut bytes = build_archive(&[Entry::stored(b"c.bin", body)]);
    // Flip one content byte; the content of the single entry starts right
    // after its 30-byte local header and 5-byte name.
    let content_start = 30 + 5;
    bytes[content_start + 3] ^= 0x40;
    let archive = ZipArchive::new(bytes).unwrap();
    let mut entry = archive.by_index(0).unwrap();
    assert!(matches!(entry.read_to_end(), Err(ZipError::Crc32Mismatch)));
}

#[test]
fn corruption_surfaces_on_final_read() {
    let body = b"0123456789";
    let mut bytes = build_archive(&[Entry::stored(b"d.bin", body)]);
    let content_start = 30 + 5;
    bytes[content_start] ^= 0x01;
    let archive = ZipArchive::new(bytes).unwrap();
    let mut entry = archive.by_index(0).unwrap();
    // All content bytes still hand out; the mismatch surfaces only at
    // exhaustion, in place of a clean end.
    let first = entry.read(10).unwrap();
    assert_eq!(first.len(), 10);
    assert!(matches!(entry.read(1), Err(ZipError::Crc32Mismatch)));
}

#[test]
fn encrypted_entry_rejected() {
    let body = b"secret";
    let mut stored = Entry::stored(b"e.txt", body);
    stored.flags = 1;
    let archive = ZipArchive::new(build_archive(&[stored])).unwrap();
    assert!(matches!(archive.by_index(0), Err(ZipError::UnsupportedArchive(_))));
    assert!(matches!(archive.by_name("e.txt"), Err(ZipError::UnsupportedArchive(_))));

    // The encrypted flag wins regardless of the compression method.
    let mut deflated = Entry::stored(b"f.txt", body);
    deflated.flags = 1;
    deflated.method = 8;
    let archive = ZipArchive::new(build_archive(&[deflated])).unwrap();
    assert!(matches!(archive.by_index(0), Err(ZipError::UnsupportedArchive(_))));
}

#[test]
fn non_stored_method_rejected() {
    let mut entry = Entry::stored(b"g.txt", b"body");
    entry.method = 8;
    let archive = ZipArchive::new(build_archive(&[entry])).unwrap();
    let err = archive.by_index(0);
    assert!(matches!(err, Err(ZipError::UnsupportedArchive(_))));
}

#[test]
fn ascii_names_decode_alike_under_both_flags() {
    let body = b"x";
    let plain = Entry::stored(b"ascii-name.txt", body);
    let mut utf8 = Entry::stored(b"ascii-name.txt", body);
    utf8.flags = 1 << 11;
    let a = ZipArchive::new(build_archive(&[plain])).unwrap();
    let b = ZipArchive::new(build_archive(&[utf8])).unwrap();
    let ea = a.by_index(0).unwrap();
    let eb = b.by_index(0).unwrap();
    assert_eq!(ea.name(), "ascii-name.txt");
    assert_eq!(eb.name(), "ascii-name.txt");
    assert_eq!(ea.name(), eb.name());
}

#[test]
fn ascii_decoding_agrees_directly() {
    let bytes: Vec<u8> = b"A plain ASCII name 0123!".to_vec();
    let with_flag = zip::encoding::decode_text(&bytes, true);
    let without_flag = zip::encoding::decode_text(&bytes, false);
    assert_eq!(with_flag, without_flag);
    assert_eq!(with_flag, "A plain ASCII name 0123!");
}

#[test]
fn non_ascii_bytes_may_decode_differently() {
    let bytes: Vec<u8> = vec![0x91];
    let with_flag = zip::encoding::decode_text(&bytes, true);
    let without_flag = zip::encoding::decode_text(&bytes, false);
    assert_eq!(with_flag, "\u{fffd}");
    assert_eq!(without_flag, "\u{00e6}");
}

#[test]
fn disk_mismatch_fails_before_directory() {
    // The directory offset points at garbage: open must fail on the disk
    // fields alone, with an unsupported-feature error rather than the
    // archive-structure error the garbage would give.
    let mut bytes = vec![0xaau8; 64];
    bytes.extend_from_slice(&trailer(0, 1, 3, 12, 0, b""));
    assert!(matches!(ZipArchive::new(bytes), Err(ZipError::UnsupportedArchive(_))));
}

#[test]
fn comment_decodes() {
    let mut entry = Entry::stored(b"h.txt", b"body");
    entry.comment = b"a fine comment";
    let archive = ZipArchive::new(build_archive(&[entry])).unwrap();
    let handle = archive.by_index(0).unwrap();
    assert_eq!(handle.comment(), "a fine comment");
}

#[test]
fn last_modified_decodes_packed_fields() {
    let archive = ZipArchive::new(build_archive(&[Entry::stored(b"t.txt", b"x")])).unwrap();
    let entry = archive.by_index(0).unwrap();
    let dt = entry.last_modified();
    // 0x4d71: year 2018, month 11, day 17; 0x6c75: 13:35:42.
    assert_eq!(dt.year, 2018);
    assert_eq!(dt.month, 11);
    assert_eq!(dt.day, 17);
    assert_eq!(dt.hour, 13);
    assert_eq!(dt.minute, 35);
    assert_eq!(dt.second, 42);
}

#[test]
fn valid_extra_field_accepted() {
    let mut entry = Entry::stored(b"i.txt", b"body");
    let mut extra = Vec::new();
    push_u16(&mut extra, 0x5455); // an arbitrary vendor tag
    push_u16(&mut extra, 4);
    extra.extend_from_slice(&[1, 2, 3, 4]);
    entry.extra = extra;
    let archive = ZipArchive::new(build_archive(&[entry])).unwrap();
    assert_eq!(archive.len(), 1);
}

#[test]
fn overlong_extra_sub_record_fails() {
    let mut entry = Entry::stored(b"j.txt", b"body");
    let mut extra = Vec::new();
    push_u16(&mut extra, 0x5455);
    push_u16(&mut extra, 9); // declares more payload than the field holds
    extra.extend_from_slice(&[1, 2, 3, 4]);
    entry.extra = extra;
    assert!(matches!(
        ZipArchive::new(build_archive(&[entry])),
        Err(ZipError::InvalidArchive(_))
    ));
}

#[test]
fn truncated_extra_tag_fails() {
    let mut entry = Entry::stored(b"k.txt", b"body");
    entry.extra = vec![0x55, 0x54, 0x04]; // tag cut short of its length field
    assert!(matches!(
        ZipArchive::new(build_archive(&[entry])),
        Err(ZipError::InvalidArchive(_))
    ));
}

#[test]
fn bad_central_signature_fails() {
    let mut bytes = build_archive(&[Entry::stored(b"l.txt", b"body")]);
    let dir_offset = 30 + 5 + 4; // local header + name + content
    bytes[dir_offset] ^= 0xff;
    assert!(matches!(ZipArchive::new(bytes), Err(ZipError::InvalidArchive(_))));
}

#[test]
fn bad_local_signature_fails() {
    let mut bytes = build_archive(&[Entry::stored(b"m.txt", b"body")]);
    bytes[0] ^= 0xff;
    assert!(matches!(ZipArchive::new(bytes), Err(ZipError::InvalidArchive(_))));
}

#[test]
fn entry_count_beyond_directory_fails() {
    let mut entry_bytes = build_archive(&[Entry::stored(b"n.txt", b"body")]);
    // Rewrite the trailer to declare two entries where one is present.
    let trailer_start = entry_bytes.len() - 22;
    let dir_offset = 30 + 5 + 4;
    let dir_size = trailer_start - dir_offset;
    entry_bytes.truncate(trailer_start);
    entry_bytes.extend_from_slice(&trailer(0, 0, 2, dir_size as u32, dir_offset as u32, b""));
    assert!(matches!(ZipArchive::new(entry_bytes), Err(ZipError::InvalidArchive(_))));
}

#[test]
fn reader_handles_exhaustion_state() {
    let body = b"body";
    let archive = ZipArchive::new(build_archive(&[Entry::stored(b"o.txt", body)])).unwrap();
    let mut entry = archive.by_index(0).unwrap();
    assert!(!entry.exhausted());
    let reader = entry.get_reader();
    assert_eq!(reader.read(3).unwrap(), b"bod");
    assert_eq!(reader.read(3).unwrap(), b"y");
    assert!(entry.exhausted());
    assert_eq!(entry.read_to_end().unwrap(), b"");
}

#[test]
fn into_inner_returns_source() {
    let bytes = trailer(0, 0, 0, 0, 0, b"take me back");
    let archive = ZipArchive::new(bytes.clone()).unwrap();
    assert_eq!(archive.into_inner(), bytes);
}
