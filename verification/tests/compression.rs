use zip::CompressionMethod;

#[test]
fn from_eq_to() {
    for v in 0..(u16::MAX as u32 + 1) {
        let from = CompressionMethod::from_u16(v as u16);
        let to = from.to_u16() as u32;
        assert_eq!(v, to);
    }
}

#[test]
fn to_eq_from() {
    let method = CompressionMethod::Stored;
    let to = method.to_u16();
    let from = CompressionMethod::from_u16(to);
    let back = from.to_u16();
    assert_eq!(to, back);
}

#[test]
fn code_zero_is_stored() {
    assert!(matches!(CompressionMethod::from_u16(0), CompressionMethod::Stored));
    assert!(matches!(CompressionMethod::from_u16(8), CompressionMethod::Unsupported(8)));
    assert_eq!(CompressionMethod::Stored.to_u16(), 0);
    assert_eq!(CompressionMethod::Unsupported(9).to_u16(), 9);
}
