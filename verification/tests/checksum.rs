use archive_pipeline::checksum::{
    append_footer, checksum_of, verify, verify_footer, SafeChecksum,
};

#[test]
fn crc32_of_check_string() {
    assert_eq!(checksum_of(b"123456789"), 0xCBF4_3926);
}

#[test]
fn crc32_of_nothing_is_zero() {
    assert_eq!(checksum_of(b""), 0);
}

#[test]
fn crc32_is_incremental() {
    let mut parts = SafeChecksum::new();
    parts.update(b"1234");
    parts.update(b"");
    parts.update(b"56789");
    assert_eq!(parts.finalize(), checksum_of(b"123456789"));
}

#[test]
fn footer_is_little_endian() {
    let mut data = b"123456789".to_vec();
    append_footer(&mut data);
    assert_eq!(&data[9..], &[0x26, 0x39, 0xF4, 0xCB]);
    assert!(verify_footer(&data));
    assert!(verify(b"123456789", &[0x26, 0x39, 0xF4, 0xCB]));
    assert!(!verify(b"123456789", &[0xCB, 0xF4, 0x39, 0x26]));
    assert!(!verify(b"123456780", &[0x26, 0x39, 0xF4, 0xCB]));
}

#[test]
fn footer_detects_every_single_byte_change() {
    let mut data = b"Hello, world!\n".to_vec();
    append_footer(&mut data);
    for at in 0..data.len() {
        let mut changed = data.clone();
        changed[at] ^= 0x01;
        assert!(!verify_footer(&changed));
        changed[at] = !data[at];
        assert!(!verify_footer(&changed));
    }
}

#[test]
fn short_input_has_no_footer() {
    assert!(!verify_footer(&[1, 2, 3]));
    assert!(verify_footer(&[0, 0, 0, 0]));
}
