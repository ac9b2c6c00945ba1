use effie::kernel::{
    kernel_path, setup_header_magic, HDRS_MAGIC, HEADER_FIELD_OFFSET, SETUP_HEADER_LEN,
    SETUP_HEADER_OFFSET,
};

#[test]
fn setup_header_length_matches_linux() {
    assert_eq!(SETUP_HEADER_LEN, core::mem::size_of::<linux_raw_sys::bootparam::setup_header>());
}

#[test]
fn header_field_lies_at_0x202() {
    assert_eq!(SETUP_HEADER_OFFSET + HEADER_FIELD_OFFSET, 0x202);
}

#[test]
fn magic_spells_hdrs() {
    assert_eq!(&HDRS_MAGIC.to_le_bytes(), b"HdrS");
}

#[test]
fn reads_header_field_little_endian() {
    let mut buf = [0u8; SETUP_HEADER_LEN];
    buf[0x11..0x15].copy_from_slice(b"HdrS");
    assert_eq!(setup_header_magic(&buf), HDRS_MAGIC);
    buf[0x11] = 0x01;
    buf[0x12] = 0x02;
    buf[0x13] = 0x03;
    buf[0x14] = 0x04;
    assert_eq!(setup_header_magic(&buf), 0x04030201);
}

#[test]
fn short_buffer_reads_as_zero() {
    assert_eq!(setup_header_magic(&[]), 0);
    let mut buf = [0u8; 0x13];
    buf[0x11] = 0xff;
    buf[0x12] = 0x01;
    assert_eq!(setup_header_magic(&buf), 0x01ff);
}

#[test]
fn kernel_path_is_wide() {
    let expected: Vec<u16> = "\\efi\\boot\\vmlinuz".encode_utf16().chain(Some(0)).collect();
    assert_eq!(kernel_path(), expected);
}
