use effie::protocols::{
    DevicePath, FileMode, Guid, InputKey, LoadedImage, Protocol, SimpleTextInput,
    SimpleTextOutput, CREATE, READ, WRITE,
};

#[test]
fn guid_bytes_follow_fields() {
    let g = Guid::new([1, 2, 3, 4], [5, 6], [7, 8], 9, 10, [11, 12, 13, 14, 15, 16]);
    assert_eq!(g.to_bytes(), [1, 2, 3, 4, 5, 6, 7, 8, 9, 10, 11, 12, 13, 14, 15, 16]);
}

#[test]
fn guid_matches_uguid_layout() {
    let ours = Guid::new([0xa1, 0x31, 0x1b, 0x5b], [0x62, 0x95], [0xd2, 0x11], 0x8e, 0x3f, [0, 0xa0, 0xc9, 0x69, 0x72, 0x3b]);
    let theirs = uguid::Guid::new([0xa1, 0x31, 0x1b, 0x5b], [0x62, 0x95], [0xd2, 0x11], 0x8e, 0x3f, [0, 0xa0, 0xc9, 0x69, 0x72, 0x3b]);
    assert_eq!(ours.to_bytes(), theirs.to_bytes());
}

#[test]
fn loaded_image_guid() {
    assert_eq!(LoadedImage::guid().to_bytes(), *r_efi::protocols::loaded_image::PROTOCOL_GUID.as_bytes());
    assert_eq!(
        LoadedImage::guid().to_bytes(),
        uguid::Guid::parse_or_panic("5b1b31a1-9562-11d2-8e3f-00a0c969723b").to_bytes()
    );
}

#[test]
fn device_path_guid() {
    assert_eq!(DevicePath::guid().to_bytes(), *r_efi::protocols::device_path::PROTOCOL_GUID.as_bytes());
}

#[test]
fn simple_text_input_guid() {
    assert_eq!(
        SimpleTextInput::guid().to_bytes(),
        *r_efi::protocols::simple_text_input::PROTOCOL_GUID.as_bytes()
    );
}

#[test]
fn simple_text_output_guid() {
    assert_eq!(
        SimpleTextOutput::guid().to_bytes(),
        *r_efi::protocols::simple_text_output::PROTOCOL_GUID.as_bytes()
    );
}

#[test]
fn file_modes_match_uefi() {
    assert_eq!(FileMode(READ).0, r_efi::protocols::file::MODE_READ);
    assert_eq!(FileMode(WRITE).0, r_efi::protocols::file::MODE_WRITE);
    assert_eq!(FileMode(CREATE).0, r_efi::protocols::file::MODE_CREATE);
}

#[test]
fn input_key_fields() {
    let k = InputKey { scan_code: 0x17, unicode_char: 0 };
    assert_eq!(k.scan_code, 0x17);
    assert_eq!(k, InputKey { scan_code: 0x17, unicode_char: 0 });
}
