use effie::tables::{
    BootServices, SystemTable, Signature, SpecificationRevision, TableHeader, BOOT_SERVICES, EFI, EFI_1_02, EFI_2_00,
    EFI_2_100, EFI_2_31, EFI_2_90, SYSTEM_TABLE,
};

fn wide(s: &str) -> Vec<u16> {
    s.encode_utf16().chain(Some(0)).collect()
}

#[test]
fn signatures_spell_table_names() {
    assert_eq!(&SYSTEM_TABLE.to_le_bytes(), b"IBI SYST");
    assert_eq!(&BOOT_SERVICES.to_le_bytes(), b"BOOTSERV");
    assert_ne!(Signature(SYSTEM_TABLE), Signature(BOOT_SERVICES));
}

#[test]
fn revisions_pack_major_and_minor() {
    assert_eq!(EFI_2_100, (2 << 16) | 100);
    assert_eq!(EFI_2_31, (2 << 16) | 31);
    assert_eq!(EFI_1_02, (1 << 16) | 2);
    assert_eq!(EFI, EFI_2_100);
}

#[test]
fn revision_names() {
    assert_eq!(SpecificationRevision(EFI_2_100).as_str(), wide("2.10"));
    assert_eq!(SpecificationRevision(EFI_2_90).as_str(), wide("2.9"));
    assert_eq!(SpecificationRevision(EFI_2_31).as_str(), wide("2.3.1"));
    assert_eq!(SpecificationRevision(EFI_2_00).as_str(), wide("2.0"));
    assert_eq!(SpecificationRevision(EFI_1_02).as_str(), wide("1.0.2"));
}

#[test]
fn unknown_revision_name() {
    assert_eq!(SpecificationRevision((3 << 16) | 1).as_str(), wide("unknown"));
    assert_eq!(SpecificationRevision(0).as_str(), wide("unknown"));
}

#[test]
fn table_header_reserved_is_zero() {
    let h = TableHeader::new(Signature(SYSTEM_TABLE), SpecificationRevision(EFI_2_90), 120, 0xdead);
    assert_eq!(h.signature, Signature(SYSTEM_TABLE));
    assert_eq!(h.revision, SpecificationRevision(EFI_2_90));
    assert_eq!(h.size, 120);
    assert_eq!(h.crc32, 0xdead);
    assert_eq!(h.reserved, 0);
}

#[test]
fn system_table_getters() {
    let st = SystemTable {
        hdr: TableHeader::new(Signature(SYSTEM_TABLE), SpecificationRevision(EFI_2_90), 120, 7),
        firmware_vendor: wide("QEMU"),
    };
    assert_eq!(st.signature(), Signature(SYSTEM_TABLE));
    assert_eq!(st.revision(), SpecificationRevision(EFI_2_90));
    assert_eq!(st.firmware_vendor(), &wide("QEMU")[..]);
    let bs = BootServices {
        hdr: TableHeader::new(Signature(BOOT_SERVICES), SpecificationRevision(EFI_2_90), 376, 0),
    };
    assert_eq!(bs.signature(), Signature(BOOT_SERVICES));
}

#[test]
fn revision_names_are_uefi_strings() {
    for major in 0..4u32 {
        for minor in 0..120u32 {
            let s = SpecificationRevision((major << 16) | minor).as_str();
            assert_eq!(*s.last().unwrap(), 0);
            assert!(s[..s.len() - 1].iter().all(|u| *u != 0));
        }
    }
}
