//! The headers that identify the UEFI tables, and the specification revisions they name.

use vstd::prelude::*;
use crate::console::{decimal_digits, digit};
use crate::wide::{w, wide, has_no_nul, is_nul_terminated, lemma_wide_is_nul_terminated};

verus! {

/// A 64-bit signature that identifies the type of table that follows. Unique signatures
/// have been generated for the EFI System Table, the EFI Boot Services Table, and the EFI
/// Runtime Services Table.
#[derive(Clone, Copy, Debug, PartialEq, Eq, Structural, PartialOrd, Ord, Hash)]
pub struct Signature(pub u64);

/// The signature of the system table: "IBI SYST" read as a little-endian number.
pub const SYSTEM_TABLE: u64 = 0x5453595320494249;
/// The signature of the boot services table: "BOOTSERV" read as a little-endian number.
pub const BOOT_SERVICES: u64 = 0x56524553544f4f42;

/// A revision of the UEFI specification: the major number in the upper 16 bits, the
/// minor number in the lower 16 bits.
#[derive(Clone, Copy, Debug, PartialEq, Eq, Structural, PartialOrd, Ord, Hash)]
pub struct SpecificationRevision(pub u32);

/// Revision 2.10 (major 2, minor 100).
pub const EFI_2_100: u32 = 0x00020064;
/// Revision 2.9 (major 2, minor 90).
pub const EFI_2_90: u32 = 0x0002005a;
/// Revision 2.8 (major 2, minor 80).
pub const EFI_2_80: u32 = 0x00020050;
/// Revision 2.7 (major 2, minor 70).
pub const EFI_2_70: u32 = 0x00020046;
/// Revision 2.6 (major 2, minor 60).
pub const EFI_2_60: u32 = 0x0002003c;
/// Revision 2.5 (major 2, minor 50).
pub const EFI_2_50: u32 = 0x00020032;
/// Revision 2.4 (major 2, minor 40).
pub const EFI_2_40: u32 = 0x00020028;
/// Revision 2.3.1 (major 2, minor 31).
pub const EFI_2_31: u32 = 0x0002001f;
/// Revision 2.3 (major 2, minor 30).
pub const EFI_2_30: u32 = 0x0002001e;
/// Revision 2.2 (major 2, minor 20).
pub const EFI_2_20: u32 = 0x00020014;
/// Revision 2.1 (major 2, minor 10).
pub const EFI_2_10: u32 = 0x0002000a;
/// Revision 2.0 (major 2, minor 0).
pub const EFI_2_00: u32 = 0x00020000;
/// Revision 1.1 (major 1, minor 10).
pub const EFI_1_10: u32 = 0x0001000a;
/// Revision 1.0.2 (major 1, minor 2).
pub const EFI_1_02: u32 = 0x00010002;
/// The revision this library is written against.
pub const EFI: u32 = EFI_2_100;

/// Data structure that precedes all of the standard EFI table types.
#[derive(Clone, Copy, Debug, PartialEq, Eq)]
pub struct TableHeader {
    /// This signature that indentifies this table.
    pub signature: Signature,
    /// The revision of the EFI Specification to which this table conforms.
    pub revision: SpecificationRevision,
    /// The size, in bytes, of the entire table.
    pub size: u32,
    /// The 32-bit CRC for the entire table. This value is computed by setting this field
    /// to 0, and computing the 32-bit CRC for HeaderSize bytes.
    pub crc32: u32,
    /// Reserved field. Always set to 0.
    pub reserved: u32,
}

impl TableHeader {
    /// A header with the given fields; the reserved field is 0.
    pub fn new(signature: Signature, revision: SpecificationRevision, size: u32, crc32: u32) -> (r:
        TableHeader)
        ensures
            r.signature == signature,
            r.revision == revision,
            r.size == size,
            r.crc32 == crc32,
            r.reserved == 0,
    {
        TableHeader { signature, revision, size, crc32, reserved: 0 }
    }
}

/// The text that names a revision: its dotted number, or "unknown".
pub open spec fn revision_text(revision: u32) -> Seq<char> {
    if revision == EFI_2_100 {
        "2.10"@
    } else if revision == EFI_2_90 {
        "2.9"@
    } else if revision == EFI_2_80 {
        "2.8"@
    } else if revision == EFI_2_70 {
        "2.7"@
    } else if revision == EFI_2_60 {
        "2.6"@
    } else if revision == EFI_2_50 {
        "2.5"@
    } else if revision == EFI_2_40 {
        "2.4"@
    } else if revision == EFI_2_31 {
        "2.3.1"@
    } else if revision == EFI_2_30 {
        "2.3"@
    } else if revision == EFI_2_20 {
        "2.2"@
    } else if revision == EFI_2_10 {
        "2.1"@
    } else if revision == EFI_2_00 {
        "2.0"@
    } else if revision == EFI_1_10 {
        "1.1"@
    } else if revision == EFI_1_02 {
        "1.0.2"@
    } else {
        "unknown"@
    }
}

/// The name UEFI gives a minor revision number: its tens, then a dot and its units when
/// those are not zero (100 is "10", 80 is "8", 31 is "3.1", 2 is "0.2").
pub open spec fn minor_name(minor: nat) -> Seq<char> {
    decimal_digits(minor / 10) + (if minor % 10 == 0 {
        Seq::<char>::empty()
    } else {
        seq!['.', digit((minor % 10) as int)]
    })
}

/// The name of a revision: the major number, a dot, and the name of the minor number.
pub open spec fn revision_name(revision: u32) -> Seq<char> {
    decimal_digits((revision / 0x1_0000) as nat) + seq!['.'] + minor_name(
        (revision % 0x1_0000) as nat,
    )
}

/// The revisions this library names.
pub open spec fn is_named_revision(revision: u32) -> bool {
    ||| revision == EFI_2_100
    ||| revision == EFI_2_90
    ||| revision == EFI_2_80
    ||| revision == EFI_2_70
    ||| revision == EFI_2_60
    ||| revision == EFI_2_50
    ||| revision == EFI_2_40
    ||| revision == EFI_2_31
    ||| revision == EFI_2_30
    ||| revision == EFI_2_20
    ||| revision == EFI_2_10
    ||| revision == EFI_2_00
    ||| revision == EFI_1_10
    ||| revision == EFI_1_02
}

/// Each named revision is called by its major number, a dot and the name of its minor
/// number; every other revision is "unknown".
pub proof fn lemma_revision_names(revision: u32)
    ensures
        is_named_revision(revision) ==> revision_text(revision) == revision_name(revision),
        !is_named_revision(revision) ==> revision_text(revision) == "unknown"@,
        revision_text(EFI_2_100) == "2.10"@,
        revision_text(EFI_2_90) == "2.9"@,
        revision_text(EFI_2_80) == "2.8"@,
        revision_text(EFI_2_70) == "2.7"@,
        revision_text(EFI_2_60) == "2.6"@,
        revision_text(EFI_2_50) == "2.5"@,
        revision_text(EFI_2_40) == "2.4"@,
        revision_text(EFI_2_31) == "2.3.1"@,
        revision_text(EFI_2_30) == "2.3"@,
        revision_text(EFI_2_20) == "2.2"@,
        revision_text(EFI_2_10) == "2.1"@,
        revision_text(EFI_2_00) == "2.0"@,
        revision_text(EFI_1_10) == "1.1"@,
        revision_text(EFI_1_02) == "1.0.2"@,
{
    reveal_with_fuel(decimal_digits, 3);
    if revision == EFI_2_100 {
        reveal_strlit("2.10");
        assert(revision_name(revision) =~= "2.10"@);
    } else if revision == EFI_2_90 {
        reveal_strlit("2.9");
        assert(revision_name(revision) =~= "2.9"@);
    } else if revision == EFI_2_80 {
        reveal_strlit("2.8");
        assert(revision_name(revision) =~= "2.8"@);
    } else if revision == EFI_2_70 {
        reveal_strlit("2.7");
        assert(revision_name(revision) =~= "2.7"@);
    } else if revision == EFI_2_60 {
        reveal_strlit("2.6");
        assert(revision_name(revision) =~= "2.6"@);
    } else if revision == EFI_2_50 {
        reveal_strlit("2.5");
        assert(revision_name(revision) =~= "2.5"@);
    } else if revision == EFI_2_40 {
        reveal_strlit("2.4");
        assert(revision_name(revision) =~= "2.4"@);
    } else if revision == EFI_2_31 {
        reveal_strlit("2.3.1");
        assert(revision_name(revision) =~= "2.3.1"@);
    } else if revision == EFI_2_30 {
        reveal_strlit("2.3");
        assert(revision_name(revision) =~= "2.3"@);
    } else if revision == EFI_2_20 {
        reveal_strlit("2.2");
        assert(revision_name(revision) =~= "2.2"@);
    } else if revision == EFI_2_10 {
        reveal_strlit("2.1");
        assert(revision_name(revision) =~= "2.1"@);
    } else if revision == EFI_2_00 {
        reveal_strlit("2.0");
        assert(revision_name(revision) =~= "2.0"@);
    } else if revision == EFI_1_10 {
        reveal_strlit("1.1");
        assert(revision_name(revision) =~= "1.1"@);
    } else if revision == EFI_1_02 {
        reveal_strlit("1.0.2");
        assert(revision_name(revision) =~= "1.0.2"@);
    }
}

/// Lengths of the revision names, and the characters that tell apart names of equal length.
proof fn lemma_revision_text_shapes()
    ensures
        "2.10"@.len() == 4,
        "2.9"@.len() == 3,
        "2.8"@.len() == 3,
        "2.7"@.len() == 3,
        "2.6"@.len() == 3,
        "2.5"@.len() == 3,
        "2.4"@.len() == 3,
        "2.3.1"@.len() == 5,
        "2.3"@.len() == 3,
        "2.2"@.len() == 3,
        "2.1"@.len() == 3,
        "2.0"@.len() == 3,
        "1.1"@.len() == 3,
        "1.0.2"@.len() == 5,
        "2.9"@[2] == '9',
        "2.8"@[2] == '8',
        "2.7"@[2] == '7',
        "2.6"@[2] == '6',
        "2.5"@[2] == '5',
        "2.4"@[2] == '4',
        "2.3"@[2] == '3',
        "2.2"@[2] == '2',
        "2.1"@[2] == '1',
        "2.0"@[2] == '0',
        "2.9"@[0] == '2',
        "1.1"@[0] == '1',
        "2.8"@[0] == '2',
        "2.7"@[0] == '2',
        "2.6"@[0] == '2',
        "2.5"@[0] == '2',
        "2.4"@[0] == '2',
        "2.3.1"@[0] == '2',
        "1.0.2"@[0] == '1',
        "2.3"@[0] == '2',
        "2.2"@[0] == '2',
        "2.1"@[0] == '2',
        "2.0"@[0] == '2',
{
    assert("2.10"@.len() == 4) by {
        reveal_strlit("2.10");
    }
    assert("2.9"@.len() == 3) by {
        reveal_strlit("2.9");
    }
    assert("2.8"@.len() == 3) by {
        reveal_strlit("2.8");
    }
    assert("2.7"@.len() == 3) by {
        reveal_strlit("2.7");
    }
    assert("2.6"@.len() == 3) by {
        reveal_strlit("2.6");
    }
    assert("2.5"@.len() == 3) by {
        reveal_strlit("2.5");
    }
    assert("2.4"@.len() == 3) by {
        reveal_strlit("2.4");
    }
    assert("2.3.1"@.len() == 5) by {
        reveal_strlit("2.3.1");
    }
    assert("2.3"@.len() == 3) by {
        reveal_strlit("2.3");
    }
    assert("2.2"@.len() == 3) by {
        reveal_strlit("2.2");
    }
    assert("2.1"@.len() == 3) by {
        reveal_strlit("2.1");
    }
    assert("2.0"@.len() == 3) by {
        reveal_strlit("2.0");
    }
    assert("1.1"@.len() == 3) by {
        reveal_strlit("1.1");
    }
    assert("1.0.2"@.len() == 5) by {
        reveal_strlit("1.0.2");
    }
    assert("2.9"@[2] == '9') by {
        reveal_strlit("2.9");
    }
    assert("2.8"@[2] == '8') by {
        reveal_strlit("2.8");
    }
    assert("2.7"@[2] == '7') by {
        reveal_strlit("2.7");
    }
    assert("2.6"@[2] == '6') by {
        reveal_strlit("2.6");
    }
    assert("2.5"@[2] == '5') by {
        reveal_strlit("2.5");
    }
    assert("2.4"@[2] == '4') by {
        reveal_strlit("2.4");
    }
    assert("2.3"@[2] == '3') by {
        reveal_strlit("2.3");
    }
    assert("2.2"@[2] == '2') by {
        reveal_strlit("2.2");
    }
    assert("2.1"@[2] == '1') by {
        reveal_strlit("2.1");
    }
    assert("2.0"@[2] == '0') by {
        reveal_strlit("2.0");
    }
    assert("2.9"@[0] == '2') by {
        reveal_strlit("2.9");
    }
    assert("1.1"@[0] == '1') by {
        reveal_strlit("1.1");
    }
    assert("2.8"@[0] == '2') by {
        reveal_strlit("2.8");
    }
    assert("2.7"@[0] == '2') by {
        reveal_strlit("2.7");
    }
    assert("2.6"@[0] == '2') by {
        reveal_strlit("2.6");
    }
    assert("2.5"@[0] == '2') by {
        reveal_strlit("2.5");
    }
    assert("2.4"@[0] == '2') by {
        reveal_strlit("2.4");
    }
    assert("2.3.1"@[0] == '2') by {
        reveal_strlit("2.3.1");
    }
    assert("1.0.2"@[0] == '1') by {
        reveal_strlit("1.0.2");
    }
    assert("2.3"@[0] == '2') by {
        reveal_strlit("2.3");
    }
    assert("2.2"@[0] == '2') by {
        reveal_strlit("2.2");
    }
    assert("2.1"@[0] == '2') by {
        reveal_strlit("2.1");
    }
    assert("2.0"@[0] == '2') by {
        reveal_strlit("2.0");
    }
}

/// Distinct named revisions have distinct names.
pub proof fn lemma_revision_names_distinct(a: u32, b: u32)
    requires
        is_named_revision(a),
        is_named_revision(b),
        a != b,
    ensures
        revision_text(a) != revision_text(b),
{
    lemma_revision_names(a);
    lemma_revision_text_shapes();
    if a == EFI_2_100 {
        assert(revision_text(a) == "2.10"@);
    } else if a == EFI_2_90 {
        assert(revision_text(a) == "2.9"@);
    } else if a == EFI_2_80 {
        assert(revision_text(a) == "2.8"@);
    } else if a == EFI_2_70 {
        assert(revision_text(a) == "2.7"@);
    } else if a == EFI_2_60 {
        assert(revision_text(a) == "2.6"@);
    } else if a == EFI_2_50 {
        assert(revision_text(a) == "2.5"@);
    } else if a == EFI_2_40 {
        assert(revision_text(a) == "2.4"@);
    } else if a == EFI_2_31 {
        assert(revision_text(a) == "2.3.1"@);
    } else if a == EFI_2_30 {
        assert(revision_text(a) == "2.3"@);
    } else if a == EFI_2_20 {
        assert(revision_text(a) == "2.2"@);
    } else if a == EFI_2_10 {
        assert(revision_text(a) == "2.1"@);
    } else if a == EFI_2_00 {
        assert(revision_text(a) == "2.0"@);
    } else if a == EFI_1_10 {
        assert(revision_text(a) == "1.1"@);
    } else if a == EFI_1_02 {
        assert(revision_text(a) == "1.0.2"@);
    }
}

/// No revision text holds a NUL character.
pub proof fn lemma_revision_text_no_nul(revision: u32)
    ensures
        has_no_nul(revision_text(revision)),
{
    if revision == EFI_2_100 {
        reveal_strlit("2.10");
    } else if revision == EFI_2_90 {
        reveal_strlit("2.9");
    } else if revision == EFI_2_80 {
        reveal_strlit("2.8");
    } else if revision == EFI_2_70 {
        reveal_strlit("2.7");
    } else if revision == EFI_2_60 {
        reveal_strlit("2.6");
    } else if revision == EFI_2_50 {
        reveal_strlit("2.5");
    } else if revision == EFI_2_40 {
        reveal_strlit("2.4");
    } else if revision == EFI_2_31 {
        reveal_strlit("2.3.1");
    } else if revision == EFI_2_30 {
        reveal_strlit("2.3");
    } else if revision == EFI_2_20 {
        reveal_strlit("2.2");
    } else if revision == EFI_2_10 {
        reveal_strlit("2.1");
    } else if revision == EFI_2_00 {
        reveal_strlit("2.0");
    } else if revision == EFI_1_10 {
        reveal_strlit("1.1");
    } else if revision == EFI_1_02 {
        reveal_strlit("1.0.2");
    } else {
        reveal_strlit("unknown");
    }
}

impl SpecificationRevision {
    /// The revision's dotted number as a UEFI string, or "unknown" for a revision
    /// this library does not name.
    pub fn as_str(&self) -> (r: Vec<u16>)
        ensures
            r@ == wide(revision_text(self.0)),
            is_nul_terminated(r@),
    {
        proof {
            lemma_revision_text_no_nul(self.0);
            lemma_wide_is_nul_terminated(revision_text(self.0));
        }
        let revision = self.0;
        let text: &str = if revision == EFI_2_100 {
            "2.10"
        } else if revision == EFI_2_90 {
            "2.9"
        } else if revision == EFI_2_80 {
            "2.8"
        } else if revision == EFI_2_70 {
            "2.7"
        } else if revision == EFI_2_60 {
            "2.6"
        } else if revision == EFI_2_50 {
            "2.5"
        } else if revision == EFI_2_40 {
            "2.4"
        } else if revision == EFI_2_31 {
            "2.3.1"
        } else if revision == EFI_2_30 {
            "2.3"
        } else if revision == EFI_2_20 {
            "2.2"
        } else if revision == EFI_2_10 {
            "2.1"
        } else if revision == EFI_2_00 {
            "2.0"
        } else if revision == EFI_1_10 {
            "1.1"
        } else if revision == EFI_1_02 {
            "1.0.2"
        } else {
            "unknown"
        };
        w(text)
    }
}

/// The boot services table, as far as this library reads it: its header.
pub struct BootServices {
    pub hdr: TableHeader,
}

impl BootServices {
    /// The signature in the table's header.
    pub fn signature(&self) -> (r: Signature)
        ensures
            r == self.hdr.signature,
    {
        self.hdr.signature
    }
}

/// The runtime services table; this library reads nothing from it.
pub struct RuntimeServices {}

/// The system table, as far as this library reads it: its header and the firmware
/// vendor, a UEFI string.
pub struct SystemTable {
    pub hdr: TableHeader,
    pub firmware_vendor: Vec<u16>,
}

impl SystemTable {
    /// The signature in the table's header.
    pub fn signature(&self) -> (r: Signature)
        ensures
            r == self.hdr.signature,
    {
        self.hdr.signature
    }

    /// The specification revision the firmware conforms to.
    pub fn revision(&self) -> (r: SpecificationRevision)
        ensures
            r == self.hdr.revision,
    {
        self.hdr.revision
    }

    /// The UEFI string that names the vendor of the firmware.
    pub fn firmware_vendor(&self) -> (r: &[u16])
        ensures
            r@ == self.firmware_vendor@,
    {
        self.firmware_vendor.as_slice()
    }
}

} // verus!
