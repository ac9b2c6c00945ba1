//! The parts of a Linux kernel image that the loader reads.

use vstd::prelude::*;
use crate::wide::{w, wide};

verus! {

/// Where the setup header of the Linux boot protocol starts in a kernel image.
pub const SETUP_HEADER_OFFSET: usize = 0x1f1;

/// The length in bytes of the setup header (the packed `setup_header` of the Linux boot
/// protocol, from `setup_sects` through `kernel_info_offset`).
pub const SETUP_HEADER_LEN: usize = 123;

/// Where the `header` field lies within the setup header (0x202 in the image).
pub const HEADER_FIELD_OFFSET: usize = 0x11;

/// The value of the `header` field in a kernel that speaks the boot protocol: "HdrS".
pub const HDRS_MAGIC: u32 = 0x53726448;

/// The byte at `i`, or 0 past the end: the loader reads into a zero-filled buffer.
pub open spec fn byte_or_zero(bytes: Seq<u8>, i: int) -> u8 {
    if 0 <= i < bytes.len() {
        bytes[i]
    } else {
        0
    }
}

/// The `header` field of a setup header held in `bytes`: a little-endian 32-bit number.
pub open spec fn header_field(bytes: Seq<u8>) -> u32 {
    let at = HEADER_FIELD_OFFSET as int;
    (byte_or_zero(bytes, at) + byte_or_zero(bytes, at + 1) * 0x100 + byte_or_zero(bytes, at + 2)
        * 0x1_0000 + byte_or_zero(bytes, at + 3) * 0x100_0000) as u32
}

fn byte_at(bytes: &[u8], i: usize) -> (r: u8)
    ensures
        r == byte_or_zero(bytes@, i as int),
{
    if i < bytes.len() {
        bytes[i]
    } else {
        0
    }
}

/// Reads the `header` field from the bytes of a setup header; bytes past the end of
/// `bytes` count as zero.
pub fn setup_header_magic(bytes: &[u8]) -> (r: u32)
    ensures
        r == header_field(bytes@),
        bytes@.len() >= 0x15 ==> r as int == bytes@[0x11] + bytes@[0x12] * 0x100 + bytes@[0x13]
            * 0x1_0000 + bytes@[0x14] * 0x100_0000,
{
    proof {
        lemma_header_field_le(bytes@);
    }
    let b0 = byte_at(bytes, HEADER_FIELD_OFFSET) as u32;
    let b1 = byte_at(bytes, HEADER_FIELD_OFFSET + 1) as u32;
    let b2 = byte_at(bytes, HEADER_FIELD_OFFSET + 2) as u32;
    let b3 = byte_at(bytes, HEADER_FIELD_OFFSET + 3) as u32;
    b0 + b1 * 0x100 + b2 * 0x1_0000 + b3 * 0x100_0000
}

/// The `header` field is the little-endian 32-bit number in bytes 0x11 to 0x14 of the
/// setup header (0x202 to 0x205 of the image); no other byte affects it.
pub proof fn lemma_header_field_le(bytes: Seq<u8>)
    ensures
        bytes.len() >= 0x15 ==> header_field(bytes) as int == bytes[0x11] + bytes[0x12] * 0x100
            + bytes[0x13] * 0x1_0000 + bytes[0x14] * 0x100_0000,
        forall|other: Seq<u8>|
            other.len() >= 0x15 && bytes.len() >= 0x15 && #[trigger] other.subrange(0x11, 0x15)
                == bytes.subrange(0x11, 0x15) ==> header_field(other) == header_field(bytes),
{
    assert forall|other: Seq<u8>|
        other.len() >= 0x15 && bytes.len() >= 0x15 && #[trigger] other.subrange(0x11, 0x15)
            == bytes.subrange(0x11, 0x15) implies header_field(other) == header_field(bytes) by {
        assert(other[0x11] == other.subrange(0x11, 0x15)[0]);
        assert(other[0x12] == other.subrange(0x11, 0x15)[1]);
        assert(other[0x13] == other.subrange(0x11, 0x15)[2]);
        assert(other[0x14] == other.subrange(0x11, 0x15)[3]);
        assert(bytes[0x11] == bytes.subrange(0x11, 0x15)[0]);
        assert(bytes[0x12] == bytes.subrange(0x11, 0x15)[1]);
        assert(bytes[0x13] == bytes.subrange(0x11, 0x15)[2]);
        assert(bytes[0x14] == bytes.subrange(0x11, 0x15)[3]);
    }
}

/// The path of the kernel image on the boot volume.
pub open spec fn kernel_path_text() -> Seq<char> {
    "\\efi\\boot\\vmlinuz"@
}

/// The path of the kernel image on the boot volume, as a UEFI string.
pub fn kernel_path() -> (r: Vec<u16>)
    ensures
        r@ == wide(kernel_path_text()),
{
    w("\\efi\\boot\\vmlinuz")
}

} // verus!
