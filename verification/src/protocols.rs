//! Protocol identities: GUIDs, and the protocols this library knows by GUID.

use vstd::prelude::*;

verus! {

/// A globally-unique identifier in the UEFI layout: the first three fields are stored
/// little-endian, the rest byte by byte.
#[derive(Clone, Copy, Debug, PartialEq, Eq, Hash, PartialOrd, Ord)]
pub struct Guid {
    time_low: [u8; 4],
    time_mid: [u8; 2],
    time_high_and_version: [u8; 2],
    clock_seq_high_and_reserved: u8,
    clock_seq_low: u8,
    node: [u8; 6],
}

impl View for Guid {
    type V = Seq<u8>;

    /// The sixteen bytes of the GUID, in memory order.
    closed spec fn view(&self) -> Seq<u8> {
        self.time_low@ + self.time_mid@ + self.time_high_and_version@ + seq![
            self.clock_seq_high_and_reserved,
            self.clock_seq_low,
        ] + self.node@
    }
}

impl Guid {
    /// A GUID from its fields, each already in memory byte order.
    pub fn new(
        time_low: [u8; 4],
        time_mid: [u8; 2],
        time_high_and_version: [u8; 2],
        clock_seq_high_and_reserved: u8,
        clock_seq_low: u8,
        node: [u8; 6],
    ) -> (r: Guid)
        ensures
            r@ == time_low@ + time_mid@ + time_high_and_version@ + seq![
                clock_seq_high_and_reserved,
                clock_seq_low,
            ] + node@,
    {
        Guid {
            time_low,
            time_mid,
            time_high_and_version,
            clock_seq_high_and_reserved,
            clock_seq_low,
            node,
        }
    }

    /// The sixteen bytes of the GUID, in memory order.
    pub fn to_bytes(&self) -> (r: [u8; 16])
        ensures
            r@ == self@,
    {
        let r = [
            self.time_low[0],
            self.time_low[1],
            self.time_low[2],
            self.time_low[3],
            self.time_mid[0],
            self.time_mid[1],
            self.time_high_and_version[0],
            self.time_high_and_version[1],
            self.clock_seq_high_and_reserved,
            self.clock_seq_low,
            self.node[0],
            self.node[1],
            self.node[2],
            self.node[3],
            self.node[4],
            self.node[5],
        ];
        assert(r@ =~= self@);
        r
    }
}

/// The little-endian bytes of a 32-bit number.
pub open spec fn le_u32(x: u32) -> Seq<u8> {
    seq![
        (x % 0x100) as u8,
        (x / 0x100 % 0x100) as u8,
        (x / 0x1_0000 % 0x100) as u8,
        (x / 0x100_0000) as u8,
    ]
}

/// The little-endian bytes of a 16-bit number.
pub open spec fn le_u16(x: u16) -> Seq<u8> {
    seq![(x % 0x100) as u8, (x / 0x100) as u8]
}

fn le_bytes_u32(x: u32) -> (r: [u8; 4])
    ensures
        r@ == le_u32(x),
{
    let r = [(x % 0x100) as u8, (x / 0x100 % 0x100) as u8, (x / 0x1_0000 % 0x100) as u8, (x / 0x100_0000) as u8];
    assert(r@ =~= le_u32(x));
    r
}

fn le_bytes_u16(x: u16) -> (r: [u8; 2])
    ensures
        r@ == le_u16(x),
{
    let r = [(x % 0x100) as u8, (x / 0x100) as u8];
    assert(r@ =~= le_u16(x));
    r
}

/// A GUID from the numbers in which UEFI writes it.
pub open spec fn guid_of(
    time_low: u32,
    time_mid: u16,
    time_high: u16,
    clock_seq_high: u8,
    clock_seq_low: u8,
    node: Seq<u8>,
) -> Seq<u8> {
    le_u32(time_low) + le_u16(time_mid) + le_u16(time_high) + seq![clock_seq_high, clock_seq_low]
        + node
}

fn guid_from(
    time_low: u32,
    time_mid: u16,
    time_high: u16,
    clock_seq_high: u8,
    clock_seq_low: u8,
    node: [u8; 6],
) -> (r: Guid)
    ensures
        r@ == guid_of(time_low, time_mid, time_high, clock_seq_high, clock_seq_low, node@),
{
    Guid::new(
        le_bytes_u32(time_low),
        le_bytes_u16(time_mid),
        le_bytes_u16(time_high),
        clock_seq_high,
        clock_seq_low,
        node,
    )
}

/// The little-endian bytes give the number back, least significant byte first.
pub proof fn lemma_le_bytes(x: u32, y: u16)
    ensures
        le_u32(x).len() == 4,
        le_u32(x)[0] + le_u32(x)[1] * 0x100 + le_u32(x)[2] * 0x1_0000 + le_u32(x)[3] * 0x100_0000
            == x,
        le_u16(y).len() == 2,
        le_u16(y)[0] + le_u16(y)[1] * 0x100 == y,
{
}

/// The bytes of the protocol GUIDs, in memory order.
pub proof fn lemma_protocol_guid_bytes()
    ensures
        guid_of(0x09576e91, 0x6d3f, 0x11d2, 0x8e, 0x39, seq![0x00, 0xa0, 0xc9, 0x69, 0x72, 0x3b])
            == seq![0x91u8, 0x6e, 0x57, 0x09, 0x3f, 0x6d, 0xd2, 0x11, 0x8e, 0x39, 0x00, 0xa0, 0xc9, 0x69, 0x72, 0x3b],
        guid_of(0x5B1B31A1, 0x9562, 0x11d2, 0x8E, 0x3F, seq![0x00, 0xA0, 0xC9, 0x69, 0x72, 0x3B])
            == seq![0xa1u8, 0x31, 0x1b, 0x5b, 0x62, 0x95, 0xd2, 0x11, 0x8e, 0x3f, 0x00, 0xa0, 0xc9, 0x69, 0x72, 0x3b],
        guid_of(0x387477c1, 0x69c7, 0x11d2, 0x8e, 0x39, seq![0x00, 0xa0, 0xc9, 0x69, 0x72, 0x3b])
            == seq![0xc1u8, 0x77, 0x74, 0x38, 0xc7, 0x69, 0xd2, 0x11, 0x8e, 0x39, 0x00, 0xa0, 0xc9, 0x69, 0x72, 0x3b],
        guid_of(0x387477c2, 0x69c7, 0x11d2, 0x8e, 0x39, seq![0x00, 0xa0, 0xc9, 0x69, 0x72, 0x3b])
            == seq![0xc2u8, 0x77, 0x74, 0x38, 0xc7, 0x69, 0xd2, 0x11, 0x8e, 0x39, 0x00, 0xa0, 0xc9, 0x69, 0x72, 0x3b],
{
    assert(guid_of(0x09576e91, 0x6d3f, 0x11d2, 0x8e, 0x39, seq![0x00, 0xa0, 0xc9, 0x69, 0x72, 0x3b])
        =~= seq![0x91u8, 0x6e, 0x57, 0x09, 0x3f, 0x6d, 0xd2, 0x11, 0x8e, 0x39, 0x00, 0xa0, 0xc9, 0x69, 0x72, 0x3b]);
    assert(guid_of(0x5B1B31A1, 0x9562, 0x11d2, 0x8E, 0x3F, seq![0x00, 0xA0, 0xC9, 0x69, 0x72, 0x3B])
        =~= seq![0xa1u8, 0x31, 0x1b, 0x5b, 0x62, 0x95, 0xd2, 0x11, 0x8e, 0x3f, 0x00, 0xa0, 0xc9, 0x69, 0x72, 0x3b]);
    assert(guid_of(0x387477c1, 0x69c7, 0x11d2, 0x8e, 0x39, seq![0x00, 0xa0, 0xc9, 0x69, 0x72, 0x3b])
        =~= seq![0xc1u8, 0x77, 0x74, 0x38, 0xc7, 0x69, 0xd2, 0x11, 0x8e, 0x39, 0x00, 0xa0, 0xc9, 0x69, 0x72, 0x3b]);
    assert(guid_of(0x387477c2, 0x69c7, 0x11d2, 0x8e, 0x39, seq![0x00, 0xa0, 0xc9, 0x69, 0x72, 0x3b])
        =~= seq![0xc2u8, 0x77, 0x74, 0x38, 0xc7, 0x69, 0xd2, 0x11, 0x8e, 0x39, 0x00, 0xa0, 0xc9, 0x69, 0x72, 0x3b]);
}

/// A protocol that the firmware installs on handles, known by its GUID.
pub trait Protocol {
    fn guid() -> Guid;
}

/// The device path protocol (EFI_DEVICE_PATH_PROTOCOL).
pub struct DevicePath {}

impl Protocol for DevicePath {
    fn guid() -> (g: Guid)
        ensures
            g@ == guid_of(0x09576e91, 0x6d3f, 0x11d2, 0x8e, 0x39, seq![0x00, 0xa0, 0xc9, 0x69, 0x72, 0x3b]),
    {
        guid_from(0x09576e91, 0x6d3f, 0x11d2, 0x8e, 0x39, [0x00, 0xa0, 0xc9, 0x69, 0x72, 0x3b])
    }
}

/// The loaded image protocol (EFI_LOADED_IMAGE_PROTOCOL).
pub struct LoadedImage {}

impl Protocol for LoadedImage {
    fn guid() -> (g: Guid)
        ensures
            g@ == guid_of(0x5B1B31A1, 0x9562, 0x11d2, 0x8E, 0x3F, seq![0x00, 0xA0, 0xC9, 0x69, 0x72, 0x3B]),
    {
        guid_from(0x5B1B31A1, 0x9562, 0x11d2, 0x8E, 0x3F, [0x00, 0xA0, 0xC9, 0x69, 0x72, 0x3B])
    }
}

/// The simple text input protocol (EFI_SIMPLE_TEXT_INPUT_PROTOCOL).
pub struct SimpleTextInput {}

impl Protocol for SimpleTextInput {
    fn guid() -> (g: Guid)
        ensures
            g@ == guid_of(0x387477c1, 0x69c7, 0x11d2, 0x8e, 0x39, seq![0x00, 0xa0, 0xc9, 0x69, 0x72, 0x3b]),
    {
        guid_from(0x387477c1, 0x69c7, 0x11d2, 0x8e, 0x39, [0x00, 0xa0, 0xc9, 0x69, 0x72, 0x3b])
    }
}

/// The simple text output protocol (EFI_SIMPLE_TEXT_OUTPUT_PROTOCOL).
pub struct SimpleTextOutput {}

impl Protocol for SimpleTextOutput {
    fn guid() -> (g: Guid)
        ensures
            g@ == guid_of(0x387477c2, 0x69c7, 0x11d2, 0x8e, 0x39, seq![0x00, 0xa0, 0xc9, 0x69, 0x72, 0x3b]),
    {
        guid_from(0x387477c2, 0x69c7, 0x11d2, 0x8e, 0x39, [0x00, 0xa0, 0xc9, 0x69, 0x72, 0x3b])
    }
}

/// A keystroke as the simple text input protocol reports it.
#[derive(Clone, Copy, Debug, PartialEq, Eq, Structural)]
pub struct InputKey {
    pub scan_code: u16,
    pub unicode_char: u16,
}

/// The mode in which a file is opened.
#[derive(Clone, Copy, Debug, PartialEq, Eq, Structural)]
pub struct FileMode(pub u64);

/// Open for reading.
pub const READ: u64 = 1;
/// Open for writing.
pub const WRITE: u64 = 2;
/// Create the file if it does not exist.
pub const CREATE: u64 = 0x8000000000000000;

} // verus!
