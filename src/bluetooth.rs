//! Formatting of Bluetooth device addresses.
use vstd::prelude::*;
use vstd::string::StringSliceAdditionalSpecFns;
use vstd::utf8::{is_leading_byte_width_1, partial_valid_utf8, partial_valid_utf8_extend_ascii_block, valid_utf8};

verus! {

/// Length of a formatted address: six pairs of hex digits and five colons.
pub const ADDRESS_TEXT_LEN: usize = 17;

/// ASCII code of `:`, which separates the bytes of an address.
pub const COLON: u8 = 0x3A;

/// ASCII code of `0`.
pub const DIGIT_ZERO: u8 = 0x30;

/// ASCII code of `A`.
pub const LETTER_A: u8 = 0x41;

/// The ASCII code of the uppercase hexadecimal digit for `n`, which is below 16.
pub open spec fn hex_digit(n: u8) -> u8 {
    if n < 10 {
        (DIGIT_ZERO + n) as u8
    } else {
        (LETTER_A + (n - 10)) as u8
    }
}

/// The text of a device address, as ASCII bytes: the six bytes from the
/// last to the first (the order in which addresses are written), each as two
/// uppercase hexadecimal digits, separated by colons.
pub open spec fn address_text(addr: Seq<u8>) -> Seq<u8> {
    Seq::new(
        ADDRESS_TEXT_LEN as nat,
        |i: int|
            {
                let byte = addr[5 - i / 3];
                if i % 3 == 2 {
                    COLON
                } else if i % 3 == 0 {
                    hex_digit(byte / 16)
                } else {
                    hex_digit(byte % 16)
                }
            },
    )
}

/// Relies on `core::str::from_utf8`: a byte slice that is valid UTF-8 is
/// returned as a string slice over the same bytes.
#[verifier::external_body]
fn utf8_str<'a>(bytes: &'a [u8]) -> (r: &'a str)
    requires
        valid_utf8(bytes@),
    ensures
        r.spec_bytes() == bytes@,
{
    core::str::from_utf8(bytes).unwrap()
}

/// The uppercase hexadecimal digit for `n`, as an ASCII byte.
fn hex_digit_byte(n: u8) -> (r: u8)
    requires
        n < 16,
    ensures
        r == hex_digit(n),
{
    if n < 10 {
        DIGIT_ZERO + n
    } else {
        LETTER_A + (n - 10)
    }
}

/// Writes the text of the device address `addr` into `addr_str` (for example
/// `A4:C1:38:59:BE:24` for the bytes `24 BE 59 38 C1 A4`) and returns it as a
/// string slice.
pub fn fmt_addr<'buf>(addr: &[u8; 6], addr_str: &'buf mut [u8; 17]) -> (r: &'buf str)
    ensures
        final(addr_str)@ == address_text(addr@),
        r.spec_bytes() == address_text(addr@),
{
    *addr_str = [COLON; 17];
    let mut i: usize = 0;
    while i < 6
        invariant
            0 <= i <= 6,
            addr@.len() == 6,
            addr_str@.len() == ADDRESS_TEXT_LEN,
            forall|j: int|
                0 <= j < ADDRESS_TEXT_LEN && (j < 3 * i || j % 3 == 2) ==> #[trigger] addr_str@[j]
                    == address_text(addr@)[j],
        decreases 6 - i,
    {
        let byte = addr[5 - i];
        addr_str[3 * i] = hex_digit_byte(byte / 16);
        addr_str[3 * i + 1] = hex_digit_byte(byte % 16);
        i += 1;
    }
    assert(addr_str@ =~= address_text(addr@));
    let text: &'buf [u8; 17] = addr_str;
    let bytes: &'buf [u8] = text.as_slice();
    proof {
        assert forall|j: int| 0 <= j < bytes@.len() implies #[trigger] is_leading_byte_width_1(
            bytes@[j],
        ) by {}
        assert(bytes@.subrange(0, 0) =~= Seq::<u8>::empty());
        assert(partial_valid_utf8(bytes@, 0));
        partial_valid_utf8_extend_ascii_block(bytes@, 0, bytes@.len() as int);
        assert(bytes@.subrange(0, bytes@.len() as int) =~= bytes@);
    }
    utf8_str(bytes)
}

/// Whether a device address is registered or randomly generated.
#[derive(Debug, Clone, Copy, PartialEq, Eq, Structural)]
pub enum AddressKind {
    /// A publicly registered IEEE 802 MAC address.
    Public,
    /// A randomly generated address.
    Random,
}

/// A Bluetooth device address: its bytes as sent over the air, least
/// significant first, and its kind.
#[derive(Debug, Clone, Copy, PartialEq, Eq)]
pub struct DeviceAddress {
    pub bytes: [u8; 6],
    pub kind: AddressKind,
}

/// The indoor sensor, an H5075 (A4:C1:38:59:BE:24).
pub const INDOOR_SENSOR: [u8; 6] = [0x24, 0xBE, 0x59, 0x38, 0xC1, 0xA4];

/// The outdoor sensor, an H5074 (E3:37:3C:50:EC:4E).
pub const OUTDOOR_SENSOR: [u8; 6] = [0x4E, 0xEC, 0x50, 0x3C, 0x37, 0xE3];

/// Whether two addresses hold the same bytes.
fn same_bytes(a: &[u8; 6], b: &[u8; 6]) -> (r: bool)
    ensures
        r == (a@ == b@),
{
    let mut i: usize = 0;
    while i < 6
        invariant
            0 <= i <= 6,
            a@.len() == 6,
            b@.len() == 6,
            forall|j: int| 0 <= j < i ==> a@[j] == b@[j],
        decreases 6 - i,
    {
        if a[i] != b[i] {
            return false;
        }
        i += 1;
    }
    assert(a@ =~= b@);
    true
}

/// Lets through the advertisements of the sensors of this installation
/// alone: those sent from the public address of the indoor or the outdoor
/// sensor.
pub struct HomeDeviceFilter;

impl HomeDeviceFilter {
    /// Whether advertisements from `address` are let through.
    pub fn matches(&self, address: &DeviceAddress) -> (r: bool)
        ensures
            r == (address.kind == AddressKind::Public && (address.bytes@ == INDOOR_SENSOR@
                || address.bytes@ == OUTDOOR_SENSOR@)),
    {
        match address.kind {
            AddressKind::Public => same_bytes(&address.bytes, &INDOOR_SENSOR) || same_bytes(
                &address.bytes,
                &OUTDOOR_SENSOR,
            ),
            AddressKind::Random => false,
        }
    }
}

} // verus!
