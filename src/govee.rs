//! Decoder for the manufacturer-specific data that Govee H5072, H5074 and
//! H5075 sensors put in their advertisements.
use vstd::prelude::*;

verus! {

/// A decoded reading, held as integers so that decoding involves no rounding.
#[derive(Debug, Clone, Copy, PartialEq, Eq, Structural)]
pub struct ClimateReadings {
    /// Temperature in hundredths of a degree Celsius.
    pub temperature: i32,
    /// Relative humidity in tenths of a percent.
    pub humidity: u32,
    /// Battery level in percent, as the sensor sent it (not clamped).
    pub battery: u8,
}

/// Why a payload produced no reading.
#[derive(Debug, Clone, Copy, PartialEq, Eq, Structural)]
pub enum Error {
    /// A frame of the right vendor and length whose bytes could not be read.
    /// The two frame layouts read only fields that fit their length, so the
    /// decoder never returns it.
    ParseError,
    /// Not a frame that this decoder understands: another vendor, or a
    /// payload length that matches neither layout.
    Irrelevant,
}

/// The Bluetooth company identifier under which the sensors send their data.
pub const SENSOR_COMPANY_ID: u16 = 0xEC88;

/// Length of a frame in the packed layout of the H5072 and H5075.
pub const PACKED_FRAME_LEN: usize = 6;

/// Length of a frame in the split layout of the H5074.
pub const SPLIT_FRAME_LEN: usize = 7;

/// Bit 23 of the packed value: set when the temperature is below zero.
pub const PACKED_SIGN_BIT: u32 = 0x80_0000;

/// The 24-bit value of a packed frame: bytes 1 to 3, most significant first.
/// Its upper decimal digits carry the temperature's magnitude and its last
/// three the humidity in tenths of a percent; bit 23 is the temperature's sign.
pub open spec fn packed_value(p: Seq<u8>) -> int {
    p[1] * 0x1_0000 + p[2] * 0x100 + p[3]
}

/// Temperature in hundredths of a degree carried by a packed value: the
/// magnitude divided by 100, rounded toward zero, then given its sign.
pub open spec fn packed_temperature(v: int) -> int {
    if v < PACKED_SIGN_BIT {
        v / 100
    } else {
        -((v - PACKED_SIGN_BIT) / 100)
    }
}

/// The reading that a packed frame (H5072, H5075) carries.
pub open spec fn packed_reading(p: Seq<u8>) -> ClimateReadings {
    ClimateReadings {
        temperature: packed_temperature(packed_value(p)) as i32,
        humidity: (packed_value(p) % 1000) as u32,
        battery: p[4],
    }
}

/// A signed 16-bit integer read from two bytes, least significant first.
pub open spec fn le_i16(lo: u8, hi: u8) -> int {
    let u = lo + hi * 0x100;
    if u < 0x8000 {
        u
    } else {
        u - 0x1_0000
    }
}

/// An unsigned 16-bit integer read from two bytes, least significant first.
pub open spec fn le_u16(lo: u8, hi: u8) -> int {
    lo + hi * 0x100
}

/// The reading that a split frame (H5074) carries. The humidity arrives in
/// hundredths of a percent and is kept in tenths, rounded down.
pub open spec fn split_reading(p: Seq<u8>) -> ClimateReadings {
    ClimateReadings {
        temperature: le_i16(p[1], p[2]) as i32,
        humidity: (le_u16(p[3], p[4]) / 10) as u32,
        battery: p[5],
    }
}

/// What decoding a payload sent under `company_id` gives.
pub open spec fn decoded(company_id: u16, p: Seq<u8>) -> Result<ClimateReadings, Error> {
    if company_id != SENSOR_COMPANY_ID {
        Err(Error::Irrelevant)
    } else if p.len() == PACKED_FRAME_LEN {
        Ok(packed_reading(p))
    } else if p.len() == SPLIT_FRAME_LEN {
        Ok(split_reading(p))
    } else {
        Err(Error::Irrelevant)
    }
}

/// Decodes the manufacturer-specific data of an advertisement, given the
/// company identifier that came with it.
///
/// Data of another company, and payloads whose length matches neither frame
/// layout, give `Error::Irrelevant`.
pub fn parse_payload(company_id: u16, payload: &[u8]) -> (r: Result<ClimateReadings, Error>)
    ensures
        r == decoded(company_id, payload@),
{
    if company_id != SENSOR_COMPANY_ID {
        return Err(Error::Irrelevant);
    }
    if payload.len() == PACKED_FRAME_LEN {
        Ok(parse_packed(payload))
    } else if payload.len() == SPLIT_FRAME_LEN {
        Ok(parse_split(payload))
    } else {
        Err(Error::Irrelevant)
    }
}

/// Decodes a packed frame. Byte 0 is skipped; bytes 1 to 4 form a big-endian
/// word whose low byte is the battery level and whose upper 24 bits are the
/// packed value.
fn parse_packed(payload: &[u8]) -> (r: ClimateReadings)
    requires
        payload@.len() == PACKED_FRAME_LEN,
    ensures
        r == packed_reading(payload@),
{
    let b1 = payload[1];
    let b2 = payload[2];
    let b3 = payload[3];
    let b4 = payload[4];
    let word: u32 = (b1 as u32) << 24 | (b2 as u32) << 16 | (b3 as u32) << 8 | b4 as u32;
    let battery = (word & 0xFF) as u8;
    let value: u32 = (word & 0xFFFF_FF00) >> 8;
    assert(battery == b4 && value == b1 * 0x1_0000 + b2 * 0x100 + b3) by (bit_vector)
        requires
            word == (b1 as u32) << 24 | (b2 as u32) << 16 | (b3 as u32) << 8 | b4 as u32,
            battery == (word & 0xFF) as u8,
            value == (word & 0xFFFF_FF00) >> 8,
    ;
    let temperature: i32 = if value & PACKED_SIGN_BIT == 0 {
        assert(value & 0x80_0000 == 0 <==> value < 0x80_0000) by (bit_vector)
            requires value < 0x100_0000,
        ;
        (value / 100) as i32
    } else {
        let magnitude = value ^ PACKED_SIGN_BIT;
        assert(value & 0x80_0000 != 0 ==> value ^ 0x80_0000 == value - 0x80_0000) by (bit_vector)
            requires value < 0x100_0000,
        ;
        -((magnitude / 100) as i32)
    };
    ClimateReadings { temperature, humidity: value % 1000, battery }
}

/// Decodes a split frame. Byte 0 is skipped; then come the temperature as a
/// little-endian `i16`, the humidity in hundredths as a little-endian `u16`,
/// and the battery level.
fn parse_split(payload: &[u8]) -> (r: ClimateReadings)
    requires
        payload@.len() == SPLIT_FRAME_LEN,
    ensures
        r == split_reading(payload@),
{
    let raw_temperature: u16 = payload[1] as u16 + payload[2] as u16 * 0x100;
    let temperature: i32 = if raw_temperature < 0x8000 {
        raw_temperature as i32
    } else {
        raw_temperature as i32 - 0x1_0000
    };
    let raw_humidity: u16 = payload[3] as u16 + payload[4] as u16 * 0x100;
    let humidity: u16 = raw_humidity / 10;
    ClimateReadings { temperature, humidity: humidity as u32, battery: payload[5] }
}

/// Data sent under any company identifier but the sensors' own is irrelevant,
/// whatever the payload holds.
pub proof fn lemma_foreign_company_irrelevant(company_id: u16, payload: Seq<u8>)
    requires
        company_id != SENSOR_COMPANY_ID,
    ensures
        decoded(company_id, payload) == Err::<ClimateReadings, Error>(Error::Irrelevant),
{
}

/// Under the sensors' company identifier, a payload whose length matches
/// neither frame layout is irrelevant.
pub proof fn lemma_unknown_length_irrelevant(payload: Seq<u8>)
    requires
        payload.len() != PACKED_FRAME_LEN,
        payload.len() != SPLIT_FRAME_LEN,
    ensures
        decoded(SENSOR_COMPANY_ID, payload) == Err::<ClimateReadings, Error>(Error::Irrelevant),
{
}

/// Decoding depends on the company identifier and the payload alone: two
/// decodings of equal payloads give equal results.
pub proof fn lemma_decoding_repeatable(company_id: u16, first: Seq<u8>, second: Seq<u8>)
    requires
        first == second,
    ensures
        decoded(company_id, first) == decoded(company_id, second),
{
}

/// Every frame of either layout from the sensors' company decodes, and its
/// battery level is the frame's battery byte as sent: a level above 100 is
/// neither clamped nor refused.
pub proof fn lemma_battery_verbatim(payload: Seq<u8>)
    requires
        payload.len() == PACKED_FRAME_LEN || payload.len() == SPLIT_FRAME_LEN,
    ensures
        decoded(SENSOR_COMPANY_ID, payload) is Ok,
        decoded(SENSOR_COMPANY_ID, payload)->Ok_0.battery == if payload.len() == PACKED_FRAME_LEN {
            payload[4]
        } else {
            payload[5]
        },
{
}

impl ClimateReadings {
    /// Battery level in percent.
    pub fn battery(&self) -> (r: u8)
        ensures
            r == self.battery,
    {
        self.battery
    }
}

} // verus!
