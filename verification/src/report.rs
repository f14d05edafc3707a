//! Binary report codec.
//!
//! Decodes the fixed 64-byte input report the hardware streams into a
//! structured touch/button report, and builds the two outgoing feature
//! commands (watchdog disable, haptic pulse).  All fields sit at fixed
//! little-endian offsets.

use vstd::prelude::*;

verus! {

/// Exact size of one raw input report.
pub const REPORT_LEN: usize = 64;

/// One decoded input report: both touch surfaces plus the dedicated
/// side button.
#[derive(Clone, Copy, Debug, PartialEq, Eq, Structural)]
pub struct SteamDeckDeviceReport {
    pub l_pad_x: i16,
    pub l_pad_y: i16,
    pub l_pad_force: u16,
    pub r_pad_x: i16,
    pub r_pad_y: i16,
    pub r_pad_force: u16,
    pub l4: bool,
}

/// Decoding can only fail one way: the buffer is not exactly 64 bytes.
#[derive(Clone, Copy, Debug, PartialEq, Eq, Structural)]
pub enum DecodeError {
    MalformedReport,
}

/// The little-endian 16-bit value stored at byte offset `i`.
pub open spec fn le16_at(s: Seq<u8>, i: int) -> u16
    recommends
        0 <= i,
        i + 2 <= s.len(),
{
    (s[i] + 256 * s[i + 1]) as u16
}

/// The little-endian 32-bit value stored at byte offset `i`.
pub open spec fn le32_at(s: Seq<u8>, i: int) -> u32
    recommends
        0 <= i,
        i + 4 <= s.len(),
{
    (s[i] + 0x100 * s[i + 1] + 0x10000 * s[i + 2] + 0x1000000 * s[i + 3]) as u32
}

/// What a well-sized raw buffer decodes to: signed pad coordinates at
/// 16..24, forces at 56..60, and the side button as bit 0x200 of the
/// button mask at 12..16.
pub open spec fn spec_decode(s: Seq<u8>) -> SteamDeckDeviceReport
    recommends
        s.len() == REPORT_LEN,
{
    SteamDeckDeviceReport {
        l_pad_x: le16_at(s, 16) as i16,
        l_pad_y: le16_at(s, 18) as i16,
        l_pad_force: le16_at(s, 56),
        r_pad_x: le16_at(s, 20) as i16,
        r_pad_y: le16_at(s, 22) as i16,
        r_pad_force: le16_at(s, 58),
        l4: (le32_at(s, 12) & 0x200) != 0,
    }
}

fn read_le_u16(raw: &[u8], i: usize) -> (v: u16)
    requires
        i + 2 <= raw@.len(),
    ensures
        v == le16_at(raw@, i as int),
{
    raw[i] as u16 + (raw[i + 1] as u16) * 256
}

fn read_le_i16(raw: &[u8], i: usize) -> (v: i16)
    requires
        i + 2 <= raw@.len(),
    ensures
        v == le16_at(raw@, i as int) as i16,
{
    read_le_u16(raw, i) as i16
}

fn read_le_u32(raw: &[u8], i: usize) -> (v: u32)
    requires
        i + 4 <= raw@.len(),
    ensures
        v == le32_at(raw@, i as int),
{
    raw[i] as u32 + (raw[i + 1] as u32) * 0x100 + (raw[i + 2] as u32) * 0x10000 + (raw[i + 3]
        as u32) * 0x1000000
}

/// Decode one raw input report.  Succeeds exactly when the buffer holds
/// 64 bytes; anything else is a malformed report the caller discards.
pub fn decode_report(raw: &[u8]) -> (r: Result<SteamDeckDeviceReport, DecodeError>)
    ensures
        raw@.len() == REPORT_LEN ==> r == Ok::<SteamDeckDeviceReport, DecodeError>(
            spec_decode(raw@),
        ),
        raw@.len() != REPORT_LEN ==> r == Err::<SteamDeckDeviceReport, DecodeError>(
            DecodeError::MalformedReport,
        ),
{
    if raw.len() != REPORT_LEN {
        return Err(DecodeError::MalformedReport);
    }
    let mask = read_le_u32(raw, 12);
    Ok(
        SteamDeckDeviceReport {
            l_pad_x: read_le_i16(raw, 16),
            l_pad_y: read_le_i16(raw, 18),
            l_pad_force: read_le_u16(raw, 56),
            r_pad_x: read_le_i16(raw, 20),
            r_pad_y: read_le_i16(raw, 22),
            r_pad_force: read_le_u16(raw, 58),
            l4: (mask & 0x200) != 0,
        },
    )
}

/// Bytes of the "disable watchdog" feature command.
pub open spec fn watchdog_disable_bytes() -> Seq<u8> {
    seq![0x87u8, 0x03u8, 71u8, 0x00u8, 0x00u8]
}

/// Build the feature command that disables the hardware watchdog, so a
/// later suspend of the companion process does not make the device fall
/// back to its default report mode.
pub fn encode_watchdog_disable() -> (buf: Vec<u8>)
    ensures
        buf@ == watchdog_disable_bytes(),
{
    let mut buf: Vec<u8> = Vec::new();
    buf.push(0x87);
    buf.push(0x03);
    buf.push(71);
    buf.push(0x00);
    buf.push(0x00);
    proof {
        assert(buf@ =~= watchdog_disable_bytes());
    }
    buf
}

/// Bytes of the haptic-pulse feature command for a pad selector
/// (0 = right, 1 = left, 2 = both).
pub open spec fn haptic_pulse_bytes(pad: u8) -> Seq<u8> {
    seq![
        0x00u8,
        0x8Fu8,
        0x08u8,
        pad,
        0xFFu8,
        0xFFu8,
        0x00u8,
        0x00u8,
        0x01u8,
        0x00u8,
        0xFFu8,
        0x00u8,
    ]
}

/// Build the haptic-pulse feature command for the requested pad selector.
pub fn encode_haptic_pulse(pad: u8) -> (buf: Vec<u8>)
    ensures
        buf@ == haptic_pulse_bytes(pad),
{
    let mut buf: Vec<u8> = Vec::new();
    buf.push(0x00);
    buf.push(0x8F);
    buf.push(0x08);
    buf.push(pad);
    buf.push(0xFF);
    buf.push(0xFF);
    buf.push(0x00);
    buf.push(0x00);
    buf.push(0x01);
    buf.push(0x00);
    buf.push(0xFF);
    buf.push(0x00);
    proof {
        assert(buf@ =~= haptic_pulse_bytes(pad));
    }
    buf
}

/// The low byte of a 16-bit value.
pub open spec fn lo_byte(v: u16) -> u8 {
    (v % 256) as u8
}

/// The high byte of a 16-bit value.
pub open spec fn hi_byte(v: u16) -> u8 {
    (v / 256) as u8
}

/// A 64-byte buffer that carries the fields of `r` in the input-report
/// layout: each field at its offset in little-endian order, the side
/// button as bit 0x200 of the button mask, every other byte zero.
pub open spec fn spec_report_bytes(r: SteamDeckDeviceReport) -> Seq<u8> {
    Seq::new(
        REPORT_LEN as nat,
        |i: int|
            if i == 13 {
                if r.l4 {
                    2u8
                } else {
                    0u8
                }
            } else if i == 16 {
                lo_byte(r.l_pad_x as u16)
            } else if i == 17 {
                hi_byte(r.l_pad_x as u16)
            } else if i == 18 {
                lo_byte(r.l_pad_y as u16)
            } else if i == 19 {
                hi_byte(r.l_pad_y as u16)
            } else if i == 20 {
                lo_byte(r.r_pad_x as u16)
            } else if i == 21 {
                hi_byte(r.r_pad_x as u16)
            } else if i == 22 {
                lo_byte(r.r_pad_y as u16)
            } else if i == 23 {
                hi_byte(r.r_pad_y as u16)
            } else if i == 56 {
                lo_byte(r.l_pad_force)
            } else if i == 57 {
                hi_byte(r.l_pad_force)
            } else if i == 58 {
                lo_byte(r.r_pad_force)
            } else if i == 59 {
                hi_byte(r.r_pad_force)
            } else {
                0u8
            },
    )
}

proof fn lemma_bytes_recombine(v: u16)
    ensures
        lo_byte(v) + 256 * hi_byte(v) == v,
{
    vstd::arithmetic::div_mod::lemma_fundamental_div_mod(v as int, 256);
}

proof fn lemma_u16_i16_roundtrip(x: i16)
    ensures
        (x as u16) as i16 == x,
{
    assert((x as u16) as i16 == x) by (bit_vector);
}

/// Law: decoding a buffer laid out to carry a report's fields recovers
/// every numeric field and the button flag unchanged.
pub proof fn lemma_report_roundtrip(r: SteamDeckDeviceReport)
    ensures
        spec_decode(spec_report_bytes(r)) == r,
{
    let s = spec_report_bytes(r);
    lemma_bytes_recombine(r.l_pad_x as u16);
    lemma_bytes_recombine(r.l_pad_y as u16);
    lemma_bytes_recombine(r.r_pad_x as u16);
    lemma_bytes_recombine(r.r_pad_y as u16);
    lemma_bytes_recombine(r.l_pad_force);
    lemma_bytes_recombine(r.r_pad_force);
    lemma_u16_i16_roundtrip(r.l_pad_x);
    lemma_u16_i16_roundtrip(r.l_pad_y);
    lemma_u16_i16_roundtrip(r.r_pad_x);
    lemma_u16_i16_roundtrip(r.r_pad_y);
    assert(le32_at(s, 12) == if r.l4 {
        0x200u32
    } else {
        0u32
    });
    assert(0x200u32 & 0x200u32 == 0x200u32) by (bit_vector);
    assert(0u32 & 0x200u32 == 0u32) by (bit_vector);
}

} // verus!
