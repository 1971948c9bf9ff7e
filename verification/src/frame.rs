//! Fixed-size frame codec: every unit exchanged over the link is exactly
//! 16 bytes, with big-endian multi-byte fields.

use vstd::prelude::*;

verus! {

/// Every frame on the wire is exactly this many bytes.
pub const FRAME_LEN: usize = 16;

/// The single wire-format revision this host speaks. A handshake reply
/// carrying any other value is rejected outright; versions are never
/// negotiated backward.
pub const PROTOCOL_VERSION: u8 = 1;

/// The item identifier sent once per session as a connectivity test.
pub const TEST_ITEM_ID: u16 = 0x000d;

/// ASCII byte values used in the fixed frame prefixes.
pub const BYTE_C: u8 = 0x63;

pub const BYTE_M_LOWER: u8 = 0x6d;

pub const BYTE_D: u8 = 0x64;

pub const BYTE_T_LOWER: u8 = 0x74;

pub const BYTE_R_LOWER: u8 = 0x72;

pub const BYTE_K: u8 = 0x6b;

pub const BYTE_O_UPPER: u8 = 0x4f;

pub const BYTE_O_LOWER: u8 = 0x6f;

pub const BYTE_T_UPPER: u8 = 0x54;

pub const BYTE_R_UPPER: u8 = 0x52;

pub const BYTE_M_UPPER: u8 = 0x4d;

pub const BYTE_W_UPPER: u8 = 0x57;

/// A frame whose bytes are all zero: the outbound keepalive.
pub open spec fn is_all_zero(s: Seq<u8>) -> bool {
    s.len() == FRAME_LEN && forall|i: int| 0 <= i < s.len() ==> s[i] == 0u8
}

/// Big-endian decoding of two bytes into a 16-bit value.
pub open spec fn spec_u16_from_be(hi: u8, lo: u8) -> u16 {
    (hi * 256 + lo) as u16
}

/// Decodes a big-endian 16-bit field from its two bytes.
pub fn u16_from_be(hi: u8, lo: u8) -> (r: u16)
    ensures
        r == spec_u16_from_be(hi, lo),
{
    hi as u16 * 256 + lo as u16
}

/// The keepalive frame: 16 zero bytes.
pub fn keepalive_frame() -> (r: [u8; 16])
    ensures
        is_all_zero(r@),
{
    [0u8; 16]
}

/// The handshake probe: the ASCII literal `cmdt` followed by 12 zero bytes.
pub open spec fn is_probe_frame(s: Seq<u8>) -> bool {
    &&& s.len() == FRAME_LEN
    &&& s[0] == BYTE_C
    &&& s[1] == BYTE_M_LOWER
    &&& s[2] == BYTE_D
    &&& s[3] == BYTE_T_LOWER
    &&& forall|i: int| 4 <= i < s.len() ==> s[i] == 0u8
}

/// Builds the handshake probe frame.
pub fn probe_frame() -> (r: [u8; 16])
    ensures
        is_probe_frame(r@),
{
    [BYTE_C, BYTE_M_LOWER, BYTE_D, BYTE_T_LOWER, 0, 0, 0, 0, 0, 0, 0, 0, 0, 0, 0, 0]
}

/// The capability-negotiation frame: the ASCII literal `MW`, the negotiated
/// protocol version, then one byte per optional capability. The two
/// capabilities enabled unconditionally are "send own items" (byte 3) and
/// "progressive items" (byte 4).
pub open spec fn is_capability_frame(s: Seq<u8>) -> bool {
    &&& s.len() == FRAME_LEN
    &&& s[0] == BYTE_M_UPPER
    &&& s[1] == BYTE_W_UPPER
    &&& s[2] == PROTOCOL_VERSION
    &&& s[3] == 1u8
    &&& s[4] == 1u8
    &&& forall|i: int| 5 <= i < s.len() ==> s[i] == 0u8
}

/// Builds the capability-negotiation frame written after a successful
/// in-game classification.
pub fn capability_frame() -> (r: [u8; 16])
    ensures
        is_capability_frame(r@),
{
    [BYTE_M_UPPER, BYTE_W_UPPER, PROTOCOL_VERSION, 1, 1, 0, 0, 0, 0, 0, 0, 0, 0, 0, 0, 0]
}

/// An outbound "get item" frame: opcode 0x02 followed by the item
/// identifier as a big-endian 16-bit field; the rest is zero.
pub open spec fn is_get_item_frame(s: Seq<u8>, item: u16) -> bool {
    &&& s.len() == FRAME_LEN
    &&& s[0] == 0x02u8
    &&& spec_u16_from_be(s[1], s[2]) == item
    &&& forall|i: int| 3 <= i < s.len() ==> s[i] == 0u8
}

/// Builds the outbound "get item" frame for the given item identifier.
pub fn get_item_frame(item: u16) -> (r: [u8; 16])
    ensures
        is_get_item_frame(r@, item),
{
    let hi: u8 = (item / 256) as u8;
    let lo: u8 = (item % 256) as u8;
    let r = [0x02u8, hi, lo, 0, 0, 0, 0, 0, 0, 0, 0, 0, 0, 0, 0, 0];
    proof {
        assert(hi * 256 + lo == item) by (nonlinear_arith)
            requires
                hi == item / 256,
                lo == item % 256,
        ;
    }
    r
}

/// The player-data frame written once at the start of a session: opcode
/// 0x01, the world number, then an 8-byte player-name blob in the console's
/// text encoding; the rest is zero.
pub open spec fn is_player_data_frame(s: Seq<u8>) -> bool {
    &&& s.len() == FRAME_LEN
    &&& s[0] == 0x01u8
    &&& s[1] == 2u8
    &&& s[2] == 0xbau8
    &&& s[3] == 0x02u8
    &&& forall|i: int| 4 <= i < 10 ==> s[i] == 0xdfu8
    &&& forall|i: int| 10 <= i < s.len() ==> s[i] == 0u8
}

/// Builds the player-data frame announcing this host's world and name.
pub fn player_data_frame() -> (r: [u8; 16])
    ensures
        is_player_data_frame(r@),
{
    [
        0x01, 2, 0xba, 0x02, 0xdf, 0xdf, 0xdf, 0xdf, 0xdf, 0xdf, 0, 0, 0, 0, 0, 0,
    ]
}

} // verus!
