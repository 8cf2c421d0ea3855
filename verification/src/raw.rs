use vstd::prelude::*;

use crate::player::Vector3;

verus! {

/// Size in bytes of one player record in the game's memory.
pub const PLAYER_ENTITY_RAW_SIZE: usize = 71652;

/// Byte offsets of the fields that are read from a player record.
pub const OFFSET_DORMANT: usize = 237;
pub const OFFSET_TEAM: usize = 244;
pub const OFFSET_HEALTH: usize = 256;
pub const OFFSET_FLAGS: usize = 260;
pub const OFFSET_VIEW_OFFSET: usize = 264;
pub const OFFSET_VELOCITY: usize = 276;
pub const OFFSET_ORIGIN: usize = 312;
pub const OFFSET_MOVE_STATE: usize = 604;
pub const OFFSET_SPOTTED_BY_MASK: usize = 2436;
pub const OFFSET_GUN_GAME_IMMUNITY: usize = 39316;
pub const OFFSET_SHOTS_FIRED: usize = 66532;
pub const OFFSET_ARMOR_VALUE: usize = 71632;
pub const OFFSET_HAS_DEFUSER: usize = 71648;

/// The fields of a player record that the library reads, each as the plain
/// value stored at its offset. Float fields are kept as their bit patterns.
#[allow(non_snake_case)]
#[derive(Clone, Copy, Debug, PartialEq, Eq, Structural)]
pub struct PlayerEntityRaw {
    pub dormant: u8,
    pub team: u8,
    pub m_iHealth: i32,
    pub m_fFlags: i32,
    pub m_vecViewOffset: Vector3,
    pub m_vecVelocity: Vector3,
    pub m_vecOrigin: Vector3,
    pub move_state: u32,
    pub m_bSpottedByMask: u8,
    pub m_bGunGameImmunity: u8,
    pub m_iShotsFired: i32,
    pub m_ArmorValue: u32,
    pub m_bHasDefuser: u8,
}

/// The 32-bit word stored little-endian at `off` in `s`.
pub open spec fn spec_u32_le(s: Seq<u8>, off: int) -> u32 {
    (s[off] + s[off + 1] * 256 + s[off + 2] * 65536 + s[off + 3] * 16777216) as u32
}

/// The three 32-bit words stored little-endian from `off` on.
pub open spec fn spec_vector3_le(s: Seq<u8>, off: int) -> Vector3 {
    Vector3 { x: spec_u32_le(s, off), y: spec_u32_le(s, off + 4), z: spec_u32_le(s, off + 8) }
}

/// Reads the 32-bit little-endian word at `off`.
fn read_u32_le(bytes: &[u8], off: usize) -> (word: u32)
    requires
        off + 4 <= bytes@.len(),
    ensures
        word == spec_u32_le(bytes@, off as int),
{
    let b0 = bytes[off] as u32;
    let b1 = bytes[off + 1] as u32;
    let b2 = bytes[off + 2] as u32;
    let b3 = bytes[off + 3] as u32;
    b0 + b1 * 256 + b2 * 65536 + b3 * 16777216
}

/// Reads three consecutive 32-bit little-endian words from `off` on.
fn read_vector3_le(bytes: &[u8], off: usize) -> (v: Vector3)
    requires
        off + 12 <= bytes@.len(),
        off + 12 <= usize::MAX,
    ensures
        v == spec_vector3_le(bytes@, off as int),
{
    Vector3 {
        x: read_u32_le(bytes, off),
        y: read_u32_le(bytes, off + 4),
        z: read_u32_le(bytes, off + 8),
    }
}

impl PlayerEntityRaw {
    /// The record that `s` holds, each field read at its offset.
    pub open spec fn spec_from_bytes(s: Seq<u8>) -> PlayerEntityRaw {
        PlayerEntityRaw {
            dormant: s[OFFSET_DORMANT as int],
            team: s[OFFSET_TEAM as int],
            m_iHealth: spec_u32_le(s, OFFSET_HEALTH as int) as i32,
            m_fFlags: spec_u32_le(s, OFFSET_FLAGS as int) as i32,
            m_vecViewOffset: spec_vector3_le(s, OFFSET_VIEW_OFFSET as int),
            m_vecVelocity: spec_vector3_le(s, OFFSET_VELOCITY as int),
            m_vecOrigin: spec_vector3_le(s, OFFSET_ORIGIN as int),
            move_state: spec_u32_le(s, OFFSET_MOVE_STATE as int),
            m_bSpottedByMask: s[OFFSET_SPOTTED_BY_MASK as int],
            m_bGunGameImmunity: s[OFFSET_GUN_GAME_IMMUNITY as int],
            m_iShotsFired: spec_u32_le(s, OFFSET_SHOTS_FIRED as int) as i32,
            m_ArmorValue: spec_u32_le(s, OFFSET_ARMOR_VALUE as int),
            m_bHasDefuser: s[OFFSET_HAS_DEFUSER as int],
        }
    }

    /// Decodes a player record copied from the game's memory; the buffer must
    /// hold exactly one record.
    pub fn from_bytes(bytes: &[u8]) -> (raw: PlayerEntityRaw)
        requires
            bytes@.len() == PLAYER_ENTITY_RAW_SIZE,
        ensures
            raw == PlayerEntityRaw::spec_from_bytes(bytes@),
            raw.dormant == bytes@[237],
            raw.team == bytes@[244],
            raw.m_bSpottedByMask == bytes@[2436],
            raw.m_bGunGameImmunity == bytes@[39316],
    {
        PlayerEntityRaw {
            dormant: bytes[OFFSET_DORMANT],
            team: bytes[OFFSET_TEAM],
            m_iHealth: read_u32_le(bytes, OFFSET_HEALTH) as i32,
            m_fFlags: read_u32_le(bytes, OFFSET_FLAGS) as i32,
            m_vecViewOffset: read_vector3_le(bytes, OFFSET_VIEW_OFFSET),
            m_vecVelocity: read_vector3_le(bytes, OFFSET_VELOCITY),
            m_vecOrigin: read_vector3_le(bytes, OFFSET_ORIGIN),
            move_state: read_u32_le(bytes, OFFSET_MOVE_STATE),
            m_bSpottedByMask: bytes[OFFSET_SPOTTED_BY_MASK],
            m_bGunGameImmunity: bytes[OFFSET_GUN_GAME_IMMUNITY],
            m_iShotsFired: read_u32_le(bytes, OFFSET_SHOTS_FIRED) as i32,
            m_ArmorValue: read_u32_le(bytes, OFFSET_ARMOR_VALUE),
            m_bHasDefuser: bytes[OFFSET_HAS_DEFUSER],
        }
    }
}

/// Whether the four bytes of `b` from `off` on are the little-endian bytes of
/// `w`: lowest byte first.
pub open spec fn stored_le(b: Seq<u8>, off: int, w: u32) -> bool {
    &&& b[off] as int == w as int % 256
    &&& b[off + 1] as int == (w as int / 256) % 256
    &&& b[off + 2] as int == (w as int / 65536) % 256
    &&& b[off + 3] as int == w as int / 16777216
}

/// The word read at `off` is the one whose little-endian bytes stand there.
pub proof fn lemma_u32_le_stored(b: Seq<u8>, off: int)
    requires
        0 <= off,
        off + 4 <= b.len(),
    ensures
        stored_le(b, off, spec_u32_le(b, off)),
{
    let b0 = b[off] as int;
    let b1 = b[off + 1] as int;
    let b2 = b[off + 2] as int;
    let b3 = b[off + 3] as int;
    let w = b0 + b1 * 256 + b2 * 65536 + b3 * 16777216;
    assert(0 <= w < 0x1_0000_0000);
    assert(w % 256 == b0 && (w / 256) % 256 == b1 && (w / 65536) % 256 == b2 && w / 16777216
        == b3) by (nonlinear_arith)
        requires
            0 <= b0 < 256,
            0 <= b1 < 256,
            0 <= b2 < 256,
            0 <= b3 < 256,
            w == b0 + b1 * 256 + b2 * 65536 + b3 * 16777216,
    ;
}

/// Layout of a player record: each field is read from its own bytes, little
/// endian, at fixed offsets (the byte fields at 237, 244, 2436, 39316 and
/// 71648; the words at 256, 260, 604, 66532 and 71632; the three-word vectors
/// at 264, 276 and 312), whatever the other bytes hold.
pub proof fn lemma_record_layout(b: Seq<u8>)
    requires
        b.len() == 71652,
    ensures
        PlayerEntityRaw::spec_from_bytes(b).dormant == b[237],
        PlayerEntityRaw::spec_from_bytes(b).team == b[244],
        PlayerEntityRaw::spec_from_bytes(b).m_bSpottedByMask == b[2436],
        PlayerEntityRaw::spec_from_bytes(b).m_bGunGameImmunity == b[39316],
        PlayerEntityRaw::spec_from_bytes(b).m_bHasDefuser == b[71648],
        stored_le(b, 256, PlayerEntityRaw::spec_from_bytes(b).m_iHealth as u32),
        stored_le(b, 260, PlayerEntityRaw::spec_from_bytes(b).m_fFlags as u32),
        stored_le(b, 604, PlayerEntityRaw::spec_from_bytes(b).move_state),
        stored_le(b, 66532, PlayerEntityRaw::spec_from_bytes(b).m_iShotsFired as u32),
        stored_le(b, 71632, PlayerEntityRaw::spec_from_bytes(b).m_ArmorValue),
        stored_le(b, 264, PlayerEntityRaw::spec_from_bytes(b).m_vecViewOffset.x),
        stored_le(b, 268, PlayerEntityRaw::spec_from_bytes(b).m_vecViewOffset.y),
        stored_le(b, 272, PlayerEntityRaw::spec_from_bytes(b).m_vecViewOffset.z),
        stored_le(b, 276, PlayerEntityRaw::spec_from_bytes(b).m_vecVelocity.x),
        stored_le(b, 280, PlayerEntityRaw::spec_from_bytes(b).m_vecVelocity.y),
        stored_le(b, 284, PlayerEntityRaw::spec_from_bytes(b).m_vecVelocity.z),
        stored_le(b, 312, PlayerEntityRaw::spec_from_bytes(b).m_vecOrigin.x),
        stored_le(b, 316, PlayerEntityRaw::spec_from_bytes(b).m_vecOrigin.y),
        stored_le(b, 320, PlayerEntityRaw::spec_from_bytes(b).m_vecOrigin.z),
{
    let r = PlayerEntityRaw::spec_from_bytes(b);
    lemma_u32_le_stored(b, 256);
    lemma_u32_le_stored(b, 260);
    lemma_u32_le_stored(b, 604);
    lemma_u32_le_stored(b, 66532);
    lemma_u32_le_stored(b, 71632);
    lemma_u32_le_stored(b, 264);
    lemma_u32_le_stored(b, 268);
    lemma_u32_le_stored(b, 272);
    lemma_u32_le_stored(b, 276);
    lemma_u32_le_stored(b, 280);
    lemma_u32_le_stored(b, 284);
    lemma_u32_le_stored(b, 312);
    lemma_u32_le_stored(b, 316);
    lemma_u32_le_stored(b, 320);
    let h = spec_u32_le(b, 256);
    let f = spec_u32_le(b, 260);
    let sf = spec_u32_le(b, 66532);
    assert((h as i32) as u32 == h) by (bit_vector);
    assert((f as i32) as u32 == f) by (bit_vector);
    assert((sf as i32) as u32 == sf) by (bit_vector);
}

} // verus!
