use vstd::prelude::*;

use crate::constants::MAX_PLAYERS;
use crate::raw::{PlayerEntityRaw, PLAYER_ENTITY_RAW_SIZE};

verus! {

/// Bits of the movement flags word of a player.
pub const FLAG_ON_GROUND: u32 = 1;
pub const FLAG_DUCKING: u32 = 2;
pub const FLAG_ANIM_DUCKING: u32 = 4;
pub const FLAG_WATER_JUMP: u32 = 8;
pub const FLAG_ON_TRAIN: u32 = 16;
pub const FLAG_IN_RAIN: u32 = 32;
pub const FLAG_FROZEN: u32 = 64;
pub const FLAG_AT_CONTROLS: u32 = 128;
pub const FLAG_CLIENT: u32 = 256;
pub const FLAG_FAKE_CLIENT: u32 = 512;
pub const FLAG_IN_WATER: u32 = 1024;

/// A vector of three single-precision floats, each held as its IEEE 754 bit
/// pattern exactly as it is stored in the game's memory.
#[derive(Clone, Copy, Debug, PartialEq, Eq, Structural)]
pub struct Vector3 {
    pub x: u32,
    pub y: u32,
    pub z: u32,
}

/// Whether the float with bit pattern `bits` compares unequal to `0.0`: every
/// pattern but those of `+0.0` and `-0.0` (a NaN compares unequal too).
pub open spec fn f32_bits_nonzero(bits: u32) -> bool {
    bits & 0x7fff_ffff != 0
}

/// Executable form of [`f32_bits_nonzero`].
fn bits_nonzero(bits: u32) -> (r: bool)
    ensures
        r == f32_bits_nonzero(bits),
{
    bits & 0x7fff_ffff != 0
}

/// The side a player plays on.
#[derive(Clone, Copy, Debug, PartialEq, Eq, Structural)]
pub enum Team {
    Spec,
    T,
    CT,
}

impl Team {
    /// The side that the game encodes as `v`; unknown codes count as spectators.
    pub open spec fn spec_from_raw(v: u8) -> Team {
        if v == 2 {
            Team::T
        } else if v == 3 {
            Team::CT
        } else {
            Team::Spec
        }
    }

    /// The text under which a side is shown.
    pub open spec fn spec_label(self) -> Seq<char> {
        match self {
            Team::Spec => "Spec"@,
            Team::T => "T"@,
            Team::CT => "CT"@,
        }
    }

    /// The text under which a side is shown.
    pub fn label(&self) -> (text: &'static str)
        ensures
            text@ == self.spec_label(),
    {
        match self {
            Team::Spec => "Spec",
            Team::T => "T",
            Team::CT => "CT",
        }
    }
}

/// Movement of a player, as the game's flags describe it.
#[derive(Clone, Copy, Debug, PartialEq, Eq, Structural)]
pub enum MovementFlags {
    Jump,
    OnGround,
    Crouching,
    JumpCrouch,
    Ladder,
    Unknown,
}

impl MovementFlags {
    /// The text under which a movement is shown (standing on the ground shows
    /// as "Still").
    pub open spec fn spec_label(self) -> Seq<char> {
        match self {
            MovementFlags::Jump => "Jump"@,
            MovementFlags::OnGround => "Still"@,
            MovementFlags::JumpCrouch => "Jump Crouch"@,
            MovementFlags::Crouching => "Crouching"@,
            MovementFlags::Unknown => "Unknown"@,
            MovementFlags::Ladder => "Ladder"@,
        }
    }

    /// The text under which a movement is shown.
    pub fn label(&self) -> (text: &'static str)
        ensures
            text@ == self.spec_label(),
    {
        match self {
            MovementFlags::Jump => "Jump",
            MovementFlags::OnGround => "Still",
            MovementFlags::JumpCrouch => "Jump Crouch",
            MovementFlags::Crouching => "Crouching",
            MovementFlags::Unknown => "Unknown",
            MovementFlags::Ladder => "Ladder",
        }
    }
}

/// The movement type of a player's physics.
#[derive(Clone, Copy, Debug, PartialEq, Eq, Structural)]
pub enum MovementState {
    Stationary,
    Isometric,
    Walk,
    Step,
    Fly,
    FlyGravity,
    VPhysics,
    Push,
    NoClip,
    Ladder,
    Observer,
    Custom,
}

impl MovementState {
    /// The movement type that the game encodes as `v`; codes above 10 are
    /// custom movement.
    pub open spec fn spec_from_raw(v: u32) -> MovementState {
        if v == 0 {
            MovementState::Stationary
        } else if v == 1 {
            MovementState::Isometric
        } else if v == 2 {
            MovementState::Walk
        } else if v == 3 {
            MovementState::Step
        } else if v == 4 {
            MovementState::Fly
        } else if v == 5 {
            MovementState::FlyGravity
        } else if v == 6 {
            MovementState::VPhysics
        } else if v == 7 {
            MovementState::Push
        } else if v == 8 {
            MovementState::NoClip
        } else if v == 9 {
            MovementState::Ladder
        } else if v == 10 {
            MovementState::Observer
        } else {
            MovementState::Custom
        }
    }

    /// The text under which a movement type is shown.
    pub open spec fn spec_label(self) -> Seq<char> {
        match self {
            MovementState::Stationary => "None"@,
            MovementState::Isometric => "Isometric"@,
            MovementState::Walk => "Walk"@,
            MovementState::Step => "Step"@,
            MovementState::Fly => "Fly"@,
            MovementState::FlyGravity => "FlyGravity"@,
            MovementState::VPhysics => "VPhysics"@,
            MovementState::Push => "Push"@,
            MovementState::NoClip => "No Clip"@,
            MovementState::Ladder => "Ladder"@,
            MovementState::Observer => "Observer"@,
            MovementState::Custom => "Custom"@,
        }
    }

    /// The text under which a movement type is shown.
    pub fn label(&self) -> (text: &'static str)
        ensures
            text@ == self.spec_label(),
    {
        match self {
            MovementState::Stationary => "None",
            MovementState::Isometric => "Isometric",
            MovementState::Walk => "Walk",
            MovementState::Step => "Step",
            MovementState::Fly => "Fly",
            MovementState::FlyGravity => "FlyGravity",
            MovementState::VPhysics => "VPhysics",
            MovementState::Push => "Push",
            MovementState::NoClip => "No Clip",
            MovementState::Ladder => "Ladder",
            MovementState::Observer => "Observer",
            MovementState::Custom => "Custom",
        }
    }
}

/// A player as the library sees it, decoded from a player record.
/// The head position is `feet_origin + view_offset`, a float sum that the
/// callers evaluate.
#[derive(Clone, Copy, Debug, PartialEq, Eq)]
pub struct PlayerEntity {
    pub health: u16,
    pub team: Team,
    pub flags: u32,
    pub feet_origin: Vector3,
    pub view_offset: Vector3,
    pub movement_state: MovementState,
    pub velocity_vector: Vector3,
    pub dormant: bool,
    pub immune: bool,
    pub visible: bool,
    pub xhair_id: Option<u32>,
}

impl PlayerEntity {
    /// Whether `self` and `other` play on different sides.
    pub open spec fn spec_is_enemy(self, other: PlayerEntity) -> bool {
        self.team != other.team
    }

    /// Whether the velocity has a component that is not zero.
    pub open spec fn spec_is_moving(self) -> bool {
        f32_bits_nonzero(self.velocity_vector.x) || f32_bits_nonzero(self.velocity_vector.y)
            || f32_bits_nonzero(self.velocity_vector.z)
    }

    /// Whether the on-ground bit of the flags is set.
    pub open spec fn spec_on_ground(self) -> bool {
        self.flags & FLAG_ON_GROUND != 0
    }

    /// Whether the crosshair id names a player slot, `1 <= id < MAX_PLAYERS`.
    pub open spec fn aims_at_slot(self) -> bool {
        self.xhair_id matches Some(id) && 1 <= id < MAX_PLAYERS
    }

    /// The position in the entity list of the player under the crosshair.
    pub open spec fn aimed_index(self) -> int {
        self.xhair_id.unwrap() - 1
    }

    /// Whether the crosshair rests on a player slot whose player (the entry
    /// `id - 1` of `entities`) is neither dormant nor immune.
    pub open spec fn spec_is_aiming_at_valid_enemy(self, entities: Seq<PlayerEntity>) -> bool {
        &&& self.aims_at_slot()
        &&& !entities[self.aimed_index()].dormant
        &&& !entities[self.aimed_index()].immune
    }

    /// The player that a record describes, with the given crosshair id.
    pub open spec fn spec_from_raw(raw: PlayerEntityRaw, xhair_id: Option<u32>) -> PlayerEntity {
        PlayerEntity {
            team: Team::spec_from_raw(raw.team),
            movement_state: MovementState::spec_from_raw(raw.move_state),
            health: raw.m_iHealth as u16,
            flags: raw.m_fFlags as u32,
            view_offset: raw.m_vecViewOffset,
            feet_origin: raw.m_vecOrigin,
            velocity_vector: raw.m_vecVelocity,
            dormant: raw.dormant == 1,
            visible: raw.m_bSpottedByMask == 1,
            immune: raw.m_bGunGameImmunity == 1,
            xhair_id,
        }
    }

    pub fn is_alive(&self) -> (r: bool)
        ensures
            r == (self.health > 0),
    {
        self.health > 0
    }

    pub fn is_enemy(&self, other: &PlayerEntity) -> (r: bool)
        ensures
            r == self.spec_is_enemy(*other),
    {
        self.team != other.team
    }

    pub fn is_immune(&self) -> (r: bool)
        ensures
            r == self.immune,
    {
        self.immune
    }

    pub fn is_dormant(&self) -> (r: bool)
        ensures
            r == self.dormant,
    {
        self.dormant
    }

    pub fn is_moving(&self) -> (r: bool)
        ensures
            r == self.spec_is_moving(),
            r == ((self.velocity_vector.x != 0 && self.velocity_vector.x != 0x8000_0000) || (
            self.velocity_vector.y != 0 && self.velocity_vector.y != 0x8000_0000) || (
            self.velocity_vector.z != 0 && self.velocity_vector.z != 0x8000_0000)),
    {
        proof {
            lemma_is_moving(*self);
        }
        bits_nonzero(self.velocity_vector.x) || bits_nonzero(self.velocity_vector.y)
            || bits_nonzero(self.velocity_vector.z)
    }

    pub fn on_ground(&self) -> (r: bool)
        ensures
            r == self.spec_on_ground(),
            r == (self.flags % 2 == 1),
    {
        proof {
            lemma_on_ground(*self);
        }
        self.flags & FLAG_ON_GROUND != 0
    }

    /// Whether the crosshair rests on a player that is neither dormant nor
    /// immune. `entities` lists the players of slots `1..MAX_PLAYERS` in order.
    pub fn is_aiming_at_valid_enemy(&self, entities: &[PlayerEntity]) -> (r: bool)
        requires
            self.aims_at_slot() ==> self.aimed_index() < entities@.len(),
        ensures
            r == self.spec_is_aiming_at_valid_enemy(entities@),
            r == (self.xhair_id matches Some(id) && 1 <= id < MAX_PLAYERS && !entities@[id - 1].dormant
                && !entities@[id - 1].immune),
    {
        let xhair_id = match self.xhair_id {
            Some(id) => id,
            None => {
                return false;
            },
        };
        if !(1 <= xhair_id && xhair_id < MAX_PLAYERS) || xhair_id == 0 {
            return false;
        }
        let player_index = (xhair_id - 1) as usize;
        let player_being_aimed_at = &entities[player_index];
        if player_being_aimed_at.is_dormant() {
            return false;
        }
        if player_being_aimed_at.is_immune() {
            return false;
        }
        true
    }

    /// The player that a record describes, with the given crosshair id.
    pub fn from_raw(raw: &PlayerEntityRaw, xhair_id: Option<u32>) -> (p: PlayerEntity)
        ensures
            p == PlayerEntity::spec_from_raw(*raw, xhair_id),
    {
        PlayerEntity {
            team: match raw.team {
                1 => Team::Spec,
                2 => Team::T,
                3 => Team::CT,
                _ => Team::Spec,
            },
            movement_state: match raw.move_state {
                0 => MovementState::Stationary,
                1 => MovementState::Isometric,
                2 => MovementState::Walk,
                3 => MovementState::Step,
                4 => MovementState::Fly,
                5 => MovementState::FlyGravity,
                6 => MovementState::VPhysics,
                7 => MovementState::Push,
                8 => MovementState::NoClip,
                9 => MovementState::Ladder,
                10 => MovementState::Observer,
                _ => MovementState::Custom,
            },
            health: raw.m_iHealth as u16,
            flags: raw.m_fFlags as u32,
            view_offset: raw.m_vecViewOffset,
            feet_origin: raw.m_vecOrigin,
            velocity_vector: raw.m_vecVelocity,
            dormant: raw.dormant == 1,
            visible: raw.m_bSpottedByMask == 1,
            immune: raw.m_bGunGameImmunity == 1,
            xhair_id,
        }
    }

    /// The player that a record copied from the game's memory describes; the
    /// buffer must hold exactly one record.
    pub fn from_raw_vec(raw: &[u8], xhair_id: Option<u32>) -> (p: PlayerEntity)
        requires
            raw@.len() == PLAYER_ENTITY_RAW_SIZE,
        ensures
            p == PlayerEntity::spec_from_raw(PlayerEntityRaw::spec_from_bytes(raw@), xhair_id),
    {
        let raw = PlayerEntityRaw::from_bytes(raw);
        PlayerEntity::from_raw(&raw, xhair_id)
    }
}

/// Two players are enemies of each other or of neither, and nobody is an
/// enemy of a player on the same side.
pub proof fn lemma_is_enemy_symmetric(a: PlayerEntity, b: PlayerEntity)
    ensures
        a.spec_is_enemy(b) == b.spec_is_enemy(a),
        a.team == b.team ==> !a.spec_is_enemy(b),
        a.team != b.team ==> a.spec_is_enemy(b),
        !a.spec_is_enemy(a),
{
}

/// The side codes: 2 is T, 3 is CT, and every other code is a spectator.
pub proof fn lemma_team_codes(v: u8)
    ensures
        Team::spec_from_raw(2) == Team::T,
        Team::spec_from_raw(3) == Team::CT,
        v != 2 && v != 3 ==> Team::spec_from_raw(v) == Team::Spec,
        (Team::spec_from_raw(v) == Team::T) == (v == 2),
        (Team::spec_from_raw(v) == Team::CT) == (v == 3),
{
}

impl MovementState {
    /// The code the game gives each movement type (custom movement has the
    /// codes above 10; 11 stands for them).
    pub open spec fn code(self) -> u32 {
        match self {
            MovementState::Stationary => 0,
            MovementState::Isometric => 1,
            MovementState::Walk => 2,
            MovementState::Step => 3,
            MovementState::Fly => 4,
            MovementState::FlyGravity => 5,
            MovementState::VPhysics => 6,
            MovementState::Push => 7,
            MovementState::NoClip => 8,
            MovementState::Ladder => 9,
            MovementState::Observer => 10,
            MovementState::Custom => 11,
        }
    }
}

/// Movement codes 0 to 10 name, in order, Stationary, Isometric, Walk, Step,
/// Fly, FlyGravity, VPhysics, Push, NoClip, Ladder and Observer, each decoding
/// to the type with that code; only codes above 10 are custom movement.
pub proof fn lemma_movement_codes(v: u32)
    ensures
        v <= 10 ==> MovementState::spec_from_raw(v).code() == v,
        v <= 10 ==> MovementState::spec_from_raw(v) != MovementState::Custom,
        v > 10 ==> MovementState::spec_from_raw(v) == MovementState::Custom,
        (MovementState::spec_from_raw(v) == MovementState::Ladder) == (v == 9),
        MovementState::spec_from_raw(0) == MovementState::Stationary,
        MovementState::spec_from_raw(1) == MovementState::Isometric,
        MovementState::spec_from_raw(2) == MovementState::Walk,
        MovementState::spec_from_raw(3) == MovementState::Step,
        MovementState::spec_from_raw(4) == MovementState::Fly,
        MovementState::spec_from_raw(5) == MovementState::FlyGravity,
        MovementState::spec_from_raw(6) == MovementState::VPhysics,
        MovementState::spec_from_raw(7) == MovementState::Push,
        MovementState::spec_from_raw(8) == MovementState::NoClip,
        MovementState::spec_from_raw(9) == MovementState::Ladder,
        MovementState::spec_from_raw(10) == MovementState::Observer,
{
}

/// A decoded player takes each of its fields from the record: health is the
/// health word modulo 2^16, flags are the flags word read as unsigned, the
/// three vectors are copied, dormant, visible and immune hold exactly when
/// their bytes are 1, and the crosshair id is the one given.
pub proof fn lemma_from_raw_fields(raw: PlayerEntityRaw, xhair_id: Option<u32>)
    ensures
        PlayerEntity::spec_from_raw(raw, xhair_id).health as int == raw.m_iHealth as int % 65536,
        PlayerEntity::spec_from_raw(raw, xhair_id).flags as int == (if raw.m_fFlags >= 0 {
            raw.m_fFlags as int
        } else {
            raw.m_fFlags as int + 0x1_0000_0000
        }),
        PlayerEntity::spec_from_raw(raw, xhair_id).team == Team::spec_from_raw(raw.team),
        PlayerEntity::spec_from_raw(raw, xhair_id).movement_state == MovementState::spec_from_raw(
            raw.move_state,
        ),
        PlayerEntity::spec_from_raw(raw, xhair_id).feet_origin == raw.m_vecOrigin,
        PlayerEntity::spec_from_raw(raw, xhair_id).view_offset == raw.m_vecViewOffset,
        PlayerEntity::spec_from_raw(raw, xhair_id).velocity_vector == raw.m_vecVelocity,
        PlayerEntity::spec_from_raw(raw, xhair_id).dormant == (raw.dormant == 1),
        PlayerEntity::spec_from_raw(raw, xhair_id).visible == (raw.m_bSpottedByMask == 1),
        PlayerEntity::spec_from_raw(raw, xhair_id).immune == (raw.m_bGunGameImmunity == 1),
        PlayerEntity::spec_from_raw(raw, xhair_id).xhair_id == xhair_id,
{
    let h = raw.m_iHealth;
    let f = raw.m_fFlags;
    assert((h as u16) as int == (h as int) % 65536) by (bit_vector);
    assert(f >= 0 ==> (f as u32) as int == f as int) by (bit_vector);
    assert(f < 0 ==> (f as u32) as int == f as int + 0x1_0000_0000) by (bit_vector);
}

/// A velocity component counts as nonzero exactly when its bit pattern is
/// neither that of `+0.0` (0) nor that of `-0.0` (0x8000_0000); a player is
/// moving exactly when one of the three components is nonzero, whichever it
/// is, so the answer does not change when the components are permuted.
pub proof fn lemma_is_moving(p: PlayerEntity)
    ensures
        p.spec_is_moving() == ((p.velocity_vector.x != 0 && p.velocity_vector.x != 0x8000_0000)
            || (p.velocity_vector.y != 0 && p.velocity_vector.y != 0x8000_0000) || (
        p.velocity_vector.z != 0 && p.velocity_vector.z != 0x8000_0000)),
        p.spec_is_moving() == (PlayerEntity {
            velocity_vector: Vector3 {
                x: p.velocity_vector.y,
                y: p.velocity_vector.z,
                z: p.velocity_vector.x,
            },
            ..p
        }).spec_is_moving(),
        p.spec_is_moving() == (PlayerEntity {
            velocity_vector: Vector3 {
                x: p.velocity_vector.y,
                y: p.velocity_vector.x,
                z: p.velocity_vector.z,
            },
            ..p
        }).spec_is_moving(),
{
    let x = p.velocity_vector.x;
    let y = p.velocity_vector.y;
    let z = p.velocity_vector.z;
    assert((x & 0x7fff_ffff != 0) == (x != 0 && x != 0x8000_0000)) by (bit_vector);
    assert((y & 0x7fff_ffff != 0) == (y != 0 && y != 0x8000_0000)) by (bit_vector);
    assert((z & 0x7fff_ffff != 0) == (z != 0 && z != 0x8000_0000)) by (bit_vector);
}

/// Only bit 0 of the flags decides whether a player stands on the ground: the
/// flags are odd exactly then, whatever the other bits (ducking and so on) say.
pub proof fn lemma_on_ground(p: PlayerEntity)
    ensures
        p.spec_on_ground() == (p.flags % 2 == 1),
        p.spec_on_ground() == (PlayerEntity { flags: p.flags | 2, ..p }).spec_on_ground(),
        p.spec_on_ground() == (PlayerEntity { flags: p.flags & 1, ..p }).spec_on_ground(),
{
    let f = p.flags;
    assert((f & 1 != 0) == (f % 2 == 1)) by (bit_vector);
    assert(((f | 2) & 1 != 0) == (f & 1 != 0)) by (bit_vector);
    assert(((f & 1) & 1 != 0) == (f & 1 != 0)) by (bit_vector);
}

/// The crosshair rests on a valid target exactly when its id is a slot
/// `1 <= id < MAX_PLAYERS` whose player, `entities[id - 1]`, is neither
/// dormant nor immune; the answer depends on `entities` only through that
/// entry, and a missing id or any other id never is one.
pub proof fn lemma_aiming(local: PlayerEntity, entities: Seq<PlayerEntity>, id: u32, other: Seq<PlayerEntity>)
    requires
        local.xhair_id == Some(id),
        1 <= id < MAX_PLAYERS,
        id - 1 < entities.len(),
        id - 1 < other.len(),
        other[id - 1] == entities[id - 1],
    ensures
        local.spec_is_aiming_at_valid_enemy(entities) == (!entities[id - 1].dormant
            && !entities[id - 1].immune),
        local.spec_is_aiming_at_valid_enemy(entities) == local.spec_is_aiming_at_valid_enemy(other),
        !(PlayerEntity { xhair_id: None, ..local }).spec_is_aiming_at_valid_enemy(entities),
        !(PlayerEntity { xhair_id: Some(0), ..local }).spec_is_aiming_at_valid_enemy(entities),
        !(PlayerEntity { xhair_id: Some(MAX_PLAYERS), ..local }).spec_is_aiming_at_valid_enemy(
            entities,
        ),
{
}

} // verus!
