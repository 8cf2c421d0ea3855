use cs_trigger::constants::MAX_PLAYERS;
use cs_trigger::player::{MovementFlags, MovementState, PlayerEntity, Team, Vector3};
use cs_trigger::raw::{
    PlayerEntityRaw, OFFSET_ARMOR_VALUE, OFFSET_DORMANT, OFFSET_FLAGS, OFFSET_GUN_GAME_IMMUNITY,
    OFFSET_HAS_DEFUSER, OFFSET_HEALTH, OFFSET_MOVE_STATE, OFFSET_ORIGIN, OFFSET_SHOTS_FIRED,
    OFFSET_SPOTTED_BY_MASK, OFFSET_TEAM, OFFSET_VELOCITY, OFFSET_VIEW_OFFSET, PLAYER_ENTITY_RAW_SIZE,
};

fn put_u32(b: &mut [u8], off: usize, v: u32) {
    b[off..off + 4].copy_from_slice(&v.to_le_bytes());
}

fn record() -> Vec<u8> {
    let mut b = vec![0u8; PLAYER_ENTITY_RAW_SIZE];
    b[OFFSET_DORMANT] = 0;
    b[OFFSET_TEAM] = 3;
    put_u32(&mut b, OFFSET_HEALTH, 100);
    put_u32(&mut b, OFFSET_FLAGS, 257);
    put_u32(&mut b, OFFSET_VIEW_OFFSET + 8, 64.0f32.to_bits());
    put_u32(&mut b, OFFSET_VELOCITY, 250.0f32.to_bits());
    put_u32(&mut b, OFFSET_ORIGIN, 1.5f32.to_bits());
    put_u32(&mut b, OFFSET_ORIGIN + 4, (-2.0f32).to_bits());
    put_u32(&mut b, OFFSET_ORIGIN + 8, 3.25f32.to_bits());
    put_u32(&mut b, OFFSET_MOVE_STATE, 2);
    b[OFFSET_SPOTTED_BY_MASK] = 1;
    b[OFFSET_GUN_GAME_IMMUNITY] = 0;
    put_u32(&mut b, OFFSET_SHOTS_FIRED, 3);
    put_u32(&mut b, OFFSET_ARMOR_VALUE, 100);
    b[OFFSET_HAS_DEFUSER] = 1;
    b
}

#[test]
fn raw_record_is_read_little_endian_at_the_layout_offsets() {
    let raw = PlayerEntityRaw::from_bytes(&record());
    assert_eq!(raw.team, 3);
    assert_eq!(raw.m_iHealth, 100);
    assert_eq!(raw.m_fFlags, 257);
    assert_eq!(raw.m_vecOrigin, Vector3 { x: 1.5f32.to_bits(), y: (-2.0f32).to_bits(), z: 3.25f32.to_bits() });
    assert_eq!(raw.m_vecViewOffset, Vector3 { x: 0, y: 0, z: 64.0f32.to_bits() });
    assert_eq!(raw.m_vecVelocity.x, 250.0f32.to_bits());
    assert_eq!(raw.move_state, 2);
    assert_eq!(raw.m_bSpottedByMask, 1);
    assert_eq!(raw.m_iShotsFired, 3);
    assert_eq!(raw.m_ArmorValue, 100);
    assert_eq!(raw.m_bHasDefuser, 1);

    let mut b = record();
    put_u32(&mut b, OFFSET_HEALTH, 0x0403_0201);
    assert_eq!(PlayerEntityRaw::from_bytes(&b).m_iHealth, 0x0403_0201);
    put_u32(&mut b, OFFSET_HEALTH, 0xffff_ffff);
    assert_eq!(PlayerEntityRaw::from_bytes(&b).m_iHealth, -1);
}

#[test]
fn from_raw_vec_decodes_a_player() {
    let p = PlayerEntity::from_raw_vec(&record(), Some(5));
    assert_eq!(p.health, 100);
    assert_eq!(p.team, Team::CT);
    assert_eq!(p.flags, 257);
    assert_eq!(p.movement_state, MovementState::Walk);
    assert_eq!(p.feet_origin.x, 1.5f32.to_bits());
    assert_eq!(p.view_offset.z, 64.0f32.to_bits());
    assert!(!p.dormant);
    assert!(p.visible);
    assert!(!p.immune);
    assert_eq!(p.xhair_id, Some(5));
    assert_eq!(p, PlayerEntity::from_raw(&PlayerEntityRaw::from_bytes(&record()), Some(5)));
}

#[test]
fn from_raw_maps_codes() {
    let mut raw = PlayerEntityRaw::from_bytes(&record());
    for (code, team) in [(0u8, Team::Spec), (1, Team::Spec), (2, Team::T), (3, Team::CT), (9, Team::Spec)] {
        raw.team = code;
        assert_eq!(PlayerEntity::from_raw(&raw, None).team, team);
    }
    raw.move_state = 10;
    assert_eq!(PlayerEntity::from_raw(&raw, None).movement_state, MovementState::Observer);
    raw.move_state = 11;
    assert_eq!(PlayerEntity::from_raw(&raw, None).movement_state, MovementState::Custom);
    raw.move_state = 0;
    assert_eq!(PlayerEntity::from_raw(&raw, None).movement_state, MovementState::Stationary);
    raw.m_iHealth = 65537;
    assert_eq!(PlayerEntity::from_raw(&raw, None).health, 1);
    raw.m_iHealth = -1;
    assert_eq!(PlayerEntity::from_raw(&raw, None).health, 65535);
    raw.m_fFlags = -1;
    assert_eq!(PlayerEntity::from_raw(&raw, None).flags, u32::MAX);
    raw.dormant = 2;
    raw.m_bGunGameImmunity = 1;
    let p = PlayerEntity::from_raw(&raw, None);
    assert!(!p.dormant);
    assert!(p.immune);
}

fn player(team: Team) -> PlayerEntity {
    let mut p = PlayerEntity::from_raw_vec(&record(), None);
    p.team = team;
    p
}

#[test]
fn simple_predicates() {
    let mut p = player(Team::T);
    assert!(p.is_alive());
    p.health = 0;
    assert!(!p.is_alive());
    assert!(p.on_ground());
    p.flags = 2;
    assert!(!p.on_ground());
    assert!(p.is_enemy(&player(Team::CT)));
    assert!(player(Team::CT).is_enemy(&p));
    assert!(!p.is_enemy(&player(Team::T)));
    assert!(!p.is_immune());
    assert!(!p.is_dormant());
}

#[test]
fn is_moving_compares_each_component_with_zero() {
    let mut p = player(Team::T);
    assert!(p.is_moving());
    p.velocity_vector = Vector3 { x: 0, y: (-0.0f32).to_bits(), z: 0 };
    assert!(!p.is_moving());
    p.velocity_vector.z = f32::NAN.to_bits();
    assert!(p.is_moving());
    p.velocity_vector.z = f32::MIN_POSITIVE.to_bits();
    assert!(p.is_moving());
}

fn entities() -> Vec<PlayerEntity> {
    (1..MAX_PLAYERS).map(|_| player(Team::T)).collect()
}

#[test]
fn aiming_needs_a_slot_that_is_neither_dormant_nor_immune() {
    let mut es = entities();
    let mut local = player(Team::CT);
    assert!(!local.is_aiming_at_valid_enemy(&es));
    local.xhair_id = Some(0);
    assert!(!local.is_aiming_at_valid_enemy(&es));
    local.xhair_id = Some(MAX_PLAYERS);
    assert!(!local.is_aiming_at_valid_enemy(&es));
    local.xhair_id = Some(3);
    assert!(local.is_aiming_at_valid_enemy(&es));
    es[2].dormant = true;
    assert!(!local.is_aiming_at_valid_enemy(&es));
    es[2].dormant = false;
    es[2].immune = true;
    assert!(!local.is_aiming_at_valid_enemy(&es));
    local.xhair_id = Some(MAX_PLAYERS - 1);
    assert!(local.is_aiming_at_valid_enemy(&es));
    // The side is not looked at: a teammate counts as well.
    local.team = Team::T;
    assert!(local.is_aiming_at_valid_enemy(&es));
}

#[test]
fn labels() {
    assert_eq!(Team::Spec.label(), "Spec");
    assert_eq!(Team::T.label(), "T");
    assert_eq!(Team::CT.label(), "CT");
    assert_eq!(MovementFlags::OnGround.label(), "Still");
    assert_eq!(MovementFlags::JumpCrouch.label(), "Jump Crouch");
    assert_eq!(MovementFlags::Jump.label(), "Jump");
    assert_eq!(MovementFlags::Crouching.label(), "Crouching");
    assert_eq!(MovementFlags::Ladder.label(), "Ladder");
    assert_eq!(MovementFlags::Unknown.label(), "Unknown");
    assert_eq!(MovementState::Stationary.label(), "None");
    assert_eq!(MovementState::NoClip.label(), "No Clip");
    assert_eq!(MovementState::FlyGravity.label(), "FlyGravity");
    assert_eq!(MovementState::Custom.label(), "Custom");
}
