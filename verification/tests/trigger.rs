use cs_trigger::constants::MAX_PLAYERS;
use cs_trigger::player::{PlayerEntity, Team};
use cs_trigger::raw::PLAYER_ENTITY_RAW_SIZE;
use cs_trigger::trigger::{Trigger, TriggerAction};

fn player(flags: u32, xhair_id: Option<u32>) -> PlayerEntity {
    let mut p = PlayerEntity::from_raw_vec(&vec![0u8; PLAYER_ENTITY_RAW_SIZE], xhair_id);
    p.flags = flags;
    p.team = Team::T;
    p
}

#[test]
fn toggle_decides_in_order() {
    let mut es: Vec<PlayerEntity> = (1..MAX_PLAYERS).map(|_| player(0, None)).collect();
    assert_eq!(Trigger::toggle(&player(1, None), &es), TriggerAction::NotAimingAtValidEnemy);
    assert_eq!(Trigger::toggle(&player(1, Some(4)), &es), TriggerAction::Ready);
    assert_eq!(Trigger::toggle(&player(0, Some(4)), &es), TriggerAction::NotOnGround);
    es[3].immune = true;
    assert_eq!(Trigger::toggle(&player(0, Some(4)), &es), TriggerAction::NotAimingAtValidEnemy);
}

#[test]
fn key_is_down_when_the_high_bit_is_set() {
    assert!(Trigger::is_key_down(i16::MIN));
    assert!(Trigger::is_key_down(0x8001u16 as i16));
    assert!(!Trigger::is_key_down(1));
    assert!(!Trigger::is_key_down(0));
    assert!(!Trigger::is_key_down(i16::MAX));
}
