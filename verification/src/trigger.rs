use vstd::prelude::*;

use crate::constants::MAX_PLAYERS;
use crate::player::{lemma_on_ground, PlayerEntity};

verus! {

/// The trigger: it clicks while the crosshair rests on a valid enemy, the
/// local player stands on the ground and the trigger key is held.
pub struct Trigger;

/// What the trigger decides from the game's state before the key is read.
#[derive(Clone, Copy, Debug, PartialEq, Eq, Structural)]
pub enum TriggerAction {
    /// The crosshair is not on a valid enemy: do nothing.
    NotAimingAtValidEnemy,
    /// The local player is in the air: do nothing.
    NotOnGround,
    /// Click if the trigger key is held.
    Ready,
}

impl Trigger {
    /// The decision for a local player and the players of the entity list.
    pub open spec fn spec_toggle(local_player: PlayerEntity, entities: Seq<PlayerEntity>) -> TriggerAction {
        if !local_player.spec_is_aiming_at_valid_enemy(entities) {
            TriggerAction::NotAimingAtValidEnemy
        } else if !local_player.spec_on_ground() {
            TriggerAction::NotOnGround
        } else {
            TriggerAction::Ready
        }
    }

    /// Decides whether the trigger may click: only when the crosshair rests on
    /// a valid enemy and the local player stands on the ground.
    pub fn toggle(local_player: &PlayerEntity, entities: &[PlayerEntity]) -> (action: TriggerAction)
        requires
            local_player.aims_at_slot() ==> local_player.aimed_index() < entities@.len(),
        ensures
            action == Trigger::spec_toggle(*local_player, entities@),
            action == TriggerAction::Ready <==> local_player.spec_is_aiming_at_valid_enemy(entities@)
                && local_player.spec_on_ground(),
    {
        if !local_player.is_aiming_at_valid_enemy(entities) {
            return TriggerAction::NotAimingAtValidEnemy;
        }
        if !local_player.on_ground() {
            return TriggerAction::NotOnGround;
        }
        TriggerAction::Ready
    }

    /// Whether an asynchronous key state reports the key as held: its most
    /// significant bit (`0x8000`) is set, that is, the state is negative.
    pub fn is_key_down(key_state: i16) -> (down: bool)
        ensures
            down == (key_state & i16::MIN != 0),
            down == (key_state < 0),
    {
        assert((key_state & i16::MIN != 0) == (key_state < 0)) by (bit_vector);
        key_state & i16::MIN != 0
    }
}

/// With the crosshair on slot `id` (`1 <= id < MAX_PLAYERS`), the trigger is
/// ready exactly when the player of that slot, `entities[id - 1]`, is neither
/// dormant nor immune and bit 0 of the local player's flags (on the ground)
/// is set, whatever its other flag bits; with no slot under the crosshair it
/// never is.
pub proof fn lemma_trigger_ready(local: PlayerEntity, entities: Seq<PlayerEntity>, id: u32)
    requires
        local.xhair_id == Some(id),
        1 <= id < MAX_PLAYERS,
        id - 1 < entities.len(),
    ensures
        (Trigger::spec_toggle(local, entities) == TriggerAction::Ready) == (!entities[id - 1].dormant
            && !entities[id - 1].immune && local.flags % 2 == 1),
        (Trigger::spec_toggle(local, entities) == TriggerAction::NotOnGround) == (
        !entities[id - 1].dormant && !entities[id - 1].immune && local.flags % 2 == 0),
        Trigger::spec_toggle(PlayerEntity { xhair_id: None, ..local }, entities)
            == TriggerAction::NotAimingAtValidEnemy,
{
    lemma_on_ground(local);
}

} // verus!
