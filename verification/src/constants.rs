use vstd::prelude::*;

verus! {

/// Number of player slots in the game's entity list (slot 0 is the world).
pub const MAX_PLAYERS: u32 = 64;

} // verus!
