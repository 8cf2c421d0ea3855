use vstd::prelude::*;

verus! {

/// Offsets of the game's global objects inside its modules.
#[derive(Clone, Copy, Debug, PartialEq, Eq, Structural)]
pub struct Signatures {
    pub dw_client_state: u32,
    pub dw_client_state_state: u32,
    pub dw_entity_list: u32,
    pub dw_local_player: u32,
}

/// Offsets of networked fields inside a player record.
#[derive(Clone, Copy, Debug, PartialEq, Eq, Structural)]
pub struct Netvars {
    pub m_i_crosshair_id: u32,
}

/// The offsets table that the program downloads at start.
#[derive(Clone, Copy, Debug, PartialEq, Eq, Structural)]
pub struct Offsets {
    pub signatures: Signatures,
    pub netvars: Netvars,
}

} // verus!
