use vstd::prelude::*;

use crate::offsets::Offsets;

verus! {

/// What the program knows of a running game: its offsets table, its
/// connection state and the load addresses of its two modules.
pub struct Context {
    pub name: String,
    pub offsets: Offsets,
    pub state: GameState,
    pub client: u32,
    pub engine: u32,
}

/// A module of the game, with the address it is loaded at.
#[derive(Clone, Copy, Debug, PartialEq, Eq, Structural)]
pub enum Module {
    Client(u32),
    Engine(u32),
}

impl Module {
    /// The load address of the module.
    pub open spec fn base(self) -> u32 {
        match self {
            Module::Client(addr) => addr,
            Module::Engine(addr) => addr,
        }
    }
}

impl Context {
    /// The address `offset` bytes past the load address of `module`.
    pub fn get_address(self, module: Module, offset: u32) -> (addr: u32)
        requires
            module.base() + offset <= u32::MAX,
        ensures
            addr == module.base() + offset,
            module matches Module::Client(a) ==> addr == a + offset,
            module matches Module::Engine(a) ==> addr == a + offset,
    {
        let module = match module {
            Module::Client(addr) => addr,
            Module::Engine(addr) => addr,
        };
        module + offset
    }
}

/// A player addressed in the game's memory, read through the offsets table.
pub struct PlayerEntityNon {
    base_address: u32,
    offsets: Offsets,
}

/// Connection state of the game client.
#[derive(Clone, Copy, Debug, PartialEq, Eq, Structural)]
pub enum GameState {
    NoState,
    Challenge,
    Connected,
    New,
    PreSpawn,
    Spawn,
    FullConnected,
    ChangeLevel,
}

impl GameState {
    /// The number the game uses for this state.
    pub open spec fn discriminant(self) -> u32 {
        match self {
            GameState::NoState => 0,
            GameState::Challenge => 1,
            GameState::Connected => 2,
            GameState::New => 3,
            GameState::PreSpawn => 4,
            GameState::Spawn => 5,
            GameState::FullConnected => 6,
            GameState::ChangeLevel => 7,
        }
    }

    /// The state that the game encodes as `val`.
    pub open spec fn spec_from_u32(val: u32) -> GameState {
        if val == 0 {
            GameState::NoState
        } else if val == 1 {
            GameState::Challenge
        } else if val == 2 {
            GameState::Connected
        } else if val == 3 {
            GameState::New
        } else if val == 4 {
            GameState::PreSpawn
        } else if val == 5 {
            GameState::Spawn
        } else if val == 6 {
            GameState::FullConnected
        } else {
            GameState::ChangeLevel
        }
    }

    /// Decodes a state number; only the numbers 0 to 7 are states, the others
    /// are refused by the `requires`.
    pub fn from_u32(val: u32) -> (state: GameState)
        requires
            val <= 7,
        ensures
            state == GameState::spec_from_u32(val),
            state.discriminant() == val,
    {
        match val {
            0 => GameState::NoState,
            1 => GameState::Challenge,
            2 => GameState::Connected,
            3 => GameState::New,
            4 => GameState::PreSpawn,
            5 => GameState::Spawn,
            6 => GameState::FullConnected,
            _ => GameState::ChangeLevel,
        }
    }
}

impl GameState {
    /// The text under which a state is shown.
    pub open spec fn spec_label(self) -> Seq<char> {
        match self {
            GameState::NoState => "None"@,
            GameState::Challenge => "Challenge"@,
            GameState::Connected => "Connected"@,
            GameState::New => "New"@,
            GameState::PreSpawn => "Pre Spawn"@,
            GameState::Spawn => "Spawn"@,
            GameState::FullConnected => "Full Connected"@,
            GameState::ChangeLevel => "Change Level"@,
        }
    }

    /// The text under which a state is shown.
    pub fn label(&self) -> (text: &'static str)
        ensures
            text@ == self.spec_label(),
    {
        match self {
            GameState::NoState => "None",
            GameState::Challenge => "Challenge",
            GameState::Connected => "Connected",
            GameState::New => "New",
            GameState::PreSpawn => "Pre Spawn",
            GameState::Spawn => "Spawn",
            GameState::FullConnected => "Full Connected",
            GameState::ChangeLevel => "Change Level",
        }
    }
}

/// A state number decodes to the state the game numbers so, and each state
/// has a number of its own.
pub proof fn lemma_from_u32_discriminant(val: u32, state: GameState)
    requires
        val <= 7,
    ensures
        GameState::spec_from_u32(val).discriminant() == val,
        GameState::spec_from_u32(state.discriminant()) == state,
        state.discriminant() <= 7,
{
}

} // verus!
