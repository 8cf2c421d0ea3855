//! Decision logic of an external game client helper: the game's connection
//! states, the fixed layout of a player record read from the game's memory,
//! the checks that decide whether the trigger may fire, and the selection of
//! a loaded module by its file name.
pub mod constants;
pub mod context;
pub mod player;
pub mod raw;
pub mod trigger;
pub mod memory;
pub mod offsets;
pub mod cheat;
pub mod process;
