use vstd::prelude::*;

verus! {

/// A feature of the program that can be switched on or off.
pub struct GameCheat {
    is_enabled: bool,
    name: String,
    description: String,
}

} // verus!
