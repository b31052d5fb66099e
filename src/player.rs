use vstd::prelude::*;
use crate::elo::Elo;

verus! {

/// A named party with its rating.
#[derive(Debug, Clone)]
pub struct Player {
    pub name: String,
    pub elo: Elo,
}

impl Player {
    pub fn new(name: String, elo: Elo) -> (r: Player)
        ensures
            r.name == name,
            r.elo == elo,
    {
        Player { name, elo }
    }
}

} // verus!
