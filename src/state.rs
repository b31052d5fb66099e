use vstd::prelude::*;
use crate::elo::{code_of, Elo, DEFAULT_RATING};
use crate::game::Event;
use crate::player::Player;
use crate::text::same_text;

verus! {

/// The decisions around the store of ratings and settled matches.
pub struct State {}

/// Where the store keeps its data.
#[derive(Debug, Clone, PartialEq, Eq)]
pub enum Storage {
    /// Nothing is kept past the run.
    Memory,
    /// A database file at this path.
    File(String),
}

/// One settled match as the store records it.
#[derive(Debug, Clone, PartialEq, Eq)]
pub struct Settlement {
    /// `1` or `2` for the winning side, `3` for a draw.
    pub outcome: u32,
    pub one: String,
    pub two: String,
}

impl State {
    /// The word `memory` asks for a store that keeps nothing; anything else
    /// is the path of a database file.
    pub fn storage_for(file_db: &String) -> (r: Storage)
        ensures
            file_db@ == "memory"@ ==> r == Storage::Memory,
            file_db@ != "memory"@ ==> r == Storage::File(*file_db),
    {
        if same_text(file_db.as_str(), "memory") {
            Storage::Memory
        } else {
            Storage::File(file_db.clone())
        }
    }

    /// The party that a lookup by `name` found, or a new one rated 1000 when
    /// the lookup found nothing or failed.
    pub fn player_or_default(name: &String, found: Option<Player>) -> (r: Player)
        ensures
            found matches Some(p) ==> r == p,
            found is None ==> r.name == *name && r.elo.rating == DEFAULT_RATING,
    {
        match found {
            Some(p) => p,
            None => Player::new(name.clone(), Elo::new()),
        }
    }

    /// The record that an event leaves in the store: only a decided match
    /// leaves one.
    pub fn settlement(event: &Event) -> (r: Option<Settlement>)
        ensures
            match *event {
                Event::Decided(w, one, two) => r == Some(
                    Settlement { outcome: code_of(w), one, two },
                ),
                _ => r is None,
            },
    {
        match event {
            Event::Decided(w, one, two) => {
                let outcome: u32 = u32::from(*w);
                Some(Settlement { outcome, one: one.clone(), two: two.clone() })
            },
            _ => None,
        }
    }
}

} // verus!
