//! The player character: identity and current position inside the world.
use vstd::prelude::*;

verus! {

/// The session's player. `current_building_id` is `None` when the player
/// stands outside, and `current_room_id` is `None` outside any room.
#[derive(Debug, Clone)]
pub struct Player {
    pub id: u32,
    pub name: String,
    pub current_town_id: u32,
    pub current_building_id: Option<u32>,
    pub current_room_id: Option<u32>,
}

/// Mathematical image of a `Player`: the name as its character sequence.
pub struct PlayerView {
    pub id: u32,
    pub name: Seq<char>,
    pub current_town_id: u32,
    pub current_building_id: Option<u32>,
    pub current_room_id: Option<u32>,
}

impl View for Player {
    type V = PlayerView;

    open spec fn view(&self) -> PlayerView {
        PlayerView {
            id: self.id,
            name: self.name@,
            current_town_id: self.current_town_id,
            current_building_id: self.current_building_id,
            current_room_id: self.current_room_id,
        }
    }
}

impl Player {
    /// Assembles a player from its parts.
    pub fn new(
        id: u32,
        name: String,
        current_town_id: u32,
        current_building_id: Option<u32>,
        current_room_id: Option<u32>,
    ) -> (r: Self)
        ensures
            r@ == (PlayerView {
                id,
                name: name@,
                current_town_id,
                current_building_id,
                current_room_id,
            }),
    {
        Self { id, name, current_town_id, current_building_id, current_room_id }
    }
}

} // verus!
