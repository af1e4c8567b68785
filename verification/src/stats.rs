//! The stats pane: short lines describing the player and where it stands,
//! recomputed from the session each frame. The line builders are shared
//! with the viewport.
use vstd::prelude::*;
use vstd::string::StringExecFns;
use crate::player::Player;
use crate::states::StateType;
use crate::text::{spec_u32_dec, u32_to_string};
use crate::world::{spec_find_building, spec_find_town, World};

verus! {

/// Whether the stats pane is filled in the given state.
pub open spec fn spec_stats_shown(s: StateType) -> bool {
    match s {
        StateType::Game
        | StateType::GameSaveSuccess
        | StateType::GameSaveError
        | StateType::GameQuit
        | StateType::Time
        | StateType::Weather
        | StateType::Travel => true,
        _ => false,
    }
}

/// The player-id line.
pub open spec fn spec_player_id_line(p: Option<Player>) -> Seq<char> {
    match p {
        Some(p) => "Player ID: "@ + spec_u32_dec(p.id as int),
        None => "Failed to initialize player ID."@,
    }
}

/// The player-name line.
pub open spec fn spec_player_name_line(p: Option<Player>) -> Seq<char> {
    match p {
        Some(p) => "Player Name: "@ + p.name@,
        None => "Failed to initialize player name"@,
    }
}

/// The current-town line, with a fallback message for a missing player,
/// world or town.
pub open spec fn spec_town_line(w: Option<World>, p: Option<Player>) -> Seq<char> {
    match p {
        None => "Error getting town info!"@,
        Some(p) => match w {
            None => "Failed to find town name for town ID: "@ + spec_u32_dec(
                p.current_town_id as int,
            ),
            Some(w) => match spec_find_town(w.towns@, p.current_town_id) {
                Some(t) => "Current Town: "@ + t.name@ + "."@,
                None => "Failed to find town name for town ID: "@ + spec_u32_dec(
                    p.current_town_id as int,
                ),
            },
        },
    }
}

/// The location line: the building the player stands in, outside, or a
/// fallback message.
pub open spec fn spec_location_line(w: Option<World>, p: Option<Player>) -> Seq<char> {
    match p {
        None => "Error getting location info!"@,
        Some(p) => match p.current_building_id {
            None => "Location: Outside"@,
            Some(bid) => match w {
                None => "Failed to find building name for building ID: "@ + spec_u32_dec(
                    bid as int,
                ),
                Some(w) => match spec_find_building(w.buildings@, bid) {
                    Some(b) => "Location: "@ + b.name@,
                    None => "Failed to find building name for building ID: "@ + spec_u32_dec(
                        bid as int,
                    ),
                },
            },
        },
    }
}

/// The room line.
pub open spec fn spec_room_line(p: Option<Player>) -> Seq<char> {
    match p {
        None => "Error getting room info!"@,
        Some(p) => match p.current_room_id {
            Some(rid) => "Room: "@ + spec_u32_dec(rid as int),
            None => "Room: None"@,
        },
    }
}

/// Builds the current-town line.
pub fn town_line(w: &Option<World>, p: &Option<Player>) -> (r: String)
    ensures
        r@ == spec_town_line(*w, *p),
{
    match p {
        None => "Error getting town info!".to_owned(),
        Some(p) => {
            match w {
                None => {
                    let mut s = "Failed to find town name for town ID: ".to_owned();
                    s.append(u32_to_string(p.current_town_id).as_str());
                    s
                },
                Some(w) => match w.get_town(p.current_town_id) {
                    Some(t) => {
                        let mut s = "Current Town: ".to_owned();
                        s.append(t.name.as_str());
                        s.append(".");
                        s
                    },
                    None => {
                        let mut s = "Failed to find town name for town ID: ".to_owned();
                        s.append(u32_to_string(p.current_town_id).as_str());
                        s
                    },
                },
            }
        },
    }
}

/// Builds the location line.
pub fn location_line(w: &Option<World>, p: &Option<Player>) -> (r: String)
    ensures
        r@ == spec_location_line(*w, *p),
{
    match p {
        None => "Error getting location info!".to_owned(),
        Some(p) => match p.current_building_id {
            None => "Location: Outside".to_owned(),
            Some(bid) => match w {
                None => {
                    let mut s = "Failed to find building name for building ID: ".to_owned();
                    s.append(u32_to_string(bid).as_str());
                    s
                },
                Some(w) => match w.get_building(bid) {
                    Some(b) => {
                        let mut s = "Location: ".to_owned();
                        s.append(b.name.as_str());
                        s
                    },
                    None => {
                        let mut s = "Failed to find building name for building ID: ".to_owned();
                        s.append(u32_to_string(bid).as_str());
                        s
                    },
                },
            },
        },
    }
}

/// Builds the room line.
pub fn room_line(p: &Option<Player>) -> (r: String)
    ensures
        r@ == spec_room_line(*p),
{
    match p {
        None => "Error getting room info!".to_owned(),
        Some(p) => match p.current_room_id {
            Some(rid) => {
                let mut s = "Room: ".to_owned();
                s.append(u32_to_string(rid).as_str());
                s
            },
            None => "Room: None".to_owned(),
        },
    }
}

/// The stats pane's lines.
pub struct Stats {
    pub player_id: String,
    pub player_name: String,
    pub town_name: String,
    pub location: String,
    pub room_id: String,
}

impl Stats {
    /// An empty pane.
    pub fn new() -> (r: Self)
        ensures
            r.player_id@ == Seq::<char>::empty(),
            r.player_name@ == Seq::<char>::empty(),
            r.town_name@ == Seq::<char>::empty(),
            r.location@ == Seq::<char>::empty(),
            r.room_id@ == Seq::<char>::empty(),
    {
        Self {
            player_id: String::new(),
            player_name: String::new(),
            town_name: String::new(),
            location: String::new(),
            room_id: String::new(),
        }
    }

    /// Recomputes the lines from the session in the states that show the
    /// pane; elsewhere the pane keeps its old text.
    pub fn update(&mut self, managers: &crate::session::Managers)
        ensures
            spec_stats_shown(managers.state_manager.current_state) ==> {
                &&& final(self).player_id@ == spec_player_id_line(
                    managers.world_manager.player,
                )
                &&& final(self).player_name@ == spec_player_name_line(
                    managers.world_manager.player,
                )
                &&& final(self).town_name@ == spec_town_line(
                    managers.world_manager.world,
                    managers.world_manager.player,
                )
                &&& final(self).location@ == spec_location_line(
                    managers.world_manager.world,
                    managers.world_manager.player,
                )
                &&& final(self).room_id@ == spec_room_line(managers.world_manager.player)
            },
            !spec_stats_shown(managers.state_manager.current_state) ==> *final(self) == *old(self),
    {
        match managers.state_manager.current_state {
            StateType::Game
            | StateType::GameSaveSuccess
            | StateType::GameSaveError
            | StateType::GameQuit
            | StateType::Time
            | StateType::Weather
            | StateType::Travel => {
                match &managers.world_manager.player {
                    Some(p) => {
                        let mut s = "Player ID: ".to_owned();
                        s.append(u32_to_string(p.id).as_str());
                        self.player_id = s;
                        let mut n = "Player Name: ".to_owned();
                        n.append(p.name.as_str());
                        self.player_name = n;
                    },
                    None => {
                        self.player_id = "Failed to initialize player ID.".to_owned();
                        self.player_name = "Failed to initialize player name".to_owned();
                    },
                }
                self.town_name = town_line(
                    &managers.world_manager.world,
                    &managers.world_manager.player,
                );
                self.location = location_line(
                    &managers.world_manager.world,
                    &managers.world_manager.player,
                );
                self.room_id = room_line(&managers.world_manager.player);
            },
            _ => {},
        }
    }
}

} // verus!
