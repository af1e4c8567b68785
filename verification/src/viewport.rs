//! The viewport: the main text pane, describing the player's surroundings,
//! the clock or the weather, depending on the current screen.
use vstd::prelude::*;
use vstd::string::StringExecFns;
use crate::player::Player;
use crate::save::{phase_name, weather_name};
use crate::states::StateType;
use crate::text::{push_char, spec_u32_dec, u32_to_string};
use crate::time::GameTime;
use crate::weather::GameWeather;
use crate::world::{
    spec_find_building, spec_find_room, spec_find_town, Building, Container, ContainerType, Npc,
    Room, World,
};

verus! {

/// The building names of a town, one per line.
pub open spec fn spec_building_list(bs: Seq<Building>) -> Seq<char>
    decreases bs.len(),
{
    if bs.len() == 0 {
        Seq::empty()
    } else {
        bs[0].name@ + seq!['\n'] + spec_building_list(bs.drop_first())
    }
}

/// The room ids of a building, one per line.
pub open spec fn spec_room_list(rs: Seq<Room>) -> Seq<char>
    decreases rs.len(),
{
    if rs.len() == 0 {
        Seq::empty()
    } else {
        spec_u32_dec(rs[0].id as int) + seq!['\n'] + spec_room_list(rs.drop_first())
    }
}

/// The names of the people in a room, one per line.
pub open spec fn spec_npc_list(ns: Seq<Npc>) -> Seq<char>
    decreases ns.len(),
{
    if ns.len() == 0 {
        Seq::empty()
    } else {
        ns[0].name@ + seq!['\n'] + spec_npc_list(ns.drop_first())
    }
}

/// The display name of a container kind.
pub open spec fn container_kind_name(c: ContainerType) -> Seq<char> {
    match c {
        ContainerType::Barrel => "Barrel"@,
        ContainerType::Crate => "Crate"@,
        ContainerType::Chest => "Chest"@,
    }
}

/// The kinds of the containers in a room, one per line.
pub open spec fn spec_container_list(cs: Seq<Container>) -> Seq<char>
    decreases cs.len(),
{
    if cs.len() == 0 {
        Seq::empty()
    } else {
        container_kind_name(cs[0].container_type) + seq!['\n'] + spec_container_list(
            cs.drop_first(),
        )
    }
}

/// The buildings pane: the current town's buildings, or a fallback message.
pub open spec fn spec_buildings_text(w: Option<World>, p: Option<Player>) -> Seq<char> {
    match p {
        None => "Failed to get buildings."@,
        Some(p) => match w {
            None => "Failed to get buildings."@,
            Some(w) => match spec_find_town(w.towns@, p.current_town_id) {
                None => "Failed to get buildings."@,
                Some(t) => spec_building_list(t.buildings@),
            },
        },
    }
}

/// The rooms pane: the current building's rooms, or a fallback message.
pub open spec fn spec_rooms_text(w: Option<World>, p: Option<Player>) -> Seq<char> {
    match p {
        None => "Failed to get rooms."@,
        Some(p) => match p.current_building_id {
            None => "Failed to get rooms."@,
            Some(bid) => match w {
                None => "Failed to get rooms."@,
                Some(w) => match spec_find_building(w.buildings@, bid) {
                    None => "Failed to get rooms."@,
                    Some(b) => spec_room_list(b.rooms@),
                },
            },
        },
    }
}

/// The people pane: who stands in the current room, or a fallback message.
pub open spec fn spec_npcs_text(w: Option<World>, p: Option<Player>) -> Seq<char> {
    match p {
        None => "Failed to get NPCs."@,
        Some(p) => match p.current_room_id {
            None => "Failed to get NPCs."@,
            Some(rid) => match w {
                None => "Failed to get NPCs."@,
                Some(w) => match spec_find_room(w.rooms@, rid) {
                    None => "Failed to get NPCs."@,
                    Some(rm) => spec_npc_list(rm.npcs@),
                },
            },
        },
    }
}

/// The containers pane: what stands in the current room, or a fallback
/// message.
pub open spec fn spec_containers_text(w: Option<World>, p: Option<Player>) -> Seq<char> {
    match p {
        None => "Failed to get containers."@,
        Some(p) => match p.current_room_id {
            None => "Failed to get containers."@,
            Some(rid) => match w {
                None => "Failed to get containers."@,
                Some(w) => match spec_find_room(w.rooms@, rid) {
                    None => "Failed to get containers."@,
                    Some(rm) => spec_container_list(rm.containers@),
                },
            },
        },
    }
}

/// The clock line, or a fallback when no clock is available.
pub open spec fn spec_time_text(t: Option<GameTime>) -> Seq<char> {
    match t {
        Some(t) => "Day: "@ + spec_u32_dec(t.day as int) + ", Phase: "@ + phase_name(t.phase)
            + ", Tick: "@ + spec_u32_dec(t.tick as int),
        None => "GameTime unavailable"@,
    }
}

/// The weather line, or a fallback when no weather is available.
pub open spec fn spec_weather_text(w: Option<GameWeather>) -> Seq<char> {
    match w {
        Some(w) => "The weather is "@ + weather_name(w.weather_type),
        None => "GameWeather unavailable"@,
    }
}

/// Builds the building list text of a town.
fn building_list(bs: &Vec<Building>) -> (r: String)
    ensures
        r@ == spec_building_list(bs@),
{
    let mut out = String::new();
    proof {
        assert(bs@.skip(0) =~= bs@);
    }
    let mut i: usize = 0;
    while i < bs.len()
        invariant
            i <= bs@.len(),
            spec_building_list(bs@) == out@ + spec_building_list(bs@.skip(i as int)),
        decreases bs@.len() - i,
    {
        let ghost pre = out@;
        proof {
            assert(bs@.skip(i as int).drop_first() =~= bs@.skip(i as int + 1));
            assert(bs@.skip(i as int)[0] == bs@[i as int]);
        }
        out.append(bs[i].name.as_str());
        push_char(&mut out, '\n');
        proof {
            assert(out@ =~= pre + (bs@[i as int].name@ + seq!['\n']));
            assert(pre + (bs@[i as int].name@ + seq!['\n'] + spec_building_list(
                bs@.skip(i as int + 1),
            )) =~= out@ + spec_building_list(bs@.skip(i as int + 1)));
        }
        i = i + 1;
    }
    proof {
        assert(spec_building_list(bs@.skip(bs@.len() as int)) =~= Seq::<char>::empty());
        assert(out@ + Seq::<char>::empty() =~= out@);
    }
    out
}

/// Builds the room list text of a building.
fn room_list(rs: &Vec<Room>) -> (r: String)
    ensures
        r@ == spec_room_list(rs@),
{
    let mut out = String::new();
    proof {
        assert(rs@.skip(0) =~= rs@);
    }
    let mut i: usize = 0;
    while i < rs.len()
        invariant
            i <= rs@.len(),
            spec_room_list(rs@) == out@ + spec_room_list(rs@.skip(i as int)),
        decreases rs@.len() - i,
    {
        let ghost pre = out@;
        proof {
            assert(rs@.skip(i as int).drop_first() =~= rs@.skip(i as int + 1));
            assert(rs@.skip(i as int)[0] == rs@[i as int]);
        }
        out.append(u32_to_string(rs[i].id).as_str());
        push_char(&mut out, '\n');
        proof {
            assert(out@ =~= pre + (spec_u32_dec(rs@[i as int].id as int) + seq!['\n']));
            assert(pre + (spec_u32_dec(rs@[i as int].id as int) + seq!['\n'] + spec_room_list(
                rs@.skip(i as int + 1),
            )) =~= out@ + spec_room_list(rs@.skip(i as int + 1)));
        }
        i = i + 1;
    }
    proof {
        assert(spec_room_list(rs@.skip(rs@.len() as int)) =~= Seq::<char>::empty());
        assert(out@ + Seq::<char>::empty() =~= out@);
    }
    out
}

/// Builds the people list text of a room.
fn npc_list(ns: &Vec<Npc>) -> (r: String)
    ensures
        r@ == spec_npc_list(ns@),
{
    let mut out = String::new();
    proof {
        assert(ns@.skip(0) =~= ns@);
    }
    let mut i: usize = 0;
    while i < ns.len()
        invariant
            i <= ns@.len(),
            spec_npc_list(ns@) == out@ + spec_npc_list(ns@.skip(i as int)),
        decreases ns@.len() - i,
    {
        let ghost pre = out@;
        proof {
            assert(ns@.skip(i as int).drop_first() =~= ns@.skip(i as int + 1));
            assert(ns@.skip(i as int)[0] == ns@[i as int]);
        }
        out.append(ns[i].name.as_str());
        push_char(&mut out, '\n');
        proof {
            assert(out@ =~= pre + (ns@[i as int].name@ + seq!['\n']));
            assert(pre + (ns@[i as int].name@ + seq!['\n'] + spec_npc_list(ns@.skip(i as int + 1)))
                =~= out@ + spec_npc_list(ns@.skip(i as int + 1)));
        }
        i = i + 1;
    }
    proof {
        assert(spec_npc_list(ns@.skip(ns@.len() as int)) =~= Seq::<char>::empty());
        assert(out@ + Seq::<char>::empty() =~= out@);
    }
    out
}

/// Builds the container list text of a room.
fn container_list(cs: &Vec<Container>) -> (r: String)
    ensures
        r@ == spec_container_list(cs@),
{
    let mut out = String::new();
    proof {
        assert(cs@.skip(0) =~= cs@);
    }
    let mut i: usize = 0;
    while i < cs.len()
        invariant
            i <= cs@.len(),
            spec_container_list(cs@) == out@ + spec_container_list(cs@.skip(i as int)),
        decreases cs@.len() - i,
    {
        let ghost pre = out@;
        proof {
            assert(cs@.skip(i as int).drop_first() =~= cs@.skip(i as int + 1));
            assert(cs@.skip(i as int)[0] == cs@[i as int]);
        }
        match cs[i].container_type {
            ContainerType::Barrel => out.append("Barrel"),
            ContainerType::Crate => out.append("Crate"),
            ContainerType::Chest => out.append("Chest"),
        }
        push_char(&mut out, '\n');
        proof {
            assert(out@ =~= pre + (container_kind_name(cs@[i as int].container_type)
                + seq!['\n']));
            assert(pre + (container_kind_name(cs@[i as int].container_type) + seq!['\n']
                + spec_container_list(cs@.skip(i as int + 1))) =~= out@ + spec_container_list(
                cs@.skip(i as int + 1),
            ));
        }
        i = i + 1;
    }
    proof {
        assert(spec_container_list(cs@.skip(cs@.len() as int)) =~= Seq::<char>::empty());
        assert(out@ + Seq::<char>::empty() =~= out@);
    }
    out
}

/// The viewport's panes.
pub struct Viewport {
    pub time: String,
    pub weather: String,
    pub town_name: String,
    pub location: String,
    pub room_id: String,
    pub list_of_buildings: String,
    pub list_of_rooms: String,
    pub list_of_npcs: String,
    pub list_of_containers: String,
}

impl Viewport {
    /// An empty viewport.
    pub fn new() -> (r: Self)
        ensures
            r.time@ == Seq::<char>::empty(),
            r.weather@ == Seq::<char>::empty(),
            r.town_name@ == Seq::<char>::empty(),
    {
        Self {
            time: String::new(),
            weather: String::new(),
            town_name: String::new(),
            location: String::new(),
            room_id: String::new(),
            list_of_buildings: String::new(),
            list_of_rooms: String::new(),
            list_of_npcs: String::new(),
            list_of_containers: String::new(),
        }
    }

    /// Recomputes the panes the current state shows: the surroundings while
    /// playing or choosing a destination, the clock line on the time
    /// screen, the weather line on the weather screen. Everything else
    /// keeps its old text.
    pub fn update(&mut self, managers: &crate::session::Managers)
        ensures
            ({
                let st = managers.state_manager.current_state;
                let w = managers.world_manager.world;
                let p = managers.world_manager.player;
                &&& (st == StateType::Game || st == StateType::Travel) ==> {
                    &&& final(self).town_name@ == crate::stats::spec_town_line(w, p)
                    &&& final(self).location@ == crate::stats::spec_location_line(w, p)
                    &&& final(self).room_id@ == crate::stats::spec_room_line(p)
                    &&& final(self).list_of_buildings@ == spec_buildings_text(w, p)
                    &&& final(self).list_of_rooms@ == spec_rooms_text(w, p)
                    &&& final(self).list_of_npcs@ == spec_npcs_text(w, p)
                    &&& final(self).list_of_containers@ == spec_containers_text(w, p)
                    &&& final(self).time == old(self).time
                    &&& final(self).weather == old(self).weather
                }
                &&& st == StateType::Time ==> final(self).time@ == spec_time_text(
                    managers.time_manager.time,
                )
                &&& st == StateType::Weather ==> final(self).weather@ == spec_weather_text(
                    managers.weather_manager.weather,
                )
                &&& !(st == StateType::Game || st == StateType::Travel || st == StateType::Time
                    || st == StateType::Weather) ==> *final(self) == *old(self)
            }),
    {
        match managers.state_manager.current_state {
            StateType::Game | StateType::Travel => {
                let w = &managers.world_manager.world;
                let p = &managers.world_manager.player;
                self.town_name = crate::stats::town_line(w, p);
                self.location = crate::stats::location_line(w, p);
                self.room_id = crate::stats::room_line(p);
                self.list_of_buildings = match p {
                    None => "Failed to get buildings.".to_owned(),
                    Some(p) => match w {
                        None => "Failed to get buildings.".to_owned(),
                        Some(wr) => match wr.get_town(p.current_town_id) {
                            None => "Failed to get buildings.".to_owned(),
                            Some(t) => building_list(&t.buildings),
                        },
                    },
                };
                self.list_of_rooms = match p {
                    None => "Failed to get rooms.".to_owned(),
                    Some(p) => match p.current_building_id {
                        None => "Failed to get rooms.".to_owned(),
                        Some(bid) => match w {
                            None => "Failed to get rooms.".to_owned(),
                            Some(wr) => match wr.get_building(bid) {
                                None => "Failed to get rooms.".to_owned(),
                                Some(b) => room_list(&b.rooms),
                            },
                        },
                    },
                };
                self.list_of_npcs = match p {
                    None => "Failed to get NPCs.".to_owned(),
                    Some(p) => match p.current_room_id {
                        None => "Failed to get NPCs.".to_owned(),
                        Some(rid) => match w {
                            None => "Failed to get NPCs.".to_owned(),
                            Some(wr) => match wr.get_room(rid) {
                                None => "Failed to get NPCs.".to_owned(),
                                Some(rm) => npc_list(&rm.npcs),
                            },
                        },
                    },
                };
                self.list_of_containers = match p {
                    None => "Failed to get containers.".to_owned(),
                    Some(p) => match p.current_room_id {
                        None => "Failed to get containers.".to_owned(),
                        Some(rid) => match w {
                            None => "Failed to get containers.".to_owned(),
                            Some(wr) => match wr.get_room(rid) {
                                None => "Failed to get containers.".to_owned(),
                                Some(rm) => container_list(&rm.containers),
                            },
                        },
                    },
                };
            },
            StateType::Time => {
                self.time = match &managers.time_manager.time {
                    Some(t) => {
                        let mut s = "Day: ".to_owned();
                        s.append(u32_to_string(t.day).as_str());
                        s.append(", Phase: ");
                        match t.phase {
                            crate::time::Phase::Dawn => {
                                s.append("Dawn");
                                proof {
                                    reveal_strlit("Dawn");
                                    assert("Dawn"@ =~= phase_name(crate::time::Phase::Dawn));
                                }
                            },
                            crate::time::Phase::Day => {
                                s.append("Day");
                                proof {
                                    reveal_strlit("Day");
                                    assert("Day"@ =~= phase_name(crate::time::Phase::Day));
                                }
                            },
                            crate::time::Phase::Dusk => {
                                s.append("Dusk");
                                proof {
                                    reveal_strlit("Dusk");
                                    assert("Dusk"@ =~= phase_name(crate::time::Phase::Dusk));
                                }
                            },
                            crate::time::Phase::Night => {
                                s.append("Night");
                                proof {
                                    reveal_strlit("Night");
                                    assert("Night"@ =~= phase_name(crate::time::Phase::Night));
                                }
                            },
                        }
                        s.append(", Tick: ");
                        s.append(u32_to_string(t.tick).as_str());
                        s
                    },
                    None => "GameTime unavailable".to_owned(),
                };
            },
            StateType::Weather => {
                self.weather = match &managers.weather_manager.weather {
                    Some(gw) => {
                        let mut s = "The weather is ".to_owned();
                        match gw.weather_type {
                            crate::weather::WeatherType::Sunny => {
                                s.append("Sunny");
                                proof {
                                    reveal_strlit("Sunny");
                                    assert("Sunny"@ =~= weather_name(
                                        crate::weather::WeatherType::Sunny,
                                    ));
                                }
                            },
                            crate::weather::WeatherType::Raining => {
                                s.append("Raining");
                                proof {
                                    reveal_strlit("Raining");
                                    assert("Raining"@ =~= weather_name(
                                        crate::weather::WeatherType::Raining,
                                    ));
                                }
                            },
                            crate::weather::WeatherType::Windy => {
                                s.append("Windy");
                                proof {
                                    reveal_strlit("Windy");
                                    assert("Windy"@ =~= weather_name(
                                        crate::weather::WeatherType::Windy,
                                    ));
                                }
                            },
                            crate::weather::WeatherType::Stormy => {
                                s.append("Stormy");
                                proof {
                                    reveal_strlit("Stormy");
                                    assert("Stormy"@ =~= weather_name(
                                        crate::weather::WeatherType::Stormy,
                                    ));
                                }
                            },
                            crate::weather::WeatherType::Snowing => {
                                s.append("Snowing");
                                proof {
                                    reveal_strlit("Snowing");
                                    assert("Snowing"@ =~= weather_name(
                                        crate::weather::WeatherType::Snowing,
                                    ));
                                }
                            },
                        }
                        s
                    },
                    None => "GameWeather unavailable".to_owned(),
                };
            },
            _ => {},
        }
    }
}

} // verus!
