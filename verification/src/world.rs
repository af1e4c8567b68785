//! The immutable world description: towns owning buildings owning rooms,
//! with the people and containers inside them; name-to-id lookups over
//! those collections; and the manager that owns the loaded world, the
//! travel graph and the player.
use vstd::prelude::*;
use vstd::string::StrSliceExecFns;
use crate::text::str_eq;

verus! {

/// Kinds of building a town can hold.
#[derive(Debug, Clone, Copy, PartialEq, Eq, Structural)]
pub enum BuildingType {
    Residence,
    Shop,
    Tavern,
    Temple,
}

/// Sex of a non-player character.
#[derive(Debug, Clone, Copy, PartialEq, Eq, Structural)]
pub enum NpcSex {
    Male,
    Female,
    Unisex,
}

/// Race of a non-player character.
#[derive(Debug, Clone, Copy, PartialEq, Eq, Structural)]
pub enum NpcRace {
    Human,
    Elf,
}

/// Kinds of container a room can hold.
#[derive(Debug, Clone, Copy, PartialEq, Eq, Structural)]
pub enum ContainerType {
    Barrel,
    Crate,
    Chest,
}

/// A map coordinate pair.
#[derive(Debug, Clone, Copy, PartialEq, Eq, Structural)]
pub struct Coords {
    pub x: u32,
    pub y: u32,
}

/// A non-player character and where it stands.
#[derive(Debug, Clone)]
pub struct Npc {
    pub id: u32,
    pub name: String,
    pub sex: NpcSex,
    pub race: NpcRace,
    pub town_id: u32,
    pub building_id: u32,
    pub room_id: Option<u32>,
}

/// A container and where it stands.
#[derive(Debug, Clone)]
pub struct Container {
    pub id: u32,
    pub container_type: ContainerType,
    pub town_id: u32,
    pub building_id: u32,
    pub room_id: u32,
}

/// A room inside a building, with the people and containers in it.
#[derive(Debug, Clone)]
pub struct Room {
    pub id: u32,
    pub town_id: u32,
    pub building_id: u32,
    pub npcs: Vec<Npc>,
    pub containers: Vec<Container>,
}

/// A building inside a town, with its rooms.
#[derive(Debug, Clone)]
pub struct Building {
    pub id: u32,
    pub name: String,
    pub building_type: BuildingType,
    pub town_id: u32,
    pub coords: Coords,
    pub rooms: Vec<Room>,
}

/// A town, with its buildings.
#[derive(Debug, Clone)]
pub struct Town {
    pub id: u32,
    pub name: String,
    pub coords: Coords,
    pub number_of_buildings: u32,
    pub buildings: Vec<Building>,
}

/// The loaded world: the global entity collections, each entry carrying its
/// own id. Nested collections embed copies for traversal convenience.
#[derive(Debug, Clone)]
pub struct World {
    pub towns: Vec<Town>,
    pub buildings: Vec<Building>,
    pub rooms: Vec<Room>,
    pub npcs: Vec<Npc>,
    pub containers: Vec<Container>,
}

/// Entities that can be looked up by display name.
pub trait HasName {
    /// The entity's display name.
    spec fn spec_name(&self) -> Seq<char>;

    /// The entity's id.
    spec fn spec_id(&self) -> u32;

    /// Reads the display name.
    fn name(&self) -> (r: &str)
        ensures
            r@ == self.spec_name(),
    ;

    /// Reads the id.
    fn id(&self) -> (r: u32)
        ensures
            r == self.spec_id(),
    ;
}

impl HasName for Town {
    open spec fn spec_name(&self) -> Seq<char> {
        self.name@
    }

    open spec fn spec_id(&self) -> u32 {
        self.id
    }

    fn name(&self) -> (r: &str) {
        self.name.as_str()
    }

    fn id(&self) -> (r: u32) {
        self.id
    }
}

impl HasName for Building {
    open spec fn spec_name(&self) -> Seq<char> {
        self.name@
    }

    open spec fn spec_id(&self) -> u32 {
        self.id
    }

    fn name(&self) -> (r: &str) {
        self.name.as_str()
    }

    fn id(&self) -> (r: u32) {
        self.id
    }
}

/// The id of the first entity whose name is `name`, if any.
pub open spec fn spec_find_id_by_name<T: HasName>(items: Seq<T>, name: Seq<char>) -> Option<u32>
    decreases items.len(),
{
    if items.len() == 0 {
        None
    } else if items[0].spec_name() == name {
        Some(items[0].spec_id())
    } else {
        spec_find_id_by_name(items.drop_first(), name)
    }
}

/// Looks an entity id up by display name: a linear scan, first match wins.
pub fn find_id_by_name<T: HasName>(items: &Vec<T>, name: &str) -> (r: Option<u32>)
    ensures
        r == spec_find_id_by_name(items@, name@),
{
    proof {
        assert(items@.skip(0) =~= items@);
    }
    let mut i: usize = 0;
    while i < items.len()
        invariant
            i <= items@.len(),
            spec_find_id_by_name(items@, name@) == spec_find_id_by_name(
                items@.skip(i as int),
                name@,
            ),
        decreases items@.len() - i,
    {
        proof {
            assert(items@.skip(i as int).drop_first() =~= items@.skip(i as int + 1));
            assert(items@.skip(i as int)[0] == items@[i as int]);
        }
        if str_eq(items[i].name(), name) {
            return Some(items[i].id());
        }
        i = i + 1;
    }
    None
}

/// The first town with the given id, if any.
pub open spec fn spec_find_town(towns: Seq<Town>, id: u32) -> Option<Town>
    decreases towns.len(),
{
    if towns.len() == 0 {
        None
    } else if towns[0].id == id {
        Some(towns[0])
    } else {
        spec_find_town(towns.drop_first(), id)
    }
}

/// The first building with the given id, if any.
pub open spec fn spec_find_building(buildings: Seq<Building>, id: u32) -> Option<Building>
    decreases buildings.len(),
{
    if buildings.len() == 0 {
        None
    } else if buildings[0].id == id {
        Some(buildings[0])
    } else {
        spec_find_building(buildings.drop_first(), id)
    }
}

/// The first room with the given id, if any.
pub open spec fn spec_find_room(rooms: Seq<Room>, id: u32) -> Option<Room>
    decreases rooms.len(),
{
    if rooms.len() == 0 {
        None
    } else if rooms[0].id == id {
        Some(rooms[0])
    } else {
        spec_find_room(rooms.drop_first(), id)
    }
}

/// Owner of the loaded world, the travel graph built beside it, and the
/// player moving through it.
pub struct WorldManager {
    pub player: Option<crate::player::Player>,
    pub world: Option<World>,
    pub world_graph: Option<crate::travel::TravelGraph>,
}

impl WorldManager {
    /// A manager is well formed when the travel graph it holds, if any, is.
    pub open spec fn wf(&self) -> bool {
        match self.world_graph {
            Some(g) => g.wf(),
            None => true,
        }
    }

    /// Whether a travel graph is loaded.
    pub open spec fn has_graph(&self) -> bool {
        self.world_graph is Some
    }

    /// The loaded travel graph's location names, in node order; empty
    /// without a graph.
    pub open spec fn graph_names(&self) -> Seq<Seq<char>> {
        match self.world_graph {
            Some(g) => g.spec_names(),
            None => Seq::empty(),
        }
    }

    /// The loaded travel graph's edges; empty without a graph.
    pub open spec fn graph_edges_model(&self) -> Seq<(nat, nat, nat)> {
        match self.world_graph {
            Some(g) => g.spec_edges(),
            None => Seq::empty(),
        }
    }

    /// An empty manager: no player, no world, no travel graph.
    pub fn new() -> (r: Self)
        ensures
            r.player is None,
            r.world is None,
            !r.has_graph(),
            r.wf(),
    {
        Self { player: None, world: None, world_graph: None }
    }

    /// Drops everything the manager holds.
    pub fn clear(&mut self)
        ensures
            final(self).player is None,
            final(self).world is None,
            !final(self).has_graph(),
            final(self).wf(),
    {
        self.player = None;
        self.world = None;
        self.world_graph = None;
    }

    /// Installs a loaded world description and builds the travel graph from
    /// the edge-list text beside it. The player is left as it was.
    pub fn load_world(&mut self, world: World, graph_source: &str)
        ensures
            final(self).world == Some(world),
            final(self).player == old(self).player,
            final(self).has_graph(),
            final(self).wf(),
            crate::travel::spec_build(crate::travel::spec_lines(graph_source@)) == (
                final(self).graph_names(),
                final(self).graph_edges_model(),
            ),
    {
        self.world = Some(world);
        self.world_graph = Some(crate::travel::TravelGraph::build(graph_source));
    }

    /// Least travel time in ticks between two named locations; zero without
    /// a loaded graph, for unknown names, and for unreachable destinations.
    pub fn get_travel_time(&self, origin: &str, destination: &str) -> (r: u64)
        requires
            self.wf(),
        ensures
            self.has_graph() ==> r == crate::travel::spec_travel_time(
                self.graph_names(),
                self.graph_edges_model(),
                origin@,
                destination@,
            ),
            !self.has_graph() ==> r == 0,
    {
        match &self.world_graph {
            Some(g) => g.travel_time(origin, destination),
            None => 0,
        }
    }
}

impl World {
    /// Looks a town up by id.
    pub fn get_town(&self, id: u32) -> (r: Option<&Town>)
        ensures
            match r {
                Some(t) => spec_find_town(self.towns@, id) == Some(*t),
                None => spec_find_town(self.towns@, id) is None,
            },
    {
        proof {
            assert(self.towns@.skip(0) =~= self.towns@);
        }
        let mut i: usize = 0;
        while i < self.towns.len()
            invariant
                i <= self.towns@.len(),
                spec_find_town(self.towns@, id) == spec_find_town(
                    self.towns@.skip(i as int),
                    id,
                ),
            decreases self.towns@.len() - i,
        {
            proof {
                assert(self.towns@.skip(i as int).drop_first() =~= self.towns@.skip(i as int + 1));
                assert(self.towns@.skip(i as int)[0] == self.towns@[i as int]);
            }
            if self.towns[i].id == id {
                return Some(&self.towns[i]);
            }
            i = i + 1;
        }
        None
    }

    /// Looks a building up by id.
    pub fn get_building(&self, id: u32) -> (r: Option<&Building>)
        ensures
            match r {
                Some(b) => spec_find_building(self.buildings@, id) == Some(*b),
                None => spec_find_building(self.buildings@, id) is None,
            },
    {
        proof {
            assert(self.buildings@.skip(0) =~= self.buildings@);
        }
        let mut i: usize = 0;
        while i < self.buildings.len()
            invariant
                i <= self.buildings@.len(),
                spec_find_building(self.buildings@, id) == spec_find_building(
                    self.buildings@.skip(i as int),
                    id,
                ),
            decreases self.buildings@.len() - i,
        {
            proof {
                assert(self.buildings@.skip(i as int).drop_first() =~= self.buildings@.skip(
                    i as int + 1,
                ));
                assert(self.buildings@.skip(i as int)[0] == self.buildings@[i as int]);
            }
            if self.buildings[i].id == id {
                return Some(&self.buildings[i]);
            }
            i = i + 1;
        }
        None
    }

    /// Looks a room up by id.
    pub fn get_room(&self, id: u32) -> (r: Option<&Room>)
        ensures
            match r {
                Some(rm) => spec_find_room(self.rooms@, id) == Some(*rm),
                None => spec_find_room(self.rooms@, id) is None,
            },
    {
        proof {
            assert(self.rooms@.skip(0) =~= self.rooms@);
        }
        let mut i: usize = 0;
        while i < self.rooms.len()
            invariant
                i <= self.rooms@.len(),
                spec_find_room(self.rooms@, id) == spec_find_room(self.rooms@.skip(i as int), id),
            decreases self.rooms@.len() - i,
        {
            proof {
                assert(self.rooms@.skip(i as int).drop_first() =~= self.rooms@.skip(i as int + 1));
                assert(self.rooms@.skip(i as int)[0] == self.rooms@[i as int]);
            }
            if self.rooms[i].id == id {
                return Some(&self.rooms[i]);
            }
            i = i + 1;
        }
        None
    }
}

} // verus!
