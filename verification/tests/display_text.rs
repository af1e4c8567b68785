use town_explorer::player::Player;
use town_explorer::session::{Managers, UIComponents};
use town_explorer::states::StateType;
use town_explorer::text::{str_eq, str_to_chars, u32_to_string};
use town_explorer::time::{phase_of_tick, GameTime};
use town_explorer::weather::{GameWeather, WeatherType};
use town_explorer::world::{
    find_id_by_name, Building, BuildingType, Container, ContainerType, Coords, Npc, NpcRace,
    NpcSex, Room, Town, World,
};

fn small_world() -> World {
    let room = Room {
        id: 77,
        town_id: 1,
        building_id: 10,
        npcs: vec![Npc {
            id: 5,
            name: "Maeve".to_string(),
            sex: NpcSex::Female,
            race: NpcRace::Elf,
            town_id: 1,
            building_id: 10,
            room_id: Some(77),
        }],
        containers: vec![Container {
            id: 8,
            container_type: ContainerType::Chest,
            town_id: 1,
            building_id: 10,
            room_id: 77,
        }],
    };
    let smithy = Building {
        id: 10,
        name: "Smithy".to_string(),
        building_type: BuildingType::Shop,
        town_id: 1,
        coords: Coords { x: 1, y: 1 },
        rooms: vec![room.clone()],
    };
    let town = Town {
        id: 1,
        name: "Oakvale".to_string(),
        coords: Coords { x: 0, y: 0 },
        number_of_buildings: 1,
        buildings: vec![smithy.clone()],
    };
    World {
        towns: vec![town],
        buildings: vec![smithy],
        rooms: vec![room],
        npcs: Vec::new(),
        containers: Vec::new(),
    }
}

fn playing_session() -> Managers {
    let mut managers = Managers::new();
    managers.state_manager.current_state = StateType::Game;
    managers.world_manager.player = Some(Player::new(
        666,
        "Hero".to_string(),
        1,
        Some(10),
        Some(77),
    ));
    managers
        .world_manager
        .load_world(small_world(), "\"A\" -- \"B\" [label=\"1 mi / 1 gold\"]");
    managers
}

#[test]
fn u32_rendering() {
    assert_eq!(u32_to_string(0), "0");
    assert_eq!(u32_to_string(907), "907");
    assert_eq!(u32_to_string(u32::MAX), "4294967295");
}

#[test]
fn string_helpers() {
    assert!(str_eq("abc", "abc"));
    assert!(!str_eq("abc", "abd"));
    assert!(!str_eq("abc", "ab"));
    assert_eq!(str_to_chars("hi!"), vec!['h', 'i', '!']);
}

#[test]
fn find_ids_by_name() {
    let w = small_world();
    assert_eq!(find_id_by_name(&w.towns, "Oakvale"), Some(1));
    assert_eq!(find_id_by_name(&w.towns, "Nowhere"), None);
    assert_eq!(find_id_by_name(&w.buildings, "Smithy"), Some(10));
}

#[test]
fn stats_lines_for_playing_session() {
    let managers = playing_session();
    let mut ui = UIComponents::new();
    ui.stats.update(&managers);
    assert_eq!(ui.stats.player_id, "Player ID: 666");
    assert_eq!(ui.stats.player_name, "Player Name: Hero");
    assert_eq!(ui.stats.town_name, "Current Town: Oakvale.");
    assert_eq!(ui.stats.location, "Location: Smithy");
    assert_eq!(ui.stats.room_id, "Room: 77");
}

#[test]
fn stats_fallbacks_without_player() {
    let mut managers = Managers::new();
    managers.state_manager.current_state = StateType::Game;
    let mut ui = UIComponents::new();
    ui.stats.update(&managers);
    assert_eq!(ui.stats.player_id, "Failed to initialize player ID.");
    assert_eq!(ui.stats.town_name, "Error getting town info!");
    assert_eq!(ui.stats.location, "Error getting location info!");
    assert_eq!(ui.stats.room_id, "Error getting room info!");
}

#[test]
fn stats_reports_missing_town() {
    let mut managers = playing_session();
    if let Some(p) = managers.world_manager.player.as_mut() {
        p.current_town_id = 999;
    }
    let mut ui = UIComponents::new();
    ui.stats.update(&managers);
    assert_eq!(
        ui.stats.town_name,
        "Failed to find town name for town ID: 999"
    );
}

#[test]
fn viewport_lists_surroundings() {
    let managers = playing_session();
    let mut ui = UIComponents::new();
    ui.viewport.update(&managers);
    assert_eq!(ui.viewport.town_name, "Current Town: Oakvale.");
    assert_eq!(ui.viewport.location, "Location: Smithy");
    assert_eq!(ui.viewport.list_of_buildings, "Smithy\n");
    assert_eq!(ui.viewport.list_of_rooms, "77\n");
    assert_eq!(ui.viewport.list_of_npcs, "Maeve\n");
    assert_eq!(ui.viewport.list_of_containers, "Chest\n");
}

#[test]
fn viewport_time_and_weather_lines() {
    let mut managers = playing_session();
    managers.state_manager.current_state = StateType::Time;
    managers.time_manager.start(GameTime {
        tick: 451,
        day: 3,
        phase: phase_of_tick(451),
    });
    let mut ui = UIComponents::new();
    ui.viewport.update(&managers);
    assert_eq!(ui.viewport.time, "Day: 3, Phase: Dusk, Tick: 451");

    managers.state_manager.current_state = StateType::Weather;
    managers.weather_manager.start(GameWeather {
        weather_type: WeatherType::Snowing,
    });
    ui.viewport.update(&managers);
    assert_eq!(ui.viewport.weather, "The weather is Snowing");
}

#[test]
fn viewport_unavailable_lines() {
    let mut managers = Managers::new();
    managers.state_manager.current_state = StateType::Time;
    let mut ui = UIComponents::new();
    ui.viewport.update(&managers);
    assert_eq!(ui.viewport.time, "GameTime unavailable");
    managers.state_manager.current_state = StateType::Weather;
    ui.viewport.update(&managers);
    assert_eq!(ui.viewport.weather, "GameWeather unavailable");
}

#[test]
fn popup_titles_follow_state() {
    let mut ui = UIComponents::new();
    ui.popup.update(StateType::Name);
    assert!(ui.popup.display);
    assert_eq!(ui.popup.title, "New Game");
    ui.popup.update(StateType::GameSaveSuccess);
    assert_eq!(ui.popup.title, "Game Saved");
    ui.popup.update(StateType::GameSaveError);
    assert_eq!(ui.popup.title, "Save Error!");
    ui.popup.update(StateType::GameLoadError);
    assert_eq!(ui.popup.title, "Load Error!");
    ui.popup.update(StateType::GameQuit);
    assert_eq!(ui.popup.title, "Quit Game");
    ui.popup.update(StateType::Game);
    assert!(!ui.popup.display);
    assert_eq!(ui.popup.title, "");
}

#[test]
fn world_manager_without_graph_travels_nowhere() {
    let managers = Managers::new();
    assert_eq!(managers.world_manager.get_travel_time("A", "B"), 0);
}
