use town_explorer::events::{EventHandler, InputEvent, Outcome};
use town_explorer::save::parse_save;
use town_explorer::session::{Managers, UIComponents};
use town_explorer::states::StateType;
use town_explorer::time::Phase;
use town_explorer::world::{Building, BuildingType, Coords, Town, World};

fn tiny_world() -> World {
    let smithy = Building {
        id: 10,
        name: "Smithy".to_string(),
        building_type: BuildingType::Shop,
        town_id: 1,
        coords: Coords { x: 1, y: 1 },
        rooms: Vec::new(),
    };
    let towns = vec![
        Town {
            id: 1,
            name: "Oakvale".to_string(),
            coords: Coords { x: 0, y: 0 },
            number_of_buildings: 1,
            buildings: vec![smithy.clone()],
        },
        Town {
            id: 2,
            name: "Ironforge".to_string(),
            coords: Coords { x: 5, y: 5 },
            number_of_buildings: 0,
            buildings: Vec::new(),
        },
    ];
    World {
        towns,
        buildings: vec![smithy],
        rooms: Vec::new(),
        npcs: Vec::new(),
        containers: Vec::new(),
    }
}

const GRAPH: &str = "\"Oakvale\" -- \"Ironforge\" [label=\"5 mi / 2 gold\"]";

fn started_session() -> (Managers, UIComponents) {
    let mut managers = Managers::new();
    let mut ui = UIComponents::new();
    // main menu: choose "New Game"
    assert!(matches!(
        EventHandler::handle(&mut managers, &mut ui, InputEvent::Confirm),
        Outcome::Continue
    ));
    assert_eq!(managers.state_manager.current_state, StateType::Name);
    for c in "Hero".chars() {
        EventHandler::handle(&mut managers, &mut ui, InputEvent::TextInput(c));
    }
    EventHandler::handle(&mut managers, &mut ui, InputEvent::Confirm);
    assert_eq!(managers.state_manager.current_state, StateType::NameConfirm);
    assert!(matches!(
        EventHandler::handle(&mut managers, &mut ui, InputEvent::Confirm),
        Outcome::InitRequested
    ));
    let started =
        EventHandler::init_completed(&mut managers, &mut ui, Some(tiny_world()), Some(GRAPH));
    assert!(started);
    (managers, ui)
}

#[test]
fn new_game_flow_creates_player_and_starts_simulations() {
    let (managers, ui) = started_session();
    assert_eq!(managers.state_manager.current_state, StateType::Game);
    let p = managers.world_manager.player.as_ref().unwrap();
    assert_eq!(p.name, "Hero");
    assert_eq!(p.id, 666);
    assert!(managers.time_manager.running);
    assert!(managers.weather_manager.running);
    assert_eq!(managers.time_manager.time.as_ref().unwrap().day, 1);
    assert_eq!(ui.popup.input, "");
}

#[test]
fn name_entry_edits_buffer() {
    let mut managers = Managers::new();
    let mut ui = UIComponents::new();
    EventHandler::handle(&mut managers, &mut ui, InputEvent::Confirm);
    for c in "Abc".chars() {
        EventHandler::handle(&mut managers, &mut ui, InputEvent::TextInput(c));
    }
    assert_eq!(ui.popup.input, "Abc");
    EventHandler::handle(&mut managers, &mut ui, InputEvent::Backspace);
    assert_eq!(ui.popup.input, "Ab");
    EventHandler::handle(&mut managers, &mut ui, InputEvent::Cancel);
    assert_eq!(ui.popup.input, "");
    assert_eq!(managers.state_manager.current_state, StateType::MainMenu);
}

#[test]
fn menu_navigation_stays_in_bounds() {
    let mut managers = Managers::new();
    let mut ui = UIComponents::new();
    // main menu has three options
    assert_eq!(ui.menu.menu_options.len(), 3);
    EventHandler::handle(&mut managers, &mut ui, InputEvent::NavigateUp);
    assert_eq!(ui.menu.selected_index, 0);
    for _ in 0..10 {
        EventHandler::handle(&mut managers, &mut ui, InputEvent::NavigateDown);
        assert!(ui.menu.selected_index < ui.menu.menu_options.len());
    }
    assert_eq!(ui.menu.selected_index, 2);
    EventHandler::handle(&mut managers, &mut ui, InputEvent::NavigateUp);
    assert_eq!(ui.menu.selected_index, 1);
    EventHandler::handle(&mut managers, &mut ui, InputEvent::SelectMenuIndex(9));
    assert_eq!(ui.menu.selected_index, 1);
    EventHandler::handle(&mut managers, &mut ui, InputEvent::SelectMenuIndex(0));
    assert_eq!(ui.menu.selected_index, 0);
}

#[test]
fn menu_always_has_an_option_in_every_state() {
    let (mut managers, mut ui) = started_session();
    let states = [
        StateType::MainMenu,
        StateType::Name,
        StateType::NameConfirm,
        StateType::Game,
        StateType::GameSaveSuccess,
        StateType::GameSaveError,
        StateType::GameLoadError,
        StateType::GameInitError,
        StateType::GameQuit,
        StateType::Time,
        StateType::Weather,
        StateType::Travel,
    ];
    for s in states {
        managers.state_manager.current_state = s;
        ui.menu.update(s, &managers.world_manager.world);
        assert!(ui.menu.menu_options.len() >= 1, "no options in {:?}", s);
        assert!(ui.menu.selected_index < ui.menu.menu_options.len());
    }
}

#[test]
fn exit_is_requested_from_main_menu() {
    let mut managers = Managers::new();
    let mut ui = UIComponents::new();
    ui.menu.selected_index = 2;
    assert!(matches!(
        EventHandler::handle(&mut managers, &mut ui, InputEvent::Confirm),
        Outcome::RequestExit
    ));
}

#[test]
fn save_flow_produces_document_and_acknowledges() {
    let (mut managers, mut ui) = started_session();
    ui.menu.update(StateType::Game, &managers.world_manager.world);
    ui.menu.selected_index = 3;
    let outcome = EventHandler::handle(&mut managers, &mut ui, InputEvent::Confirm);
    let text = match outcome {
        Outcome::SaveRequested(text) => text,
        other => panic!("expected a save request, got {:?}", other),
    };
    let doc = parse_save(&text).unwrap();
    assert_eq!(doc.player.unwrap().name, "Hero");
    assert!(doc.time.is_some());
    assert!(doc.weather.is_some());
    EventHandler::save_completed(&mut managers, true);
    assert_eq!(
        managers.state_manager.current_state,
        StateType::GameSaveSuccess
    );
    EventHandler::handle(&mut managers, &mut ui, InputEvent::Confirm);
    assert_eq!(managers.state_manager.current_state, StateType::Game);
    EventHandler::save_completed(&mut managers, false);
    assert_eq!(
        managers.state_manager.current_state,
        StateType::GameSaveError
    );
}

#[test]
fn travel_moves_player_and_advances_time() {
    let (mut managers, mut ui) = started_session();
    // stand in a town that exists in this world
    if let Some(p) = managers.world_manager.player.as_mut() {
        p.current_town_id = 1;
    }
    // open the travel menu
    ui.menu.update(StateType::Game, &managers.world_manager.world);
    ui.menu.selected_index = 2;
    EventHandler::handle(&mut managers, &mut ui, InputEvent::Confirm);
    assert_eq!(managers.state_manager.current_state, StateType::Travel);
    ui.menu
        .update(StateType::Travel, &managers.world_manager.world);
    // options are the two towns then Back
    assert_eq!(ui.menu.menu_options.len(), 3);
    assert_eq!(ui.menu.menu_options[0], "Oakvale");
    assert_eq!(ui.menu.menu_options[1], "Ironforge");
    assert_eq!(ui.menu.menu_options[2], "Back");
    ui.menu.selected_index = 1;
    let outcome = EventHandler::handle(&mut managers, &mut ui, InputEvent::Confirm);
    let t = match outcome {
        Outcome::TimeRestarted(t) => t,
        other => panic!("expected a time restart, got {:?}", other),
    };
    // five miles at ten ticks per mile
    assert_eq!(t.tick, 50);
    assert_eq!(t.day, 1);
    assert_eq!(t.phase, Phase::Dawn);
    assert_eq!(managers.state_manager.current_state, StateType::Game);
    let p = managers.world_manager.player.as_ref().unwrap();
    assert_eq!(p.current_town_id, 2);
    assert_eq!(p.current_building_id, None);
    assert_eq!(managers.time_manager.time.as_ref().unwrap().tick, 50);
}

#[test]
fn travel_back_returns_to_game() {
    let (mut managers, mut ui) = started_session();
    managers.state_manager.current_state = StateType::Travel;
    ui.menu
        .update(StateType::Travel, &managers.world_manager.world);
    ui.menu.selected_index = ui.menu.menu_options.len() - 1;
    let outcome = EventHandler::handle(&mut managers, &mut ui, InputEvent::Confirm);
    assert!(matches!(outcome, Outcome::Continue));
    assert_eq!(managers.state_manager.current_state, StateType::Game);
    // the player did not move
    assert_eq!(
        managers
            .world_manager
            .player
            .as_ref()
            .unwrap()
            .current_town_id,
        59015
    );
}

#[test]
fn travel_to_unknown_current_town_is_recoverable() {
    // the starting town id does not exist in the world: selecting a
    // destination reports nothing and stays on the travel screen
    let (mut managers, mut ui) = started_session();
    managers.state_manager.current_state = StateType::Travel;
    ui.menu
        .update(StateType::Travel, &managers.world_manager.world);
    ui.menu.selected_index = 0;
    let outcome = EventHandler::handle(&mut managers, &mut ui, InputEvent::Confirm);
    assert!(matches!(outcome, Outcome::Continue));
    assert_eq!(managers.state_manager.current_state, StateType::Travel);
}

#[test]
fn quit_confirmation_stops_simulations() {
    let (mut managers, mut ui) = started_session();
    managers.state_manager.current_state = StateType::GameQuit;
    ui.menu
        .update(StateType::GameQuit, &managers.world_manager.world);
    ui.menu.selected_index = 0;
    let outcome = EventHandler::handle(&mut managers, &mut ui, InputEvent::Confirm);
    assert!(matches!(outcome, Outcome::SimulatorsStopped));
    assert_eq!(managers.state_manager.current_state, StateType::MainMenu);
    assert!(!managers.time_manager.running);
    assert!(!managers.weather_manager.running);
}

#[test]
fn quit_refusal_returns_to_game() {
    let (mut managers, mut ui) = started_session();
    managers.state_manager.current_state = StateType::GameQuit;
    ui.menu
        .update(StateType::GameQuit, &managers.world_manager.world);
    ui.menu.selected_index = 1;
    EventHandler::handle(&mut managers, &mut ui, InputEvent::Confirm);
    assert_eq!(managers.state_manager.current_state, StateType::Game);
}

#[test]
fn load_flow_restores_saved_parts() {
    let text = "{\"player\":{\"id\":7,\"name\":\"Saved\",\"current_town_id\":1,\"current_building_id\":null,\"current_room_id\":null},\"time\":{\"tick\":100,\"day\":4,\"phase\":\"Dawn\"},\"weather\":null}";
    let mut managers = Managers::new();
    let mut ui = UIComponents::new();
    ui.menu.selected_index = 1;
    assert!(matches!(
        EventHandler::handle(&mut managers, &mut ui, InputEvent::Confirm),
        Outcome::LoadRequested
    ));
    let restored = EventHandler::load_completed(
        &mut managers,
        &mut ui,
        Some(tiny_world()),
        Some(GRAPH),
        Some(text),
    );
    assert!(restored);
    assert_eq!(managers.state_manager.current_state, StateType::Game);
    assert_eq!(
        managers.world_manager.player.as_ref().unwrap().name,
        "Saved"
    );
    assert_eq!(managers.time_manager.time.as_ref().unwrap().day, 4);
    assert!(managers.time_manager.running);
    // no weather was saved: the weather simulation is not seeded
    assert!(!managers.weather_manager.running);
}

#[test]
fn load_failure_shows_error_and_returns_to_main_menu() {
    let mut managers = Managers::new();
    let mut ui = UIComponents::new();
    let restored = EventHandler::load_completed(
        &mut managers,
        &mut ui,
        Some(tiny_world()),
        Some(GRAPH),
        Some("not json"),
    );
    assert!(!restored);
    assert_eq!(
        managers.state_manager.current_state,
        StateType::GameLoadError
    );
    EventHandler::handle(&mut managers, &mut ui, InputEvent::Confirm);
    assert_eq!(managers.state_manager.current_state, StateType::MainMenu);
}

#[test]
fn init_failure_shows_error() {
    let mut managers = Managers::new();
    let mut ui = UIComponents::new();
    let started = EventHandler::init_completed(&mut managers, &mut ui, None, None);
    assert!(!started);
    assert_eq!(
        managers.state_manager.current_state,
        StateType::GameInitError
    );
    EventHandler::handle(&mut managers, &mut ui, InputEvent::Confirm);
    assert_eq!(managers.state_manager.current_state, StateType::MainMenu);
}
