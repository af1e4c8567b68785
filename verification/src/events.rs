//! The event dispatcher: the one place the application state changes. It
//! consumes discrete input events, performs the transition table, and hands
//! back the side effects it wants performed outside the library: a file
//! write or read, a simulator restart, or leaving the program.
//!
//! Work that needs the outside world goes through a request/completion
//! pair: the dispatcher returns a request in its outcome, the surrounding
//! program performs it and reports back through one of the `*_completed`
//! functions, which perform the state transition the result calls for.
use vstd::prelude::*;
use crate::menu::{str_views, Menu};
use crate::player::{Player, PlayerView};
use crate::save::{ser_save, spec_parse_save, SaveData, SaveDataView};
use crate::session::{Managers, UIComponents};
use crate::states::{StateManager, StateType};
use crate::text::{pop_char, push_char};
use crate::time::GameTime;
use crate::travel::{spec_build, spec_lines, spec_travel_time};
use crate::weather::GameWeather;
use crate::world::{find_id_by_name, spec_find_id_by_name, spec_find_town, World};

verus! {

/// A discrete input event, as the host user interface maps its input.
#[derive(Debug, Clone, Copy, PartialEq, Eq, Structural)]
pub enum InputEvent {
    NavigateUp,
    NavigateDown,
    Confirm,
    Cancel,
    TextInput(char),
    Backspace,
    SelectMenuIndex(usize),
}

/// What the dispatcher asks of the surrounding program.
#[derive(Debug)]
pub enum Outcome {
    /// Nothing to do; keep running.
    Continue,
    /// Leave the program.
    RequestExit,
    /// Write this text to the save file, then report through
    /// `EventHandler::save_completed`.
    SaveRequested(String),
    /// Read the world files and the save file, then report through
    /// `EventHandler::load_completed`.
    LoadRequested,
    /// Read the world files, then report through
    /// `EventHandler::init_completed`.
    InitRequested,
    /// Restart the time simulation seeded with this snapshot.
    TimeRestarted(GameTime),
    /// Stop both background simulations.
    SimulatorsStopped,
}

/// The dispatcher.
pub struct EventHandler {}

/// The managers with only the active screen replaced.
pub open spec fn with_state(m: Managers, s: StateType) -> Managers {
    Managers { state_manager: StateManager { current_state: s }, ..m }
}

/// The components with only the menu cursor moved to the top.
pub open spec fn with_menu_top(u: UIComponents) -> UIComponents {
    UIComponents { menu: Menu { selected_index: 0, ..u.menu }, ..u }
}

/// The image of a possibly absent player.
pub open spec fn player_view_opt(p: Option<Player>) -> Option<PlayerView> {
    match p {
        Some(p) => Some(p@),
        None => None,
    }
}

/// What selecting the highlighted menu option does, as a relation between
/// the session before, the session after, and the outcome: the transition
/// table of the screens driven by their menu.
pub open spec fn spec_select_effect(
    m0: Managers,
    u0: UIComponents,
    m1: Managers,
    u1: UIComponents,
    r: Outcome,
) -> bool {
    let s = m0.state_manager.current_state;
    let sel = u0.menu.selected_index as int;
    let opts = str_views(u0.menu.menu_options@);
    &&& (s == StateType::MainMenu ==> {
        &&& (sel == 0 ==> m1 == with_state(m0, StateType::Name) && u1 == (UIComponents {
            menu: Menu { selected_index: 0, ..u0.menu },
            popup: crate::popup::Popup { input: u1.popup.input, ..u0.popup },
            ..u0
        }) && u1.popup.input@ == Seq::<char>::empty() && u1.menu.selected_index == 0
            && r is Continue)
        &&& (sel == 1 ==> m1 == m0 && u1 == u0 && r is LoadRequested)
        &&& (sel == 2 ==> m1 == m0 && u1 == u0 && r is RequestExit)
        &&& (sel > 2 ==> m1 == m0 && u1 == u0 && r is Continue)
    })
    &&& ((s == StateType::Game || s == StateType::Time || s == StateType::Weather) ==> {
        &&& (sel == 0 ==> m1 == with_state(m0, StateType::Time) && u1 == u0 && r is Continue)
        &&& (sel == 1 ==> m1 == with_state(m0, StateType::Weather) && u1 == u0 && r is Continue)
        &&& (sel == 2 ==> m1 == with_state(m0, StateType::Travel) && u1 == with_menu_top(u0)
            && r is Continue)
        &&& (sel == 3 ==> {
            &&& m1.state_manager == m0.state_manager
            &&& m1.world_manager == m0.world_manager
            &&& m1.time_manager == m0.time_manager
            &&& m1.weather_manager == m0.weather_manager
            &&& m1.save_manager.save_data@.player == player_view_opt(m0.world_manager.player)
            &&& m1.save_manager.save_data@.time == m0.time_manager.time
            &&& m1.save_manager.save_data@.weather == m0.weather_manager.weather
            &&& u1 == u0
            &&& match r {
                Outcome::SaveRequested(t) => t@ == ser_save(m1.save_manager.save_data@),
                _ => false,
            }
        })
        &&& (sel == 4 ==> m1 == with_state(m0, StateType::GameQuit) && u1 == with_menu_top(u0)
            && r is Continue)
        &&& (sel > 4 ==> m1 == m0 && u1 == u0 && r is Continue)
    })
    &&& (s == StateType::Travel ==> {
        if sel < opts.len() && opts[sel] == "Back"@ {
            m1 == with_state(m0, StateType::Game) && u1 == with_menu_top(u0) && r is Continue
        } else {
            let dest = opts[sel];
            match m0.world_manager.player {
                None => m1 == m0 && u1 == u0 && r is Continue,
                Some(p) => match m0.world_manager.world {
                    None => m1 == m0 && u1 == u0 && r is Continue,
                    Some(w) => match spec_find_town(w.towns@, p.current_town_id) {
                        None => m1 == m0 && u1 == u0 && r is Continue,
                        Some(t) => match spec_find_id_by_name(w.towns@, dest) {
                            None => m1 == m0 && u1 == u0 && r is Continue,
                            Some(dest_id) => {
                                let ticks = spec_travel_time(
                                    m0.world_manager.graph_names(),
                                    m0.world_manager.graph_edges_model(),
                                    t.name@,
                                    dest,
                                );
                                let nt = match m0.time_manager.time {
                                    Some(gt) => gt.spec_advanced(ticks),
                                    None => GameTime { tick: 0, day: 1, phase: crate::time::Phase::Dawn },
                                };
                                &&& m1.state_manager.current_state == StateType::Game
                                &&& m1.world_manager.world == m0.world_manager.world
                                &&& m1.world_manager.graph_names()
                                    == m0.world_manager.graph_names()
                                &&& m1.world_manager.graph_edges_model()
                                    == m0.world_manager.graph_edges_model()
                                &&& player_view_opt(m1.world_manager.player) == Some(
                                    PlayerView {
                                        id: p.id,
                                        name: p.name@,
                                        current_town_id: dest_id,
                                        current_building_id: None,
                                        current_room_id: p.current_room_id,
                                    },
                                )
                                &&& m1.time_manager.time == Some(nt)
                                &&& m1.time_manager.running
                                &&& m1.weather_manager == m0.weather_manager
                                &&& m1.save_manager == m0.save_manager
                                &&& u1 == with_menu_top(u0)
                                &&& r == Outcome::TimeRestarted(nt)
                            },
                        },
                    },
                },
            }
        }
    })
    &&& (s == StateType::GameQuit ==> {
        &&& (sel == 0 ==> {
            &&& m1.state_manager.current_state == StateType::MainMenu
            &&& m1.world_manager == m0.world_manager
            &&& m1.time_manager.time == m0.time_manager.time
            &&& !m1.time_manager.running
            &&& m1.weather_manager.weather == m0.weather_manager.weather
            &&& !m1.weather_manager.running
            &&& m1.save_manager == m0.save_manager
            &&& u1 == with_menu_top(u0)
            &&& r is SimulatorsStopped
        })
        &&& (sel == 1 ==> m1 == with_state(m0, StateType::Game) && u1 == with_menu_top(u0)
            && r is Continue)
        &&& (sel > 1 ==> m1 == m0 && u1 == u0 && r is Continue)
    })
    &&& ((s == StateType::Name || s == StateType::NameConfirm || s == StateType::GameSaveSuccess
        || s == StateType::GameSaveError || s == StateType::GameLoadError
        || s == StateType::GameInitError) ==> m1 == m0 && u1 == u0 && r is Continue)
}

/// Performs the highlighted menu option of the current screen.
pub fn select(managers: &mut Managers, ui: &mut UIComponents) -> (r: Outcome)
    requires
        old(managers).wf(),
        old(ui).menu.wf(),
    ensures
        final(managers).wf(),
        final(ui).menu.wf(),
        spec_select_effect(*old(managers), *old(ui), *final(managers), *final(ui), r),
{
    match managers.state_manager.current_state {
        StateType::MainMenu => {
            if ui.menu.selected_index == 0 {
                managers.state_manager.current_state = StateType::Name;
                ui.menu.selected_index = 0;
                ui.popup.input = String::new();
                Outcome::Continue
            } else if ui.menu.selected_index == 1 {
                Outcome::LoadRequested
            } else if ui.menu.selected_index == 2 {
                Outcome::RequestExit
            } else {
                Outcome::Continue
            }
        },
        StateType::Game | StateType::Time | StateType::Weather => {
            if ui.menu.selected_index == 0 {
                managers.state_manager.current_state = StateType::Time;
                Outcome::Continue
            } else if ui.menu.selected_index == 1 {
                managers.state_manager.current_state = StateType::Weather;
                Outcome::Continue
            } else if ui.menu.selected_index == 2 {
                managers.state_manager.current_state = StateType::Travel;
                ui.menu.selected_index = 0;
                Outcome::Continue
            } else if ui.menu.selected_index == 3 {
                let text = managers.save_manager.save(
                    &managers.world_manager.player,
                    &managers.time_manager.time,
                    &managers.weather_manager.weather,
                );
                Outcome::SaveRequested(text)
            } else if ui.menu.selected_index == 4 {
                managers.state_manager.current_state = StateType::GameQuit;
                ui.menu.selected_index = 0;
                Outcome::Continue
            } else {
                Outcome::Continue
            }
        },
        StateType::Travel => {
            let sel = ui.menu.selected_index;
            if sel < ui.menu.menu_options.len() && crate::text::str_eq(
                ui.menu.menu_options[sel].as_str(),
                "Back",
            ) {
                managers.state_manager.current_state = StateType::Game;
                ui.menu.selected_index = 0;
                Outcome::Continue
            } else {
                select_travel_destination(managers, ui)
            }
        },
        StateType::GameQuit => {
            if ui.menu.selected_index == 0 {
                managers.time_manager.stop();
                managers.weather_manager.stop();
                managers.state_manager.current_state = StateType::MainMenu;
                ui.menu.selected_index = 0;
                Outcome::SimulatorsStopped
            } else if ui.menu.selected_index == 1 {
                managers.state_manager.current_state = StateType::Game;
                ui.menu.selected_index = 0;
                Outcome::Continue
            } else {
                Outcome::Continue
            }
        },
        _ => Outcome::Continue,
    }
}

/// Performs a travel to the highlighted destination: moves the player,
/// advances the clock by the route's travel time, and asks for the time
/// simulation to be restarted from the advanced snapshot. An unresolvable
/// name or missing world data leaves the session as it is.
fn select_travel_destination(managers: &mut Managers, ui: &mut UIComponents) -> (r: Outcome)
    requires
        old(managers).wf(),
        old(ui).menu.wf(),
        old(managers).state_manager.current_state == StateType::Travel,
        !(old(ui).menu.selected_index < old(ui).menu.menu_options@.len() && str_views(
            old(ui).menu.menu_options@,
        )[old(ui).menu.selected_index as int] == "Back"@),
    ensures
        final(managers).wf(),
        final(ui).menu.wf(),
        spec_select_effect(*old(managers), *old(ui), *final(managers), *final(ui), r),
{
    let sel = ui.menu.selected_index;
    // resolve the current town's name and the destination's id
    let cur_town_id = match &managers.world_manager.player {
        Some(p) => p.current_town_id,
        None => { return Outcome::Continue; },
    };
    let dest = &ui.menu.menu_options[sel];
    let (cur_name, dest_id) = match &managers.world_manager.world {
        Some(w) => {
            let cur_name = match w.get_town(cur_town_id) {
                Some(t) => t.name.clone(),
                None => { return Outcome::Continue; },
            };
            let dest_id = match find_id_by_name(&w.towns, dest.as_str()) {
                Some(id) => id,
                None => { return Outcome::Continue; },
            };
            (cur_name, dest_id)
        },
        None => { return Outcome::Continue; },
    };
    let travel_ticks = managers.world_manager.get_travel_time(cur_name.as_str(), dest.as_str());
    let new_player = match &managers.world_manager.player {
        Some(p) => Player {
            id: p.id,
            name: p.name.clone(),
            current_town_id: dest_id,
            current_building_id: None,
            current_room_id: p.current_room_id,
        },
        None => { return Outcome::Continue; },
    };
    managers.world_manager.player = Some(new_player);
    managers.time_manager.stop();
    let new_time = match &managers.time_manager.time {
        Some(t) => {
            let mut advanced = *t;
            advanced.advance(travel_ticks);
            advanced
        },
        None => GameTime::new(),
    };
    managers.time_manager.start(new_time);
    managers.state_manager.current_state = StateType::Game;
    ui.menu.selected_index = 0;
    Outcome::TimeRestarted(new_time)
}

impl EventHandler {
    /// Records the result of the requested save-file write: an
    /// acknowledgment screen for success or failure.
    pub fn save_completed(managers: &mut Managers, ok: bool)
        requires
            old(managers).wf(),
        ensures
            final(managers).wf(),
            *final(managers) == with_state(
                *old(managers),
                if ok {
                    StateType::GameSaveSuccess
                } else {
                    StateType::GameSaveError
                },
            ),
    {
        if ok {
            managers.state_manager.current_state = StateType::GameSaveSuccess;
        } else {
            managers.state_manager.current_state = StateType::GameSaveError;
        }
    }

    /// Finishes a new-game start with the world data read outside the
    /// library: installs the world and its travel graph, creates the player
    /// from the typed name, seeds both simulations and enters the game.
    /// Missing world data leads to the initialisation-failure screen with
    /// the session cleared. Returns whether the simulations are to be
    /// started.
    pub fn init_completed(
        managers: &mut Managers,
        ui: &mut UIComponents,
        world: Option<World>,
        graph_source: Option<&str>,
    ) -> (started: bool)
        requires
            old(managers).wf(),
            old(ui).menu.wf(),
        ensures
            final(managers).wf(),
            final(ui).menu.wf(),
            final(ui).popup.input@ == Seq::<char>::empty(),
            final(ui).menu.selected_index == 0,
            match (world, graph_source) {
                (Some(w), Some(g)) => {
                    &&& started
                    &&& final(managers).state_manager.current_state == StateType::Game
                    &&& final(managers).world_manager.world == Some(w)
                    &&& final(managers).world_manager.has_graph()
                    &&& spec_build(spec_lines(g@)) == (
                        final(managers).world_manager.graph_names(),
                        final(managers).world_manager.graph_edges_model(),
                    )
                    &&& player_view_opt(final(managers).world_manager.player) == Some(
                        PlayerView {
                            id: 666,
                            name: old(ui).popup.input@,
                            current_town_id: 59015,
                            current_building_id: None,
                            current_room_id: None,
                        },
                    )
                    &&& final(managers).time_manager.time == Some(
                        GameTime { tick: 0, day: 1, phase: crate::time::Phase::Dawn },
                    )
                    &&& final(managers).time_manager.running
                    &&& final(managers).weather_manager.weather == Some(
                        GameWeather { weather_type: crate::weather::WeatherType::Sunny },
                    )
                    &&& final(managers).weather_manager.running
                },
                _ => {
                    &&& !started
                    &&& final(managers).state_manager.current_state == StateType::GameInitError
                    &&& final(managers).world_manager.world is None
                    &&& final(managers).world_manager.player is None
                    &&& final(managers).time_manager == old(managers).time_manager
                    &&& final(managers).weather_manager == old(managers).weather_manager
                },
            },
    {
        managers.world_manager.clear();
        match (world, graph_source) {
            (Some(w), Some(g)) => {
                managers.world_manager.load_world(w, g);
                let name = ui.popup.input.clone();
                managers.world_manager.player = Some(Player::new(666, name, 59015, None, None));
                managers.time_manager.start(GameTime::new());
                managers.weather_manager.start(GameWeather::new());
                ui.popup.input = String::new();
                ui.menu.selected_index = 0;
                managers.state_manager.current_state = StateType::Game;
                true
            },
            _ => {
                ui.popup.input = String::new();
                ui.menu.selected_index = 0;
                managers.state_manager.current_state = StateType::GameInitError;
                false
            },
        }
    }

    /// Finishes a load with the world data and save-file text read outside
    /// the library: installs the world, parses the document, restores
    /// whatever parts it holds, and enters the game. Missing world data or
    /// a malformed document leads to the load-failure screen. Returns
    /// whether the document was restored; which simulations are to run is
    /// read off the managers' running flags.
    pub fn load_completed(
        managers: &mut Managers,
        ui: &mut UIComponents,
        world: Option<World>,
        graph_source: Option<&str>,
        save_text: Option<&str>,
    ) -> (restored: bool)
        requires
            old(managers).wf(),
            old(ui).menu.wf(),
        ensures
            final(managers).wf(),
            final(ui).menu.wf(),
            final(ui).menu.selected_index == 0,
            match (world, graph_source) {
                (Some(w), Some(g)) => {
                    &&& final(managers).world_manager.world == Some(w)
                    &&& final(managers).world_manager.has_graph()
                    &&& spec_build(spec_lines(g@)) == (
                        final(managers).world_manager.graph_names(),
                        final(managers).world_manager.graph_edges_model(),
                    )
                    &&& match save_text {
                        Some(text) => match spec_parse_save(text@) {
                            Some(doc) => {
                                &&& restored
                                &&& final(managers).state_manager.current_state == StateType::Game
                                &&& player_view_opt(final(managers).world_manager.player)
                                    == doc.player
                                &&& (doc.time is Some ==> final(managers).time_manager.time
                                    == doc.time && final(managers).time_manager.running)
                                &&& (doc.time is None ==> final(managers).time_manager == old(managers).time_manager)
                                &&& (doc.weather is Some ==> final(managers).weather_manager.weather == doc.weather && final(managers).weather_manager.running)
                                &&& (doc.weather is None ==> final(managers).weather_manager
                                    == old(managers).weather_manager)
                            },
                            None => !restored && final(managers).state_manager.current_state
                                == StateType::GameLoadError && final(managers).world_manager.player is None,
                        },
                        None => !restored && final(managers).state_manager.current_state
                            == StateType::GameLoadError && final(managers).world_manager.player is None,
                    }
                },
                _ => {
                    &&& !restored
                    &&& final(managers).state_manager.current_state == StateType::GameLoadError
                    &&& final(managers).world_manager.world is None
                    &&& final(managers).world_manager.player is None
                },
            },
    {
        managers.world_manager.clear();
        ui.menu.selected_index = 0;
        match (world, graph_source) {
            (Some(w), Some(g)) => {
                managers.world_manager.load_world(w, g);
                let text = match save_text {
                    Some(text) => text,
                    None => {
                        managers.state_manager.current_state = StateType::GameLoadError;
                        return false;
                    },
                };
                let doc = match managers.save_manager.load(text) {
                    Some(doc) => doc,
                    None => {
                        managers.state_manager.current_state = StateType::GameLoadError;
                        return false;
                    },
                };
                match doc.player {
                    Some(p) => {
                        managers.world_manager.player = Some(p);
                    },
                    None => {},
                }
                match doc.time {
                    Some(t) => {
                        proof {
                            crate::save::lemma_parse_save_time_wf(text@);
                        }
                        managers.time_manager.start(t);
                    },
                    None => {},
                }
                match doc.weather {
                    Some(gw) => {
                        managers.weather_manager.start(gw);
                    },
                    None => {},
                }
                managers.state_manager.current_state = StateType::Game;
                true
            },
            _ => {
                managers.state_manager.current_state = StateType::GameLoadError;
                false
            },
        }
    }

    /// Interprets one input event against the current screen: text editing
    /// while naming the player, acknowledgement on the notice screens, and
    /// menu navigation or selection everywhere else.
    pub fn handle(managers: &mut Managers, ui: &mut UIComponents, event: InputEvent) -> (r:
        Outcome)
        requires
            old(managers).wf(),
            old(ui).menu.wf(),
        ensures
            final(managers).wf(),
            final(ui).menu.wf(),
            ({
                let s = old(managers).state_manager.current_state;
                let m0 = *old(managers);
                let u0 = *old(ui);
                let m1 = *final(managers);
                let u1 = *final(ui);
                &&& (s == StateType::Name ==> match event {
                    InputEvent::TextInput(c) => m1 == m0 && u1 == (UIComponents {
                        popup: crate::popup::Popup {
                            input: u1.popup.input,
                            ..u0.popup
                        },
                        ..u0
                    }) && u1.popup.input@ == u0.popup.input@.push(c) && r is Continue,
                    InputEvent::Backspace => m1 == m0 && u1.popup.input@ == (if u0.popup.input@.len()
                        > 0 {
                        u0.popup.input@.drop_last()
                    } else {
                        u0.popup.input@
                    }) && r is Continue,
                    InputEvent::Confirm => m1 == with_state(m0, StateType::NameConfirm) && u1 == u0
                        && r is Continue,
                    InputEvent::Cancel => m1 == with_state(m0, StateType::MainMenu)
                        && u1.popup.input@ == Seq::<char>::empty() && r is Continue,
                    _ => m1 == m0 && u1 == u0 && r is Continue,
                })
                &&& (s == StateType::NameConfirm ==> match event {
                    InputEvent::Confirm => m1 == m0 && u1 == u0 && r is InitRequested,
                    InputEvent::Cancel => m1 == with_state(m0, StateType::Name) && u1 == u0
                        && r is Continue,
                    _ => m1 == m0 && u1 == u0 && r is Continue,
                })
                &&& ((s == StateType::GameSaveSuccess || s == StateType::GameSaveError) ==> match
                    event {
                    InputEvent::Confirm => m1 == with_state(m0, StateType::Game) && u1 == u0
                        && r is Continue,
                    _ => m1 == m0 && u1 == u0 && r is Continue,
                })
                &&& ((s == StateType::GameLoadError || s == StateType::GameInitError) ==> match
                    event {
                    InputEvent::Confirm => m1 == with_state(m0, StateType::MainMenu) && u1 == u0
                        && r is Continue,
                    _ => m1 == m0 && u1 == u0 && r is Continue,
                })
                &&& ((s == StateType::MainMenu || s == StateType::Game || s == StateType::Time
                    || s == StateType::Weather || s == StateType::Travel || s
                    == StateType::GameQuit) ==> match event {
                    InputEvent::NavigateUp => m1 == m0 && u1.menu.menu_options
                        == u0.menu.menu_options && u1.menu.selected_index == (if
                        u0.menu.selected_index > 0 {
                        u0.menu.selected_index - 1
                    } else {
                        0int
                    }) && r is Continue,
                    InputEvent::NavigateDown => m1 == m0 && u1.menu.menu_options
                        == u0.menu.menu_options && u1.menu.selected_index == (if
                        u0.menu.selected_index + 1 < u0.menu.menu_options@.len() {
                        u0.menu.selected_index + 1
                    } else {
                        u0.menu.selected_index as int
                    }) && r is Continue,
                    InputEvent::SelectMenuIndex(i) => m1 == m0 && u1 == (UIComponents {
                        menu: Menu { selected_index: u1.menu.selected_index, ..u0.menu },
                        ..u0
                    }) && u1.menu.selected_index == (if i < u0.menu.menu_options@.len() {
                        i as int
                    } else {
                        u0.menu.selected_index as int
                    }) && r is Continue,
                    InputEvent::Confirm => spec_select_effect(m0, u0, m1, u1, r),
                    _ => m1 == m0 && u1 == u0 && r is Continue,
                })
            }),
    {
        match managers.state_manager.current_state {
            StateType::Name => {
                match event {
                    InputEvent::TextInput(c) => {
                        push_char(&mut ui.popup.input, c);
                        Outcome::Continue
                    },
                    InputEvent::Backspace => {
                        pop_char(&mut ui.popup.input);
                        Outcome::Continue
                    },
                    InputEvent::Confirm => {
                        managers.state_manager.current_state = StateType::NameConfirm;
                        Outcome::Continue
                    },
                    InputEvent::Cancel => {
                        ui.popup.input = String::new();
                        managers.state_manager.current_state = StateType::MainMenu;
                        Outcome::Continue
                    },
                    _ => Outcome::Continue,
                }
            },
            StateType::NameConfirm => {
                match event {
                    InputEvent::Confirm => Outcome::InitRequested,
                    InputEvent::Cancel => {
                        managers.state_manager.current_state = StateType::Name;
                        Outcome::Continue
                    },
                    _ => Outcome::Continue,
                }
            },
            StateType::GameSaveSuccess | StateType::GameSaveError => {
                match event {
                    InputEvent::Confirm => {
                        managers.state_manager.current_state = StateType::Game;
                        Outcome::Continue
                    },
                    _ => Outcome::Continue,
                }
            },
            StateType::GameLoadError | StateType::GameInitError => {
                match event {
                    InputEvent::Confirm => {
                        managers.state_manager.current_state = StateType::MainMenu;
                        Outcome::Continue
                    },
                    _ => Outcome::Continue,
                }
            },
            _ => {
                match event {
                    InputEvent::NavigateUp => {
                        ui.menu.previous();
                        Outcome::Continue
                    },
                    InputEvent::NavigateDown => {
                        ui.menu.next();
                        Outcome::Continue
                    },
                    InputEvent::SelectMenuIndex(i) => {
                        if i < ui.menu.menu_options.len() {
                            ui.menu.selected_index = i;
                        }
                        Outcome::Continue
                    },
                    InputEvent::Confirm => select(managers, ui),
                    _ => Outcome::Continue,
                }
            },
        }
    }
}

} // verus!
