//! The aggregates a running session is made of: the managers that hold the
//! session's state, and the display components that read it.
use vstd::prelude::*;

verus! {

/// The managers of a session: the active screen, the world and player, the
/// two simulation models, and the persistence manager.
pub struct Managers {
    pub state_manager: crate::states::StateManager,
    pub world_manager: crate::world::WorldManager,
    pub time_manager: crate::time::TimeManger,
    pub weather_manager: crate::weather::WeatherManager,
    pub save_manager: crate::save::SaveGameManager,
}

/// The display components: each is recomputed from the managers once per
/// frame and read by the renderer outside the library.
pub struct UIComponents {
    pub menu: crate::menu::Menu,
    pub viewport: crate::viewport::Viewport,
    pub stats: crate::stats::Stats,
    pub popup: crate::popup::Popup,
}

impl Managers {
    /// A session's managers are well formed when the world manager's graph
    /// is and every time snapshot lies inside a day.
    pub open spec fn wf(&self) -> bool {
        &&& self.world_manager.wf()
        &&& match self.time_manager.time {
            Some(t) => t.wf(),
            None => true,
        }
    }

    /// Fresh managers: main menu, nothing loaded, nothing running.
    pub fn new() -> (r: Self)
        ensures
            r.wf(),
            r.state_manager.current_state == crate::states::StateType::MainMenu,
            r.world_manager.player is None,
            r.world_manager.world is None,
            r.time_manager.time is None,
            !r.time_manager.running,
            r.weather_manager.weather is None,
            !r.weather_manager.running,
    {
        Self {
            state_manager: crate::states::StateManager::new(),
            world_manager: crate::world::WorldManager::new(),
            time_manager: crate::time::TimeManger::new(),
            weather_manager: crate::weather::WeatherManager::new(),
            save_manager: crate::save::SaveGameManager::new(),
        }
    }
}

impl UIComponents {
    /// Fresh display components: the main menu, empty text panes, a hidden
    /// popup.
    pub fn new() -> (r: Self)
        ensures
            r.menu.wf(),
            r.menu.selected_index == 0,
            r.popup.input@ == Seq::<char>::empty(),
    {
        Self {
            menu: crate::menu::Menu::new(),
            viewport: crate::viewport::Viewport::new(),
            stats: crate::stats::Stats::new(),
            popup: crate::popup::Popup::new(),
        }
    }
}

} // verus!
