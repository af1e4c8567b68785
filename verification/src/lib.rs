//! Core engine for a small terminal RPG session: a state machine driving
//! menus and popups, a travel router over a weighted location graph, paired
//! time and weather simulations, and JSON persistence of the session.
//!
//! Rendering and input reading live outside this crate; the engine exposes
//! state snapshots, consumes discrete input events, and hands back the side
//! effects (file writes, simulator restarts) it wants performed.
use vstd::prelude::*;

pub mod events;
pub mod menu;
pub mod player;
pub mod popup;
pub mod save;
pub mod session;
pub mod stats;
pub mod states;
pub mod text;
pub mod time;
pub mod travel;
pub mod viewport;
pub mod weather;
pub mod world;

verus! {

} // verus!
