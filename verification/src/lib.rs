//! Menu-navigation and configuration core of a small arcade-style game.
//!
//! The crate owns the persisted runtime configuration (display mode,
//! frame-rate cap, V-Sync, audio volumes, key bindings), the hierarchical
//! animated menu state machine that mutates it, and the greeting screen that
//! hands control to the menu.  All on-screen coordinates and time values are
//! kept in fixed-point integers: positions in thousandths of a display unit,
//! durations in milliseconds.  A host loop owns the window, reads input once
//! per tick, and draws from the read-only snapshot getters.

use vstd::prelude::*;

pub mod anim;
pub mod config;
pub mod greet;
pub mod input;
pub mod menu;
pub mod record;

verus! {

/// Top-level state of the host's dispatch loop.  The greeting screen hands
/// control forward by writing `MainMenu`; the states beyond the menu are
/// owned by gameplay collaborators.
#[derive(Clone, Copy, PartialEq, Eq, Structural, Debug)]
pub enum GameState {
    GreetingScreen,
    MainMenu,
    Playing,
    GameOver,
    EndScreen,
}

} // verus!
