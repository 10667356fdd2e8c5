//! The greeting screen: a one-shot timer-gated state that hands control to
//! the menu.  It refuses the forward input until a minimum time has
//! elapsed, so the screen cannot be skipped by an instant key press.

use vstd::prelude::*;

use crate::GameState;

verus! {

/// Time that must elapse before the greeting screen accepts input, in
/// milliseconds.
pub const WAIT_TIME: u32 = 500;

/// The greeting screen's whole state: elapsed time and whether the waiting
/// period is over.
#[derive(Clone, Copy, PartialEq, Eq, Structural, Debug)]
pub struct GreetScreen {
    pub timer_loading: u64,
    pub is_loaded: bool,
}

/// One tick of the greeting screen: while the waiting period runs the
/// timer accumulates; once past the threshold the screen becomes ready;
/// a forward press on a ready screen hands control to the menu.
pub open spec fn spec_greet_step(g: GreetScreen, accept: bool, dt: u32, gs: GameState) -> (
    GreetScreen,
    GameState,
) {
    let g1 = if g.timer_loading < WAIT_TIME && !g.is_loaded {
        GreetScreen { timer_loading: (g.timer_loading + dt) as u64, ..g }
    } else if g.timer_loading >= WAIT_TIME && !g.is_loaded {
        GreetScreen { is_loaded: true, ..g }
    } else {
        g
    };
    if accept && g1.is_loaded {
        (g1, GameState::MainMenu)
    } else {
        (g1, gs)
    }
}

impl GreetScreen {
    /// The timer never runs far past the threshold: it grows only while
    /// under it, by at most one tick's delta.
    pub open spec fn wf(self) -> bool {
        self.timer_loading < WAIT_TIME + 0x1_0000_0000
    }

    /// Fresh greeting screen: nothing elapsed, not ready.
    pub fn new() -> (r: GreetScreen)
        ensures
            r == (GreetScreen { timer_loading: 0u64, is_loaded: false }),
            r.wf(),
    {
        GreetScreen { timer_loading: 0, is_loaded: false }
    }

    /// One tick: accumulates elapsed time until the threshold, then turns
    /// ready; a forward press once ready moves the host to the menu.
    pub fn update(&mut self, accept: bool, dt: u32, game_state: &mut GameState)
        requires
            old(self).wf(),
        ensures
            (*final(self), *final(game_state)) == spec_greet_step(
                *old(self),
                accept,
                dt,
                *old(game_state),
            ),
            final(self).wf(),
    {
        if self.timer_loading < WAIT_TIME as u64 && !self.is_loaded {
            self.timer_loading = self.timer_loading + dt as u64;
        } else if self.timer_loading >= WAIT_TIME as u64 && !self.is_loaded {
            self.is_loaded = true;
        }
        if accept && self.is_loaded {
            *game_state = GameState::MainMenu;
        }
    }
}

} // verus!
