//! The per-tick input snapshot.
//!
//! The host samples its input backend once per tick and hands the menu an
//! edge-triggered flag per logical action — true only on the tick the bound
//! key went down — plus the fixed accept/reject actions and, for the
//! rebinding capture flow, whichever raw key event was polled this tick.

use vstd::prelude::*;

verus! {

/// One tick's worth of edge-triggered input, decoupled from any concrete
/// backend.
#[derive(Clone, Copy, PartialEq, Eq, Structural, Debug)]
pub struct InputFrame {
    pub up: bool,
    pub down: bool,
    pub left: bool,
    pub right: bool,
    pub attack: bool,
    pub bomb: bool,
    pub slow: bool,
    pub accept: bool,
    pub reject: bool,
    /// The raw key code polled this tick, if any: feeds the key-rebinding
    /// capture flow.
    pub captured_key: Option<u32>,
}

impl InputFrame {
    /// A tick on which nothing was pressed.
    pub fn none() -> (r: InputFrame)
        ensures
            r == (InputFrame {
                up: false,
                down: false,
                left: false,
                right: false,
                attack: false,
                bomb: false,
                slow: false,
                accept: false,
                reject: false,
                captured_key: None::<u32>,
            }),
    {
        InputFrame {
            up: false,
            down: false,
            left: false,
            right: false,
            attack: false,
            bomb: false,
            slow: false,
            accept: false,
            reject: false,
            captured_key: None,
        }
    }
}

} // verus!
