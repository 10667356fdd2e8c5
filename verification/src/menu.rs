//! The hierarchical menu state machine: three interactive screens — the
//! main list, the options list and the key-rebinding list — each cycling
//! through a show / idle / hide activity phase, plus the terminal quit
//! state and a few reserved placeholder states.
//!
//! Every transition between screens routes through the hide phase: anchors
//! glide off-screen, then the target screen is committed with a fixed
//! re-entry cursor index and the anchors glide back in.  While resting, the
//! main list performs an ambient wobble whose dwell time between reversals
//! is drawn fresh from the random number generator; everything that follows
//! from such a draw is specified for every value it may take.
//!
//! All positions are fixed-point, in thousandths of a display unit; all
//! durations are in milliseconds.

use vstd::prelude::*;

use crate::anim::lemma_lerp_in_interval;
use crate::anim::lerp_spec;
use crate::anim::lerp_toward;
use crate::config::spec_with_key;
use crate::config::Action;
use crate::config::GameData;
use crate::config::FPS_STEP;
use crate::config::MAX_FPS_LIMIT;
use crate::config::MIN_FPS;
use crate::config::VOLUME_MAX;
use crate::config::VOLUME_STEP;
use crate::input::InputFrame;

verus! {

/// Shortest dwell between two wobble reversals.
pub const ACTIVITY_TIME_MIN: i64 = 3000;

/// Longest dwell between two wobble reversals (exclusive).
pub const ACTIVITY_TIME_MAX: i64 = 5000;

/// Resting position of the primary text anchor.
pub const TARGET_TEXT_POS: i64 = 96_000;

/// Off-screen origin of the primary text anchor.
pub const INITIAL_TEXT_POS: i64 = -380_000;

/// Interpolation rate of the primary anchors, per second.
pub const LERP_SPEED: u32 = 24;

/// Interpolation rate of the ambient wobble, per second.
pub const LERP_SPEED_ACTIVITY: u32 = 4;

/// Interpolation rate of the options navigation dot, per second.
pub const LERP_NAVDOT: u32 = 16;

/// Distance under which an anchor snaps onto its target.
pub const LERP_ACCEPTABLE_ERR: i64 = 800;

/// Amplitude of the ambient wobble around the resting position.
pub const MAX_POS_MOD: i64 = 32_000;

/// Resting offset of the value column on the options screen.
pub const OPTION_MOD_POS: i64 = 340_000;

/// Resting offset of the value column on the key-rebinding screen.
pub const KBD_MOD_POS: i64 = 280_000;

/// Vertical gap between two menu rows.
pub const TEXT_GAP: i64 = 72_000;

/// Vertical position of the navigation dot beside row zero of the options
/// screen.
pub const OPTION_DOT_BASE: i64 = 320_000;

/// Vertical position of the navigation dot beside row zero of the
/// key-rebinding screen.
pub const KBD_DOT_BASE: i64 = 392_000;

/// Horizontal distance of the navigation dot left of the text anchor.
pub const DOT_OFFSET_X: i64 = 72_000;

/// Value the wobble offset is reset to when a screen is committed.
pub const ENTRY_POS_MOD: i64 = 32_000;

/// Bound on every anchor coordinate the machine ever holds.
pub const ANCHOR_LIMIT: i64 = 1_000_000;

/// The top-level screens.  `Start`, `StartExtra`, `StartPractice` and
/// `Score` are reserved for gameplay collaborators and currently no-ops;
/// `Quit` is terminal and signals the host to close.
#[derive(Clone, Copy, PartialEq, Eq, Structural, Debug)]
pub enum MenuState {
    Idle,
    Start,
    StartExtra,
    StartPractice,
    Score,
    Options,
    OptionKBD,
    Quit,
}

/// The activity phase every interactive screen cycles through.
#[derive(Clone, Copy, PartialEq, Eq, Structural, Debug)]
pub enum MenuActivity {
    Show,
    Idle,
    Hide,
}

/// The transient menu session, mutated once per tick.
#[derive(Clone, Copy, PartialEq, Eq, Structural, Debug)]
pub struct MainMenu {
    pub menu_state: MenuState,
    pub next_menu_state: MenuState,
    pub current_activity: MenuActivity,
    pub activity_direction_right: bool,
    pub text_pos_x: i64,
    pub text_pos_x_mod: i64,
    pub timer_activity: i64,
    pub chosen_index: u8,
    pub dot_x: i64,
    pub dot_y: i64,
    pub is_listening: bool,
}

/// Number of selectable rows on each screen.
pub open spec fn items_of(st: MenuState) -> int {
    match st {
        MenuState::Idle => 6,
        MenuState::Options => 9,
        MenuState::OptionKBD => 8,
        _ => 1,
    }
}

/// Index of the row the cursor lands on when the machine commits a
/// transition from one screen to another: the row that caused the
/// transition on the way back, row zero otherwise.
pub open spec fn spec_entry_index(from: MenuState, to: MenuState) -> u8 {
    match from {
        MenuState::Options => if to == MenuState::Idle {
            4
        } else {
            0
        },
        MenuState::OptionKBD => if to == MenuState::Options {
            6
        } else {
            0
        },
        _ => 0,
    }
}

/// One step of the cursor toward higher rows, wrapping past the last row
/// to row zero.
pub open spec fn spec_cursor_down(i: u8, count: u8) -> u8 {
    if i + 1 == count {
        0
    } else {
        (i + 1) as u8
    }
}

/// One step of the cursor toward lower rows, wrapping past row zero to the
/// last row.
pub open spec fn spec_cursor_up(i: u8, count: u8) -> u8 {
    if i == 0 {
        (count - 1) as u8
    } else {
        (i - 1) as u8
    }
}

/// Moves the cursor one row down, wrapping at the row count: from the last
/// row it lands on row zero.
pub fn cursor_down(i: u8, count: u8) -> (r: u8)
    requires
        1 <= count,
        i < count,
    ensures
        r == spec_cursor_down(i, count),
        r < count,
        i + 1 == count ==> r == 0,
        i + 1 < count ==> r == i + 1,
{
    if i + 1 == count {
        0
    } else {
        i + 1
    }
}

/// Moves the cursor one row up, wrapping at row zero: from row zero it
/// lands on the last row.
pub fn cursor_up(i: u8, count: u8) -> (r: u8)
    requires
        1 <= count,
        i < count,
    ensures
        r == spec_cursor_up(i, count),
        r < count,
        i == 0 ==> r == count - 1,
        i > 0 ==> r == i - 1,
{
    if i == 0 {
        count - 1
    } else {
        i - 1
    }
}

/// The cursor after one tick's worth of navigation input: a down edge,
/// then an up edge, then reject (or the bomb action) jumping straight to
/// the back row.
pub open spec fn spec_nav_cursor(i: u8, count: u8, inp: InputFrame, back: u8) -> u8 {
    let i1 = if inp.down {
        spec_cursor_down(i, count)
    } else {
        i
    };
    let i2 = if inp.up {
        spec_cursor_up(i1, count)
    } else {
        i1
    };
    if inp.reject || inp.bomb {
        back
    } else {
        i2
    }
}

impl MainMenu {
    /// Cursor within its screen, every anchor bounded, the dwell timer
    /// bounded, the resting phase only ever entered with the primary
    /// anchor on its target, and key capture confined to the rebinding
    /// screen's first seven rows.
    pub open spec fn wf(self) -> bool {
        &&& (self.menu_state is Idle || self.menu_state is Options || self.menu_state
            is OptionKBD) ==> self.chosen_index < items_of(self.menu_state)
        &&& INITIAL_TEXT_POS <= self.text_pos_x <= TARGET_TEXT_POS
        &&& -ANCHOR_LIMIT <= self.text_pos_x_mod <= ANCHOR_LIMIT
        &&& -ANCHOR_LIMIT <= self.dot_x <= ANCHOR_LIMIT
        &&& -ANCHOR_LIMIT <= self.dot_y <= ANCHOR_LIMIT
        &&& 0 <= self.timer_activity < ACTIVITY_TIME_MAX
        &&& self.current_activity is Idle ==> self.text_pos_x == TARGET_TEXT_POS
        &&& self.is_listening ==> self.menu_state is OptionKBD && self.chosen_index <= 6
            && self.current_activity is Idle
    }

    /// Fresh session: main list, entering, cursor on the first row, both
    /// anchors off-screen.
    pub fn new() -> (r: MainMenu)
        ensures
            r == (MainMenu {
                menu_state: MenuState::Idle,
                next_menu_state: MenuState::Idle,
                current_activity: MenuActivity::Show,
                activity_direction_right: false,
                text_pos_x: INITIAL_TEXT_POS,
                text_pos_x_mod: ENTRY_POS_MOD,
                timer_activity: ACTIVITY_TIME_MIN,
                chosen_index: 0u8,
                dot_x: INITIAL_TEXT_POS,
                dot_y: 0i64,
                is_listening: false,
            }),
            r.wf(),
    {
        MainMenu {
            menu_state: MenuState::Idle,
            next_menu_state: MenuState::Idle,
            current_activity: MenuActivity::Show,
            activity_direction_right: false,
            text_pos_x: INITIAL_TEXT_POS,
            text_pos_x_mod: ENTRY_POS_MOD,
            timer_activity: ACTIVITY_TIME_MIN,
            chosen_index: 0u8,
            dot_x: INITIAL_TEXT_POS,
            dot_y: 0i64,
            is_listening: false,
        }
    }
}

/// Main list, entering: the anchor glides toward its resting position and
/// the phase flips to resting once it has snapped there.
pub open spec fn spec_idle_show(m: MainMenu, dt: u32) -> MainMenu {
    if m.text_pos_x < TARGET_TEXT_POS {
        MainMenu {
            text_pos_x: lerp_spec(
                m.text_pos_x as int,
                TARGET_TEXT_POS as int,
                dt,
                LERP_SPEED,
                LERP_ACCEPTABLE_ERR as int,
            ) as i64,
            ..m
        }
    } else {
        MainMenu { text_pos_x: TARGET_TEXT_POS, current_activity: MenuActivity::Idle, ..m }
    }
}

/// The ambient wobble: while the dwell timer runs it counts down (stopping
/// at zero); afterwards the wobble offset glides toward the extreme of the
/// current direction, and on reaching it the direction flips and the timer
/// is re-armed with the freshly drawn dwell.
pub open spec fn spec_idle_wobble(m: MainMenu, dt: u32, dwell: i64) -> MainMenu {
    if m.timer_activity > 0 {
        MainMenu {
            timer_activity: if m.timer_activity >= dt {
                (m.timer_activity - dt) as i64
            } else {
                0
            },
            ..m
        }
    } else if m.activity_direction_right {
        let pos = lerp_spec(
            m.text_pos_x_mod as int,
            MAX_POS_MOD as int,
            dt,
            LERP_SPEED_ACTIVITY,
            LERP_ACCEPTABLE_ERR as int,
        ) as i64;
        if pos >= MAX_POS_MOD {
            MainMenu {
                text_pos_x_mod: pos,
                activity_direction_right: false,
                timer_activity: dwell,
                ..m
            }
        } else {
            MainMenu { text_pos_x_mod: pos, ..m }
        }
    } else {
        let pos = lerp_spec(
            m.text_pos_x_mod as int,
            -MAX_POS_MOD as int,
            dt,
            LERP_SPEED_ACTIVITY,
            LERP_ACCEPTABLE_ERR as int,
        ) as i64;
        if pos <= -MAX_POS_MOD {
            MainMenu {
                text_pos_x_mod: pos,
                activity_direction_right: true,
                timer_activity: dwell,
                ..m
            }
        } else {
            MainMenu { text_pos_x_mod: pos, ..m }
        }
    }
}

/// Main list, resting: wobble, then cursor navigation, then selection —
/// the options row requests a hide transition to the options screen and
/// the quit row enters the terminal state directly.
pub open spec fn spec_idle_idle(m: MainMenu, inp: InputFrame, dt: u32, dwell: i64) -> MainMenu {
    let m1 = spec_idle_wobble(m, dt, dwell);
    let cur = spec_nav_cursor(m1.chosen_index, 6, inp, 5);
    let m2 = MainMenu { chosen_index: cur, ..m1 };
    if inp.accept || inp.attack {
        if cur == 4 {
            MainMenu {
                current_activity: MenuActivity::Hide,
                next_menu_state: MenuState::Options,
                ..m2
            }
        } else if cur == 5 {
            MainMenu { menu_state: MenuState::Quit, ..m2 }
        } else {
            m2
        }
    } else {
        m2
    }
}

/// Main list, leaving: the anchor glides back to the off-screen origin;
/// once there the pending screen is committed, the phase restarts at
/// entering, the wobble offset is cleared and the cursor lands on the
/// entry row.
pub open spec fn spec_idle_hide(m: MainMenu, dt: u32) -> MainMenu {
    if m.text_pos_x > INITIAL_TEXT_POS {
        MainMenu {
            text_pos_x: lerp_spec(
                m.text_pos_x as int,
                INITIAL_TEXT_POS as int,
                dt,
                LERP_SPEED,
                LERP_ACCEPTABLE_ERR as int,
            ) as i64,
            ..m
        }
    } else {
        MainMenu {
            chosen_index: spec_entry_index(MenuState::Idle, m.next_menu_state),
            text_pos_x_mod: 0,
            current_activity: MenuActivity::Show,
            menu_state: m.next_menu_state,
            ..m
        }
    }
}

/// One tick of the main list, whichever phase it is in.
pub open spec fn spec_idle_step(m: MainMenu, inp: InputFrame, dt: u32, dwell: i64) -> MainMenu {
    match m.current_activity {
        MenuActivity::Show => spec_idle_show(m, dt),
        MenuActivity::Idle => spec_idle_idle(m, inp, dt, dwell),
        MenuActivity::Hide => spec_idle_hide(m, dt),
    }
}

/// Relies on `rand::random_range`: a sample drawn uniformly from the given
/// half-open range, which must be non-empty.
#[verifier::external_body]
fn random_in_range(lo: i64, hi: i64) -> (r: i64)
    requires
        lo < hi,
    ensures
        lo <= r < hi,
{
    rand::random_range(lo..hi)
}

impl MainMenu {
    /// One tick of the main list.  The dwell re-armed at a wobble reversal
    /// is drawn fresh, so the new state is pinned down for some dwell in
    /// the documented range.
    #[verifier::rlimit(60)]
    fn handle_idle_update(&mut self, inp: &InputFrame, dt: u32)
        requires
            old(self).wf(),
            old(self).menu_state is Idle,
        ensures
            exists|dwell: i64|
                #![auto]
                ACTIVITY_TIME_MIN <= dwell < ACTIVITY_TIME_MAX && *final(self) == spec_idle_step(
                    *old(self),
                    *inp,
                    dt,
                    dwell,
                ),
            final(self).wf(),
    {
        let ghost m0 = *self;
        let ghost mut dwell_used: i64 = ACTIVITY_TIME_MIN;
        match self.current_activity {
            MenuActivity::Show => {
                if self.text_pos_x < TARGET_TEXT_POS {
                    proof {
                        lemma_lerp_in_interval(
                            self.text_pos_x as int,
                            TARGET_TEXT_POS as int,
                            dt,
                            LERP_SPEED,
                            LERP_ACCEPTABLE_ERR as int,
                        );
                    }
                    self.text_pos_x = lerp_toward(
                        self.text_pos_x,
                        TARGET_TEXT_POS,
                        dt,
                        LERP_SPEED,
                        LERP_ACCEPTABLE_ERR,
                    );
                } else {
                    self.text_pos_x = TARGET_TEXT_POS;
                    self.current_activity = MenuActivity::Idle;
                }
            },
            MenuActivity::Idle => {
                if self.timer_activity > 0 {
                    self.timer_activity = if self.timer_activity >= dt as i64 {
                        self.timer_activity - dt as i64
                    } else {
                        0
                    };
                } else if self.activity_direction_right {
                    proof {
                        lemma_lerp_in_interval(
                            self.text_pos_x_mod as int,
                            MAX_POS_MOD as int,
                            dt,
                            LERP_SPEED_ACTIVITY,
                            LERP_ACCEPTABLE_ERR as int,
                        );
                    }
                    self.text_pos_x_mod = lerp_toward(
                        self.text_pos_x_mod,
                        MAX_POS_MOD,
                        dt,
                        LERP_SPEED_ACTIVITY,
                        LERP_ACCEPTABLE_ERR,
                    );
                    if self.text_pos_x_mod >= MAX_POS_MOD {
                        self.activity_direction_right = false;
                        let rolled: i64 = random_in_range(ACTIVITY_TIME_MIN, ACTIVITY_TIME_MAX);
                        self.timer_activity = rolled;
                        proof {
                            dwell_used = rolled as i64;
                        }
                    }
                } else {
                    proof {
                        lemma_lerp_in_interval(
                            self.text_pos_x_mod as int,
                            -MAX_POS_MOD as int,
                            dt,
                            LERP_SPEED_ACTIVITY,
                            LERP_ACCEPTABLE_ERR as int,
                        );
                    }
                    self.text_pos_x_mod = lerp_toward(
                        self.text_pos_x_mod,
                        -MAX_POS_MOD,
                        dt,
                        LERP_SPEED_ACTIVITY,
                        LERP_ACCEPTABLE_ERR,
                    );
                    if self.text_pos_x_mod <= -MAX_POS_MOD {
                        self.activity_direction_right = true;
                        let rolled: i64 = random_in_range(ACTIVITY_TIME_MIN, ACTIVITY_TIME_MAX);
                        self.timer_activity = rolled;
                        proof {
                            dwell_used = rolled as i64;
                        }
                    }
                }
                if inp.down {
                    self.chosen_index = cursor_down(self.chosen_index, 6);
                }
                if inp.up {
                    self.chosen_index = cursor_up(self.chosen_index, 6);
                }
                if inp.reject || inp.bomb {
                    self.chosen_index = 5;
                }
                if inp.accept || inp.attack {
                    if self.chosen_index == 4 {
                        self.current_activity = MenuActivity::Hide;
                        self.next_menu_state = MenuState::Options;
                    } else if self.chosen_index == 5 {
                        self.menu_state = MenuState::Quit;
                    }
                }
                assert(*self == spec_idle_idle(m0, *inp, dt, dwell_used));
            },
            MenuActivity::Hide => {
                if self.text_pos_x > INITIAL_TEXT_POS {
                    proof {
                        lemma_lerp_in_interval(
                            self.text_pos_x as int,
                            INITIAL_TEXT_POS as int,
                            dt,
                            LERP_SPEED,
                            LERP_ACCEPTABLE_ERR as int,
                        );
                    }
                    self.text_pos_x = lerp_toward(
                        self.text_pos_x,
                        INITIAL_TEXT_POS,
                        dt,
                        LERP_SPEED,
                        LERP_ACCEPTABLE_ERR,
                    );
                } else {
                    self.chosen_index = 0;
                    self.text_pos_x_mod = 0;
                    self.current_activity = MenuActivity::Show;
                    self.menu_state = self.next_menu_state;
                }
            },
        }
        assert(*self == spec_idle_step(m0, *inp, dt, dwell_used));
    }
}

/// One left/right press applied to the row the cursor rests on: display
/// mode, frame cap (pre-clamped into its range), overlay flag, V-Sync, or
/// one of the volumes (pre-clamped into the unit interval; a left press is
/// applied before a right press read from the updated store).
pub open spec fn spec_option_apply(c: GameData, inp: InputFrame, cur: u8) -> GameData {
    if inp.left || inp.right {
        if cur == 0 {
            GameData { fullscreen: !c.fullscreen, ..c }
        } else if cur == 1 {
            let fps0 = c.max_fps;
            let c1 = if inp.left && fps0 >= MIN_FPS + FPS_STEP {
                GameData { max_fps: (fps0 - FPS_STEP) as u32, ..c }
            } else {
                c
            };
            if inp.right && fps0 + FPS_STEP <= MAX_FPS_LIMIT {
                GameData { max_fps: (fps0 + FPS_STEP) as u32, ..c1 }
            } else {
                c1
            }
        } else if cur == 2 {
            GameData { show_fps: !c.show_fps, ..c }
        } else if cur == 3 {
            GameData { vsync: !c.vsync, ..c }
        } else if cur == 4 {
            let c1 = if inp.left {
                GameData { bgm_volume: spec_vol_down(c.bgm_volume), ..c }
            } else {
                c
            };
            if inp.right {
                GameData { bgm_volume: spec_vol_up(c1.bgm_volume), ..c1 }
            } else {
                c1
            }
        } else if cur == 5 {
            let c1 = if inp.left {
                GameData { sfx_volume: spec_vol_down(c.sfx_volume), ..c }
            } else {
                c
            };
            if inp.right {
                GameData { sfx_volume: spec_vol_up(c1.sfx_volume), ..c1 }
            } else {
                c1
            }
        } else {
            c
        }
    } else {
        c
    }
}

/// A volume one step lower, clamped at silence.
pub open spec fn spec_vol_down(v: u32) -> u32 {
    if v >= VOLUME_STEP {
        (v - VOLUME_STEP) as u32
    } else {
        0
    }
}

/// A volume one step higher, clamped at full scale.
pub open spec fn spec_vol_up(v: u32) -> u32 {
    if v + VOLUME_STEP <= VOLUME_MAX {
        (v + VOLUME_STEP) as u32
    } else {
        VOLUME_MAX
    }
}

/// An accept press on the options screen: the keys row requests the
/// rebinding screen, the reset row restores the defaults, the back row
/// requests the main list; every transition routes through the hide phase.
pub open spec fn spec_option_accept(m: MainMenu, c: GameData, inp: InputFrame, cur: u8) -> (
    MainMenu,
    GameData,
) {
    if inp.accept || inp.attack {
        if cur == 6 {
            (
                MainMenu {
                    current_activity: MenuActivity::Hide,
                    next_menu_state: MenuState::OptionKBD,
                    ..m
                },
                c,
            )
        } else if cur == 7 {
            (m, GameData { window_should_close: c.window_should_close, ..crate::config::default_config() })
        } else if cur == 8 {
            (
                MainMenu {
                    current_activity: MenuActivity::Hide,
                    next_menu_state: MenuState::Idle,
                    ..m
                },
                c,
            )
        } else {
            (m, c)
        }
    } else {
        (m, c)
    }
}

/// Options screen, entering: both anchors glide toward their resting
/// places; the navigation dot appears beside the cursor's row.
pub open spec fn spec_option_show(m: MainMenu, dt: u32) -> MainMenu {
    let m1 = if m.text_pos_x < TARGET_TEXT_POS && m.text_pos_x_mod < OPTION_MOD_POS {
        MainMenu {
            text_pos_x: lerp_spec(
                m.text_pos_x as int,
                TARGET_TEXT_POS as int,
                dt,
                LERP_SPEED,
                LERP_ACCEPTABLE_ERR as int,
            ) as i64,
            text_pos_x_mod: lerp_spec(
                m.text_pos_x_mod as int,
                OPTION_MOD_POS as int,
                dt,
                LERP_SPEED,
                LERP_ACCEPTABLE_ERR as int,
            ) as i64,
            ..m
        }
    } else {
        MainMenu { text_pos_x: TARGET_TEXT_POS, current_activity: MenuActivity::Idle, ..m }
    };
    MainMenu {
        dot_x: (m1.text_pos_x - DOT_OFFSET_X) as i64,
        dot_y: (OPTION_DOT_BASE + TEXT_GAP * m1.chosen_index) as i64,
        ..m1
    }
}

/// Options screen, resting: the dot tracks the cursor at its own rate,
/// then navigation, then left/right mutation and accept dispatch.
pub open spec fn spec_option_idle(m: MainMenu, c: GameData, inp: InputFrame, dt: u32) -> (
    MainMenu,
    GameData,
) {
    let dy = lerp_spec(
        m.dot_y as int,
        OPTION_DOT_BASE + TEXT_GAP * m.chosen_index,
        dt,
        LERP_NAVDOT,
        LERP_ACCEPTABLE_ERR as int,
    ) as i64;
    let cur = spec_nav_cursor(m.chosen_index, 9, inp, 8);
    let m1 = MainMenu { dot_y: dy, chosen_index: cur, ..m };
    let c1 = spec_option_apply(c, inp, cur);
    spec_option_accept(m1, c1, inp, cur)
}

/// Options screen, leaving: anchors glide off; on arrival the pending
/// screen is committed with its re-entry row and the wobble bookkeeping is
/// reset.  The dot follows the anchor out.
pub open spec fn spec_option_hide(m: MainMenu, dt: u32) -> MainMenu {
    let m1 = if m.text_pos_x > INITIAL_TEXT_POS && m.text_pos_x_mod > 0 {
        MainMenu {
            text_pos_x: lerp_spec(
                m.text_pos_x as int,
                INITIAL_TEXT_POS as int,
                dt,
                LERP_SPEED,
                LERP_ACCEPTABLE_ERR as int,
            ) as i64,
            text_pos_x_mod: lerp_spec(
                m.text_pos_x_mod as int,
                0,
                dt,
                LERP_SPEED,
                LERP_ACCEPTABLE_ERR as int,
            ) as i64,
            ..m
        }
    } else {
        MainMenu {
            chosen_index: spec_entry_index(MenuState::Options, m.next_menu_state),
            current_activity: MenuActivity::Show,
            menu_state: m.next_menu_state,
            text_pos_x_mod: ENTRY_POS_MOD,
            activity_direction_right: false,
            timer_activity: ACTIVITY_TIME_MIN,
            ..m
        }
    };
    MainMenu { dot_x: (m1.text_pos_x - DOT_OFFSET_X) as i64, ..m1 }
}

/// One tick of the options screen, whichever phase it is in.
pub open spec fn spec_option_step(m: MainMenu, c: GameData, inp: InputFrame, dt: u32) -> (
    MainMenu,
    GameData,
) {
    match m.current_activity {
        MenuActivity::Show => (spec_option_show(m, dt), c),
        MenuActivity::Idle => spec_option_idle(m, c, inp, dt),
        MenuActivity::Hide => (spec_option_hide(m, dt), c),
    }
}

/// The action bound on each of the rebinding screen's first seven rows.
pub open spec fn spec_action_of(i: u8) -> Action {
    if i == 0 {
        Action::Up
    } else if i == 1 {
        Action::Down
    } else if i == 2 {
        Action::Left
    } else if i == 3 {
        Action::Right
    } else if i == 4 {
        Action::Attack
    } else if i == 5 {
        Action::Bomb
    } else {
        Action::Slow
    }
}

/// Rebinding screen, entering: as the options screen, with its own value
/// column offset and dot base.
pub open spec fn spec_kbd_show(m: MainMenu, dt: u32) -> MainMenu {
    let m1 = if m.text_pos_x < TARGET_TEXT_POS && m.text_pos_x_mod < KBD_MOD_POS {
        MainMenu {
            text_pos_x: lerp_spec(
                m.text_pos_x as int,
                TARGET_TEXT_POS as int,
                dt,
                LERP_SPEED,
                LERP_ACCEPTABLE_ERR as int,
            ) as i64,
            text_pos_x_mod: lerp_spec(
                m.text_pos_x_mod as int,
                KBD_MOD_POS as int,
                dt,
                LERP_SPEED,
                LERP_ACCEPTABLE_ERR as int,
            ) as i64,
            ..m
        }
    } else {
        MainMenu { text_pos_x: TARGET_TEXT_POS, current_activity: MenuActivity::Idle, ..m }
    };
    MainMenu {
        dot_x: (m1.text_pos_x - DOT_OFFSET_X) as i64,
        dot_y: (KBD_DOT_BASE + TEXT_GAP * m1.chosen_index) as i64,
        ..m1
    }
}

/// Rebinding screen, resting: the dot tracks the cursor; unless a capture
/// is pending, navigation runs and accept either arms the capture on a
/// bindable row or requests the options screen from the back row; an armed
/// capture then consumes the tick's polled key, binds it to the chosen
/// row's action, and disarms.
pub open spec fn spec_kbd_idle(m: MainMenu, c: GameData, inp: InputFrame, dt: u32) -> (
    MainMenu,
    GameData,
) {
    let dy = lerp_spec(
        m.dot_y as int,
        KBD_DOT_BASE + TEXT_GAP * m.chosen_index,
        dt,
        LERP_NAVDOT,
        LERP_ACCEPTABLE_ERR as int,
    ) as i64;
    let m1 = MainMenu { dot_y: dy, ..m };
    let m2 = if !m1.is_listening {
        let cur = spec_nav_cursor(m1.chosen_index, 8, inp, 7);
        let m1a = MainMenu { chosen_index: cur, ..m1 };
        if inp.accept || inp.attack {
            if cur <= 6 {
                MainMenu { is_listening: true, ..m1a }
            } else {
                MainMenu {
                    current_activity: MenuActivity::Hide,
                    next_menu_state: MenuState::Options,
                    ..m1a
                }
            }
        } else {
            m1a
        }
    } else {
        m1
    };
    if m2.is_listening {
        match inp.captured_key {
            Some(k) => (
                MainMenu { is_listening: false, ..m2 },
                if m2.chosen_index <= 6 {
                    spec_with_key(c, spec_action_of(m2.chosen_index), k)
                } else {
                    c
                },
            ),
            None => (m2, c),
        }
    } else {
        (m2, c)
    }
}

/// Rebinding screen, leaving: as the options screen, re-entering the
/// options screen on its keys row.
pub open spec fn spec_kbd_hide(m: MainMenu, dt: u32) -> MainMenu {
    let m1 = if m.text_pos_x > INITIAL_TEXT_POS && m.text_pos_x_mod > 0 {
        MainMenu {
            text_pos_x: lerp_spec(
                m.text_pos_x as int,
                INITIAL_TEXT_POS as int,
                dt,
                LERP_SPEED,
                LERP_ACCEPTABLE_ERR as int,
            ) as i64,
            text_pos_x_mod: lerp_spec(
                m.text_pos_x_mod as int,
                0,
                dt,
                LERP_SPEED,
                LERP_ACCEPTABLE_ERR as int,
            ) as i64,
            ..m
        }
    } else {
        MainMenu {
            chosen_index: spec_entry_index(MenuState::OptionKBD, m.next_menu_state),
            current_activity: MenuActivity::Show,
            menu_state: m.next_menu_state,
            text_pos_x_mod: ENTRY_POS_MOD,
            activity_direction_right: false,
            timer_activity: ACTIVITY_TIME_MIN,
            ..m
        }
    };
    MainMenu { dot_x: (m1.text_pos_x - DOT_OFFSET_X) as i64, ..m1 }
}

/// One tick of the rebinding screen, whichever phase it is in.
pub open spec fn spec_kbd_step(m: MainMenu, c: GameData, inp: InputFrame, dt: u32) -> (
    MainMenu,
    GameData,
) {
    match m.current_activity {
        MenuActivity::Show => (spec_kbd_show(m, dt), c),
        MenuActivity::Idle => spec_kbd_idle(m, c, inp, dt),
        MenuActivity::Hide => (spec_kbd_hide(m, dt), c),
    }
}

/// One tick of the whole machine: the active screen runs its phase; the
/// terminal state asks the host to close; the reserved states do nothing.
pub open spec fn spec_menu_step(
    m: MainMenu,
    c: GameData,
    inp: InputFrame,
    dt: u32,
    dwell: i64,
) -> (MainMenu, GameData) {
    match m.menu_state {
        MenuState::Idle => (spec_idle_step(m, inp, dt, dwell), c),
        MenuState::Options => spec_option_step(m, c, inp, dt),
        MenuState::OptionKBD => spec_kbd_step(m, c, inp, dt),
        MenuState::Quit => (m, GameData { window_should_close: true, ..c }),
        _ => (m, c),
    }
}

/// Maps a bindable row to its action.
fn action_of(i: u8) -> (r: Action)
    requires
        i <= 6,
    ensures
        r == spec_action_of(i),
{
    if i == 0 {
        Action::Up
    } else if i == 1 {
        Action::Down
    } else if i == 2 {
        Action::Left
    } else if i == 3 {
        Action::Right
    } else if i == 4 {
        Action::Attack
    } else if i == 5 {
        Action::Bomb
    } else {
        Action::Slow
    }
}

impl MainMenu {
    /// One tick of the options screen.
    #[verifier::rlimit(60)]
    fn handle_option_update(&mut self, gd: &mut GameData, inp: &InputFrame, dt: u32)
        requires
            old(self).wf(),
            old(gd).wf(),
            old(self).menu_state is Options,
        ensures
            (*final(self), *final(gd)) == spec_option_step(*old(self), *old(gd), *inp, dt),
            final(self).wf(),
            final(gd).wf(),
    {
        let ghost m0 = *self;
        let ghost c0 = *gd;
        match self.current_activity {
            MenuActivity::Show => {
                if self.text_pos_x < TARGET_TEXT_POS && self.text_pos_x_mod < OPTION_MOD_POS {
                    proof {
                        lemma_lerp_in_interval(
                            self.text_pos_x as int,
                            TARGET_TEXT_POS as int,
                            dt,
                            LERP_SPEED,
                            LERP_ACCEPTABLE_ERR as int,
                        );
                        lemma_lerp_in_interval(
                            self.text_pos_x_mod as int,
                            OPTION_MOD_POS as int,
                            dt,
                            LERP_SPEED,
                            LERP_ACCEPTABLE_ERR as int,
                        );
                    }
                    self.text_pos_x = lerp_toward(
                        self.text_pos_x,
                        TARGET_TEXT_POS,
                        dt,
                        LERP_SPEED,
                        LERP_ACCEPTABLE_ERR,
                    );
                    self.text_pos_x_mod = lerp_toward(
                        self.text_pos_x_mod,
                        OPTION_MOD_POS,
                        dt,
                        LERP_SPEED,
                        LERP_ACCEPTABLE_ERR,
                    );
                } else {
                    self.text_pos_x = TARGET_TEXT_POS;
                    self.current_activity = MenuActivity::Idle;
                }
                self.dot_x = self.text_pos_x - DOT_OFFSET_X;
                self.dot_y = OPTION_DOT_BASE + TEXT_GAP * (self.chosen_index as i64);
            },
            MenuActivity::Idle => {
                proof {
                    lemma_lerp_in_interval(
                        self.dot_y as int,
                        OPTION_DOT_BASE + TEXT_GAP * self.chosen_index,
                        dt,
                        LERP_NAVDOT,
                        LERP_ACCEPTABLE_ERR as int,
                    );
                }
                self.dot_y = lerp_toward(
                    self.dot_y,
                    OPTION_DOT_BASE + TEXT_GAP * (self.chosen_index as i64),
                    dt,
                    LERP_NAVDOT,
                    LERP_ACCEPTABLE_ERR,
                );
                if inp.down {
                    self.chosen_index = cursor_down(self.chosen_index, 9);
                }
                if inp.up {
                    self.chosen_index = cursor_up(self.chosen_index, 9);
                }
                if inp.reject || inp.bomb {
                    self.chosen_index = 8;
                }
                let ghost cur = self.chosen_index;
                let ghost m1 = *self;
                let ghost c_applied = spec_option_apply(c0, *inp, cur);
                proof {
                    assert(cur == spec_nav_cursor(m0.chosen_index, 9, *inp, 8));
                }
                if inp.left || inp.right {
                    if self.chosen_index == 0 {
                        gd.toggle_fullscreen();
                    } else if self.chosen_index == 1 {
                        let current_max_fps: u32 = gd.get_max_fps();
                        if inp.left && current_max_fps >= MIN_FPS + FPS_STEP {
                            gd.set_max_fps(current_max_fps - FPS_STEP);
                        }
                        if inp.right && current_max_fps + FPS_STEP <= MAX_FPS_LIMIT {
                            gd.set_max_fps(current_max_fps + FPS_STEP);
                        }
                    } else if self.chosen_index == 2 {
                        gd.fps_should_draw_toggle();
                    } else if self.chosen_index == 3 {
                        gd.toggle_vsync();
                    } else if self.chosen_index == 4 {
                        if inp.left {
                            let v: u32 = gd.get_bgm_volume();
                            gd.set_bgm_volume(
                                if v >= VOLUME_STEP {
                                    v - VOLUME_STEP
                                } else {
                                    0
                                },
                            );
                        }
                        if inp.right {
                            let v: u32 = gd.get_bgm_volume();
                            gd.set_bgm_volume(
                                if v + VOLUME_STEP <= VOLUME_MAX {
                                    v + VOLUME_STEP
                                } else {
                                    VOLUME_MAX
                                },
                            );
                        }
                    } else if self.chosen_index == 5 {
                        if inp.left {
                            let v: u32 = gd.get_sfx_volume();
                            gd.set_sfx_volume(
                                if v >= VOLUME_STEP {
                                    v - VOLUME_STEP
                                } else {
                                    0
                                },
                            );
                        }
                        if inp.right {
                            let v: u32 = gd.get_sfx_volume();
                            gd.set_sfx_volume(
                                if v + VOLUME_STEP <= VOLUME_MAX {
                                    v + VOLUME_STEP
                                } else {
                                    VOLUME_MAX
                                },
                            );
                        }
                    }
                }
                proof {
                    assert(*gd == c_applied);
                }
                if inp.accept || inp.attack {
                    if self.chosen_index == 6 {
                        self.current_activity = MenuActivity::Hide;
                        self.next_menu_state = MenuState::OptionKBD;
                    } else if self.chosen_index == 7 {
                        gd.reset_options();
                    } else if self.chosen_index == 8 {
                        self.current_activity = MenuActivity::Hide;
                        self.next_menu_state = MenuState::Idle;
                    }
                }
                proof {
                    assert((*self, *gd) == spec_option_accept(m1, c_applied, *inp, cur));
                    assert((*self, *gd) == spec_option_idle(m0, c0, *inp, dt));
                }
            },
            MenuActivity::Hide => {
                if self.text_pos_x > INITIAL_TEXT_POS && self.text_pos_x_mod > 0 {
                    proof {
                        lemma_lerp_in_interval(
                            self.text_pos_x as int,
                            INITIAL_TEXT_POS as int,
                            dt,
                            LERP_SPEED,
                            LERP_ACCEPTABLE_ERR as int,
                        );
                        lemma_lerp_in_interval(
                            self.text_pos_x_mod as int,
                            0,
                            dt,
                            LERP_SPEED,
                            LERP_ACCEPTABLE_ERR as int,
                        );
                    }
                    self.text_pos_x = lerp_toward(
                        self.text_pos_x,
                        INITIAL_TEXT_POS,
                        dt,
                        LERP_SPEED,
                        LERP_ACCEPTABLE_ERR,
                    );
                    self.text_pos_x_mod = lerp_toward(
                        self.text_pos_x_mod,
                        0,
                        dt,
                        LERP_SPEED,
                        LERP_ACCEPTABLE_ERR,
                    );
                } else {
                    self.chosen_index = if matches!(self.next_menu_state, MenuState::Idle) {
                        4
                    } else {
                        0
                    };
                    self.current_activity = MenuActivity::Show;
                    self.menu_state = self.next_menu_state;
                    self.text_pos_x_mod = ENTRY_POS_MOD;
                    self.activity_direction_right = false;
                    self.timer_activity = ACTIVITY_TIME_MIN;
                }
                self.dot_x = self.text_pos_x - DOT_OFFSET_X;
            },
        }
    }

    /// One tick of the key-rebinding screen.
    #[verifier::rlimit(60)]
    fn handle_option_kbd_update(&mut self, gd: &mut GameData, inp: &InputFrame, dt: u32)
        requires
            old(self).wf(),
            old(gd).wf(),
            old(self).menu_state is OptionKBD,
        ensures
            (*final(self), *final(gd)) == spec_kbd_step(*old(self), *old(gd), *inp, dt),
            final(self).wf(),
            final(gd).wf(),
    {
        let ghost m0 = *self;
        let ghost c0 = *gd;
        match self.current_activity {
            MenuActivity::Show => {
                if self.text_pos_x < TARGET_TEXT_POS && self.text_pos_x_mod < KBD_MOD_POS {
                    proof {
                        lemma_lerp_in_interval(
                            self.text_pos_x as int,
                            TARGET_TEXT_POS as int,
                            dt,
                            LERP_SPEED,
                            LERP_ACCEPTABLE_ERR as int,
                        );
                        lemma_lerp_in_interval(
                            self.text_pos_x_mod as int,
                            KBD_MOD_POS as int,
                            dt,
                            LERP_SPEED,
                            LERP_ACCEPTABLE_ERR as int,
                        );
                    }
                    self.text_pos_x = lerp_toward(
                        self.text_pos_x,
                        TARGET_TEXT_POS,
                        dt,
                        LERP_SPEED,
                        LERP_ACCEPTABLE_ERR,
                    );
                    self.text_pos_x_mod = lerp_toward(
                        self.text_pos_x_mod,
                        KBD_MOD_POS,
                        dt,
                        LERP_SPEED,
                        LERP_ACCEPTABLE_ERR,
                    );
                } else {
                    self.text_pos_x = TARGET_TEXT_POS;
                    self.current_activity = MenuActivity::Idle;
                }
                self.dot_x = self.text_pos_x - DOT_OFFSET_X;
                self.dot_y = KBD_DOT_BASE + TEXT_GAP * (self.chosen_index as i64);
            },
            MenuActivity::Idle => {
                proof {
                    lemma_lerp_in_interval(
                        self.dot_y as int,
                        KBD_DOT_BASE + TEXT_GAP * self.chosen_index,
                        dt,
                        LERP_NAVDOT,
                        LERP_ACCEPTABLE_ERR as int,
                    );
                }
                self.dot_y = lerp_toward(
                    self.dot_y,
                    KBD_DOT_BASE + TEXT_GAP * (self.chosen_index as i64),
                    dt,
                    LERP_NAVDOT,
                    LERP_ACCEPTABLE_ERR,
                );
                let ghost m1 = *self;
                if !self.is_listening {
                    if inp.down {
                        self.chosen_index = cursor_down(self.chosen_index, 8);
                    }
                    if inp.up {
                        self.chosen_index = cursor_up(self.chosen_index, 8);
                    }
                    if inp.reject || inp.bomb {
                        self.chosen_index = 7;
                    }
                    if inp.accept || inp.attack {
                        if self.chosen_index <= 6 {
                            self.is_listening = true;
                        } else {
                            self.current_activity = MenuActivity::Hide;
                            self.next_menu_state = MenuState::Options;
                        }
                    }
                }
                let ghost m2 = *self;
                if self.is_listening {
                    match inp.captured_key {
                        Some(k) => {
                            if self.chosen_index <= 6 {
                                let action = action_of(self.chosen_index);
                                gd.set_key(action, k);
                            }
                            self.is_listening = false;
                        },
                        None => {},
                    }
                }
                proof {
                    assert(m1 == (MainMenu {
                        dot_y: lerp_spec(
                            m0.dot_y as int,
                            KBD_DOT_BASE + TEXT_GAP * m0.chosen_index,
                            dt,
                            LERP_NAVDOT,
                            LERP_ACCEPTABLE_ERR as int,
                        ) as i64,
                        ..m0
                    }));
                    assert((*self, *gd) == spec_kbd_idle(m0, c0, *inp, dt));
                }
            },
            MenuActivity::Hide => {
                if self.text_pos_x > INITIAL_TEXT_POS && self.text_pos_x_mod > 0 {
                    proof {
                        lemma_lerp_in_interval(
                            self.text_pos_x as int,
                            INITIAL_TEXT_POS as int,
                            dt,
                            LERP_SPEED,
                            LERP_ACCEPTABLE_ERR as int,
                        );
                        lemma_lerp_in_interval(
                            self.text_pos_x_mod as int,
                            0,
                            dt,
                            LERP_SPEED,
                            LERP_ACCEPTABLE_ERR as int,
                        );
                    }
                    self.text_pos_x = lerp_toward(
                        self.text_pos_x,
                        INITIAL_TEXT_POS,
                        dt,
                        LERP_SPEED,
                        LERP_ACCEPTABLE_ERR,
                    );
                    self.text_pos_x_mod = lerp_toward(
                        self.text_pos_x_mod,
                        0,
                        dt,
                        LERP_SPEED,
                        LERP_ACCEPTABLE_ERR,
                    );
                } else {
                    self.chosen_index = if matches!(self.next_menu_state, MenuState::Options) {
                        6
                    } else {
                        0
                    };
                    self.current_activity = MenuActivity::Show;
                    self.menu_state = self.next_menu_state;
                    self.text_pos_x_mod = ENTRY_POS_MOD;
                    self.activity_direction_right = false;
                    self.timer_activity = ACTIVITY_TIME_MIN;
                }
                self.dot_x = self.text_pos_x - DOT_OFFSET_X;
            },
        }
    }

    /// One tick of the whole menu.  The active screen's phase runs once;
    /// on the terminal state the store's close flag is raised.  The one
    /// non-deterministic ingredient is the freshly drawn wobble dwell, so
    /// the outcome is pinned down for some dwell in the documented range.
    #[verifier::rlimit(60)]
    pub fn update(&mut self, gd: &mut GameData, inp: &InputFrame, dt: u32)
        requires
            old(self).wf(),
            old(gd).wf(),
        ensures
            exists|dwell: i64|
                #![auto]
                ACTIVITY_TIME_MIN <= dwell < ACTIVITY_TIME_MAX && (*final(self), *final(gd))
                    == spec_menu_step(*old(self), *old(gd), *inp, dt, dwell),
            final(self).wf(),
            final(gd).wf(),
    {
        let ghost m0 = *self;
        let ghost c0 = *gd;
        match self.menu_state {
            MenuState::Idle => {
                self.handle_idle_update(inp, dt);
                proof {
                    let d = choose|d: i64|
                        ACTIVITY_TIME_MIN <= d < ACTIVITY_TIME_MAX && *self == spec_idle_step(
                            m0,
                            *inp,
                            dt,
                            d,
                        );
                    assert((*self, *gd) == spec_menu_step(m0, c0, *inp, dt, d));
                }
            },
            MenuState::Options => {
                self.handle_option_update(gd, inp, dt);
                assert((*self, *gd) == spec_menu_step(m0, c0, *inp, dt, ACTIVITY_TIME_MIN));
            },
            MenuState::OptionKBD => {
                self.handle_option_kbd_update(gd, inp, dt);
                assert((*self, *gd) == spec_menu_step(m0, c0, *inp, dt, ACTIVITY_TIME_MIN));
            },
            MenuState::Quit => {
                gd.window_must_close();
                assert((*self, *gd) == spec_menu_step(m0, c0, *inp, dt, ACTIVITY_TIME_MIN));
            },
            _ => {
                assert((*self, *gd) == spec_menu_step(m0, c0, *inp, dt, ACTIVITY_TIME_MIN));
            },
        }
    }
}

} // verus!
