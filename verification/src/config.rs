//! The configuration store: every persisted runtime setting plus the
//! host-observed "window must close" flag.
//!
//! Volumes are fixed-point integers in thousandths of full scale, so the
//! unit interval of the display format maps onto `0 ..= 1000`.  Key bindings
//! are the platform's raw key codes.  Setters demand in-range values: call
//! sites pre-clamp, and an out-of-range argument is a caller bug, not a
//! runtime condition.  The host persists the store (see the record module)
//! after any tick that mutated it.

use vstd::prelude::*;

verus! {

/// Full scale of a fixed-point volume: `1000` stands for the display value
/// `1.0`.
pub const VOLUME_MAX: u32 = 1000;

/// Amount one left/right press on a volume row moves the volume by: a tenth
/// of full scale.
pub const VOLUME_STEP: u32 = 100;

/// Smallest accepted frame-rate cap.
pub const MIN_FPS: u32 = 30;

/// Largest accepted frame-rate cap.
pub const MAX_FPS_LIMIT: u32 = 480;

/// Amount one left/right press on the frame-rate row moves the cap by.
pub const FPS_STEP: u32 = 12;

// Compiled-in defaults.
pub const DEFAULT_FULLSCREEN: bool = false;
pub const DEFAULT_MAX_FPS: u32 = 60;
pub const DEFAULT_SHOW_FPS: bool = true;
pub const DEFAULT_VSYNC: bool = false;
pub const DEFAULT_BGM_VOLUME: u32 = 1000;
pub const DEFAULT_SFX_VOLUME: u32 = 1000;

// Default key bindings, as raw key codes (arrow keys, Z, X, left shift).
pub const DEFAULT_KEY_UP: u32 = 265;
pub const DEFAULT_KEY_DOWN: u32 = 264;
pub const DEFAULT_KEY_LEFT: u32 = 263;
pub const DEFAULT_KEY_RIGHT: u32 = 262;
pub const DEFAULT_KEY_ATTACK: u32 = 90;
pub const DEFAULT_KEY_BOMB: u32 = 88;
pub const DEFAULT_KEY_SLOW: u32 = 340;

/// The closed set of logical input actions a physical key can be bound to.
#[derive(Clone, Copy, PartialEq, Eq, Structural, Debug)]
pub enum Action {
    Up,
    Down,
    Left,
    Right,
    Attack,
    Bomb,
    Slow,
}

/// Every persisted/runtime setting, plus the flag the host loop polls to
/// decide when to close the window.  Each action always has exactly one
/// bound key; two actions may share one, which is a documented limitation.
#[derive(Clone, Copy, PartialEq, Eq, Structural, Debug)]
pub struct GameData {
    pub window_should_close: bool,
    pub fullscreen: bool,
    pub max_fps: u32,
    pub show_fps: bool,
    pub vsync: bool,
    pub bgm_volume: u32,
    pub sfx_volume: u32,
    pub key_up: u32,
    pub key_down: u32,
    pub key_left: u32,
    pub key_right: u32,
    pub key_attack: u32,
    pub key_bomb: u32,
    pub key_slow: u32,
}

/// The compiled-in default configuration, with the close flag clear.
pub open spec fn default_config() -> GameData {
    GameData {
        window_should_close: false,
        fullscreen: DEFAULT_FULLSCREEN,
        max_fps: DEFAULT_MAX_FPS,
        show_fps: DEFAULT_SHOW_FPS,
        vsync: DEFAULT_VSYNC,
        bgm_volume: DEFAULT_BGM_VOLUME,
        sfx_volume: DEFAULT_SFX_VOLUME,
        key_up: DEFAULT_KEY_UP,
        key_down: DEFAULT_KEY_DOWN,
        key_left: DEFAULT_KEY_LEFT,
        key_right: DEFAULT_KEY_RIGHT,
        key_attack: DEFAULT_KEY_ATTACK,
        key_bomb: DEFAULT_KEY_BOMB,
        key_slow: DEFAULT_KEY_SLOW,
    }
}

/// The key bound to `action` in `c`.
pub open spec fn spec_key_of(c: GameData, action: Action) -> u32 {
    match action {
        Action::Up => c.key_up,
        Action::Down => c.key_down,
        Action::Left => c.key_left,
        Action::Right => c.key_right,
        Action::Attack => c.key_attack,
        Action::Bomb => c.key_bomb,
        Action::Slow => c.key_slow,
    }
}

/// `c` with `action` rebound to `key` and everything else unchanged.
pub open spec fn spec_with_key(c: GameData, action: Action, key: u32) -> GameData {
    match action {
        Action::Up => GameData { key_up: key, ..c },
        Action::Down => GameData { key_down: key, ..c },
        Action::Left => GameData { key_left: key, ..c },
        Action::Right => GameData { key_right: key, ..c },
        Action::Attack => GameData { key_attack: key, ..c },
        Action::Bomb => GameData { key_bomb: key, ..c },
        Action::Slow => GameData { key_slow: key, ..c },
    }
}

impl GameData {
    /// Both volumes inside the unit interval and the frame-rate cap inside
    /// its bounded range.  Constructors establish this and every mutator
    /// preserves it.
    pub open spec fn wf(self) -> bool {
        &&& self.bgm_volume <= VOLUME_MAX
        &&& self.sfx_volume <= VOLUME_MAX
        &&& MIN_FPS <= self.max_fps <= MAX_FPS_LIMIT
    }

    /// Fresh store holding the compiled-in defaults.
    pub fn new() -> (r: GameData)
        ensures
            r == default_config(),
            r.wf(),
    {
        GameData {
            window_should_close: false,
            fullscreen: DEFAULT_FULLSCREEN,
            max_fps: DEFAULT_MAX_FPS,
            show_fps: DEFAULT_SHOW_FPS,
            vsync: DEFAULT_VSYNC,
            bgm_volume: DEFAULT_BGM_VOLUME,
            sfx_volume: DEFAULT_SFX_VOLUME,
            key_up: DEFAULT_KEY_UP,
            key_down: DEFAULT_KEY_DOWN,
            key_left: DEFAULT_KEY_LEFT,
            key_right: DEFAULT_KEY_RIGHT,
            key_attack: DEFAULT_KEY_ATTACK,
            key_bomb: DEFAULT_KEY_BOMB,
            key_slow: DEFAULT_KEY_SLOW,
        }
    }

    /// Requests that the host close the window on its next iteration.
    pub fn window_must_close(&mut self)
        ensures
            *final(self) == (GameData { window_should_close: true, ..*old(self) }),
    {
        self.window_should_close = true;
    }

    /// Whether the host must close the window.
    pub fn window_should_close(&self) -> (r: bool)
        ensures
            r == self.window_should_close,
    {
        self.window_should_close
    }

    /// Flips the display mode; the host applies the matching window-mode
    /// change and persists.
    pub fn toggle_fullscreen(&mut self)
        ensures
            *final(self) == (GameData { fullscreen: !old(self).fullscreen, ..*old(self) }),
    {
        self.fullscreen = !self.fullscreen;
    }

    /// Whether the display mode is fullscreen.
    pub fn is_fullscreen(&self) -> (r: bool)
        ensures
            r == self.fullscreen,
    {
        self.fullscreen
    }

    /// Sets the frame-rate cap.  Callers pre-clamp into the accepted range.
    pub fn set_max_fps(&mut self, new_max_fps: u32)
        requires
            MIN_FPS <= new_max_fps <= MAX_FPS_LIMIT,
        ensures
            *final(self) == (GameData { max_fps: new_max_fps, ..*old(self) }),
    {
        self.max_fps = new_max_fps;
    }

    /// The current frame-rate cap.
    pub fn get_max_fps(&self) -> (r: u32)
        ensures
            r == self.max_fps,
    {
        self.max_fps
    }

    /// Flips whether the frame-rate overlay is drawn.
    pub fn fps_should_draw_toggle(&mut self)
        ensures
            *final(self) == (GameData { show_fps: !old(self).show_fps, ..*old(self) }),
    {
        self.show_fps = !self.show_fps;
    }

    /// Whether the frame-rate overlay is drawn.
    pub fn fps_should_draw(&self) -> (r: bool)
        ensures
            r == self.show_fps,
    {
        self.show_fps
    }

    /// Flips V-Sync; the host applies the matching window hint and persists.
    pub fn toggle_vsync(&mut self)
        ensures
            *final(self) == (GameData { vsync: !old(self).vsync, ..*old(self) }),
    {
        self.vsync = !self.vsync;
    }

    /// Whether V-Sync is enabled.
    pub fn is_vsync_enabled(&self) -> (r: bool)
        ensures
            r == self.vsync,
    {
        self.vsync
    }

    /// Sets the background-music volume.  Callers pre-clamp into the unit
    /// interval.
    pub fn set_bgm_volume(&mut self, new_volume: u32)
        requires
            new_volume <= VOLUME_MAX,
        ensures
            *final(self) == (GameData { bgm_volume: new_volume, ..*old(self) }),
    {
        self.bgm_volume = new_volume;
    }

    /// The current background-music volume, in thousandths of full scale.
    pub fn get_bgm_volume(&self) -> (r: u32)
        ensures
            r == self.bgm_volume,
    {
        self.bgm_volume
    }

    /// The background-music volume in whole percent, rounded to nearest.
    pub fn get_bgm_volume_prc(&self) -> (r: u32)
        requires
            self.wf(),
        ensures
            r == (self.bgm_volume + 5) / 10,
    {
        (self.bgm_volume + 5) / 10
    }

    /// Sets the sound-effect volume.  Callers pre-clamp into the unit
    /// interval.
    pub fn set_sfx_volume(&mut self, new_volume: u32)
        requires
            new_volume <= VOLUME_MAX,
        ensures
            *final(self) == (GameData { sfx_volume: new_volume, ..*old(self) }),
    {
        self.sfx_volume = new_volume;
    }

    /// The current sound-effect volume, in thousandths of full scale.
    pub fn get_sfx_volume(&self) -> (r: u32)
        ensures
            r == self.sfx_volume,
    {
        self.sfx_volume
    }

    /// The sound-effect volume in whole percent, rounded to nearest.
    pub fn get_sfx_volume_prc(&self) -> (r: u32)
        requires
            self.wf(),
        ensures
            r == (self.sfx_volume + 5) / 10,
    {
        (self.sfx_volume + 5) / 10
    }

    /// Restores every option to its compiled-in default, whatever was
    /// mutated before; only the close flag survives.  The host applies the
    /// matching window-mode, frame-cap and V-Sync side effects and persists.
    pub fn reset_options(&mut self)
        ensures
            *final(self) == (GameData {
                window_should_close: old(self).window_should_close,
                ..default_config()
            }),
            final(self).wf(),
    {
        self.fullscreen = DEFAULT_FULLSCREEN;
        self.max_fps = DEFAULT_MAX_FPS;
        self.show_fps = DEFAULT_SHOW_FPS;
        self.vsync = DEFAULT_VSYNC;
        self.bgm_volume = DEFAULT_BGM_VOLUME;
        self.sfx_volume = DEFAULT_SFX_VOLUME;
        self.key_up = DEFAULT_KEY_UP;
        self.key_down = DEFAULT_KEY_DOWN;
        self.key_left = DEFAULT_KEY_LEFT;
        self.key_right = DEFAULT_KEY_RIGHT;
        self.key_attack = DEFAULT_KEY_ATTACK;
        self.key_bomb = DEFAULT_KEY_BOMB;
        self.key_slow = DEFAULT_KEY_SLOW;
    }

    /// The key bound to `action`.
    pub fn key(&self, action: Action) -> (r: u32)
        ensures
            r == spec_key_of(*self, action),
    {
        match action {
            Action::Up => self.key_up,
            Action::Down => self.key_down,
            Action::Left => self.key_left,
            Action::Right => self.key_right,
            Action::Attack => self.key_attack,
            Action::Bomb => self.key_bomb,
            Action::Slow => self.key_slow,
        }
    }

    /// Rebinds `action` to `new_key`, unconditionally overwriting the old
    /// binding; no collision detection against the other actions.
    pub fn set_key(&mut self, action: Action, new_key: u32)
        ensures
            *final(self) == spec_with_key(*old(self), action, new_key),
    {
        match action {
            Action::Up => self.key_up = new_key,
            Action::Down => self.key_down = new_key,
            Action::Left => self.key_left = new_key,
            Action::Right => self.key_right = new_key,
            Action::Attack => self.key_attack = new_key,
            Action::Bomb => self.key_bomb = new_key,
            Action::Slow => self.key_slow = new_key,
        }
    }
}

/// Law: setting a volume and reading it back yields exactly the value set,
/// whatever the store held before.  The premises are the postconditions of
/// the volume setters and getters.
pub proof fn lemma_volume_set_get(c0: GameData, c1: GameData, v: u32)
    requires
        v <= VOLUME_MAX,
        c1 == (GameData { bgm_volume: v, ..c0 }) || c1 == (GameData { sfx_volume: v, ..c0 }),
    ensures
        c1 == (GameData { bgm_volume: v, ..c0 }) ==> c1.bgm_volume == v,
        c1 == (GameData { sfx_volume: v, ..c0 }) ==> c1.sfx_volume == v,
{
}

/// Law: after a reset, every option field reads exactly its compiled-in
/// default, regardless of the prior mutation history; only the close flag
/// survives.  The premise is the postcondition of `reset_options`.
pub proof fn lemma_reset_restores_defaults(c0: GameData, c1: GameData)
    requires
        c1 == (GameData { window_should_close: c0.window_should_close, ..default_config() }),
    ensures
        c1.fullscreen == DEFAULT_FULLSCREEN,
        c1.max_fps == DEFAULT_MAX_FPS,
        c1.show_fps == DEFAULT_SHOW_FPS,
        c1.vsync == DEFAULT_VSYNC,
        c1.bgm_volume == DEFAULT_BGM_VOLUME,
        c1.sfx_volume == DEFAULT_SFX_VOLUME,
        forall|a: Action| spec_key_of(c1, a) == spec_key_of(default_config(), a),
        c1.window_should_close == c0.window_should_close,
{
}

} // verus!
