use menu_core::config::Action;
use menu_core::config::GameData;
use menu_core::config::DEFAULT_KEY_ATTACK;
use menu_core::config::DEFAULT_KEY_BOMB;
use menu_core::config::DEFAULT_KEY_DOWN;
use menu_core::config::DEFAULT_KEY_LEFT;
use menu_core::config::DEFAULT_KEY_RIGHT;
use menu_core::config::DEFAULT_KEY_SLOW;
use menu_core::config::DEFAULT_KEY_UP;

#[test]
fn volume_set_then_get_is_exact() {
    let mut gd = GameData::new();
    for v in [0u32, 1, 100, 350, 501, 999, 1000] {
        gd.set_bgm_volume(v);
        assert_eq!(gd.get_bgm_volume(), v);
        gd.set_sfx_volume(1000 - v);
        assert_eq!(gd.get_sfx_volume(), 1000 - v);
    }
}

#[test]
fn volume_percent_rounds_to_nearest() {
    let mut gd = GameData::new();
    assert_eq!(gd.get_bgm_volume_prc(), 100);
    gd.set_bgm_volume(350);
    assert_eq!(gd.get_bgm_volume_prc(), 35);
    gd.set_bgm_volume(5);
    assert_eq!(gd.get_bgm_volume_prc(), 1);
    gd.set_bgm_volume(4);
    assert_eq!(gd.get_bgm_volume_prc(), 0);
    gd.set_sfx_volume(994);
    assert_eq!(gd.get_sfx_volume_prc(), 99);
    gd.set_sfx_volume(995);
    assert_eq!(gd.get_sfx_volume_prc(), 100);
}

#[test]
fn reset_restores_every_default_after_mutation() {
    let mut gd = GameData::new();
    gd.toggle_fullscreen();
    gd.set_max_fps(144);
    gd.fps_should_draw_toggle();
    gd.toggle_vsync();
    gd.set_bgm_volume(200);
    gd.set_sfx_volume(300);
    gd.set_key(Action::Up, 87);
    gd.set_key(Action::Attack, 74);
    gd.reset_options();
    let fresh = GameData::new();
    assert_eq!(gd, fresh);
    assert!(!gd.is_fullscreen());
    assert_eq!(gd.get_max_fps(), 60);
    assert!(gd.fps_should_draw());
    assert!(!gd.is_vsync_enabled());
    assert_eq!(gd.get_bgm_volume(), 1000);
    assert_eq!(gd.get_sfx_volume(), 1000);
    assert_eq!(gd.key(Action::Up), DEFAULT_KEY_UP);
    assert_eq!(gd.key(Action::Down), DEFAULT_KEY_DOWN);
    assert_eq!(gd.key(Action::Left), DEFAULT_KEY_LEFT);
    assert_eq!(gd.key(Action::Right), DEFAULT_KEY_RIGHT);
    assert_eq!(gd.key(Action::Attack), DEFAULT_KEY_ATTACK);
    assert_eq!(gd.key(Action::Bomb), DEFAULT_KEY_BOMB);
    assert_eq!(gd.key(Action::Slow), DEFAULT_KEY_SLOW);
}

#[test]
fn reset_keeps_the_close_flag() {
    let mut gd = GameData::new();
    gd.window_must_close();
    gd.reset_options();
    assert!(gd.window_should_close());
}

#[test]
fn rebinding_overwrites_without_collision_detection() {
    let mut gd = GameData::new();
    gd.set_key(Action::Bomb, 90);
    assert_eq!(gd.key(Action::Bomb), 90);
    // The attack action already uses key 90: both may share it.
    assert_eq!(gd.key(Action::Attack), 90);
}

#[test]
fn toggles_flip_their_flag() {
    let mut gd = GameData::new();
    assert!(!gd.is_fullscreen());
    gd.toggle_fullscreen();
    assert!(gd.is_fullscreen());
    gd.toggle_fullscreen();
    assert!(!gd.is_fullscreen());
    assert!(!gd.is_vsync_enabled());
    gd.toggle_vsync();
    assert!(gd.is_vsync_enabled());
    assert!(gd.fps_should_draw());
    gd.fps_should_draw_toggle();
    assert!(!gd.fps_should_draw());
}
