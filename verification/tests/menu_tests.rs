use menu_core::config::Action;
use menu_core::config::GameData;
use menu_core::input::InputFrame;
use menu_core::menu::cursor_down;
use menu_core::menu::cursor_up;
use menu_core::menu::MainMenu;
use menu_core::menu::MenuActivity;
use menu_core::menu::MenuState;
use menu_core::menu::ACTIVITY_TIME_MAX;
use menu_core::menu::ACTIVITY_TIME_MIN;
use menu_core::menu::INITIAL_TEXT_POS;
use menu_core::menu::TARGET_TEXT_POS;

const DT: u32 = 16;

fn idle_input() -> InputFrame {
    InputFrame::none()
}

fn press_down() -> InputFrame {
    InputFrame { down: true, ..InputFrame::none() }
}

fn press_accept() -> InputFrame {
    InputFrame { accept: true, ..InputFrame::none() }
}

fn press_reject() -> InputFrame {
    InputFrame { reject: true, ..InputFrame::none() }
}

/// Ticks with no input until the current screen has finished entering.
fn settle_into_idle(menu: &mut MainMenu, gd: &mut GameData) {
    let mut guard: u32 = 0;
    while menu.current_activity != MenuActivity::Idle {
        menu.update(gd, &idle_input(), DT);
        guard += 1;
        assert!(guard < 1000, "screen never finished entering");
    }
}

/// Ticks with no input until a pending hide transition has been committed.
fn settle_into_screen(menu: &mut MainMenu, gd: &mut GameData, target: MenuState) {
    let mut guard: u32 = 0;
    while menu.menu_state != target {
        menu.update(gd, &idle_input(), DT);
        guard += 1;
        assert!(guard < 1000, "transition never committed");
    }
}

#[test]
fn cursor_wraps_on_every_screen_size() {
    for count in [6u8, 8, 9] {
        assert_eq!(cursor_down(count - 1, count), 0);
        assert_eq!(cursor_up(0, count), count - 1);
        for i in 0..count - 1 {
            assert_eq!(cursor_down(i, count), i + 1);
            assert_eq!(cursor_up(i + 1, count), i);
        }
    }
}

#[test]
fn showing_converges_onto_the_resting_anchor() {
    let mut menu = MainMenu::new();
    let mut gd = GameData::new();
    assert_eq!(menu.text_pos_x, INITIAL_TEXT_POS);
    assert_eq!(menu.current_activity, MenuActivity::Show);
    settle_into_idle(&mut menu, &mut gd);
    assert_eq!(menu.current_activity, MenuActivity::Idle);
    assert_eq!(menu.text_pos_x, TARGET_TEXT_POS);
}

#[test]
fn configure_keys_row_routes_through_hide_into_the_rebind_screen() {
    let mut menu = MainMenu::new();
    let mut gd = GameData::new();
    settle_into_idle(&mut menu, &mut gd);
    // Main list: move from the first row down to the options row.
    for _ in 0..4 {
        menu.update(&mut gd, &press_down(), DT);
    }
    assert_eq!(menu.chosen_index, 4);
    menu.update(&mut gd, &press_accept(), DT);
    assert_eq!(menu.current_activity, MenuActivity::Hide);
    settle_into_screen(&mut menu, &mut gd, MenuState::Options);
    settle_into_idle(&mut menu, &mut gd);
    assert_eq!(menu.chosen_index, 0);
    // Options: move down to the configure-keys row and accept.
    for _ in 0..6 {
        menu.update(&mut gd, &press_down(), DT);
    }
    assert_eq!(menu.chosen_index, 6);
    menu.update(&mut gd, &press_accept(), DT);
    assert_eq!(menu.current_activity, MenuActivity::Hide);
    assert_eq!(menu.menu_state, MenuState::Options);
    settle_into_screen(&mut menu, &mut gd, MenuState::OptionKBD);
    assert_eq!(menu.chosen_index, 0);
    assert_eq!(menu.current_activity, MenuActivity::Show);
}

#[test]
fn capturing_a_key_rebinds_the_attack_action_and_disarms() {
    let mut menu = MainMenu::new();
    let mut gd = GameData::new();
    settle_into_idle(&mut menu, &mut gd);
    for _ in 0..4 {
        menu.update(&mut gd, &press_down(), DT);
    }
    menu.update(&mut gd, &press_accept(), DT);
    settle_into_screen(&mut menu, &mut gd, MenuState::Options);
    settle_into_idle(&mut menu, &mut gd);
    for _ in 0..6 {
        menu.update(&mut gd, &press_down(), DT);
    }
    menu.update(&mut gd, &press_accept(), DT);
    settle_into_screen(&mut menu, &mut gd, MenuState::OptionKBD);
    settle_into_idle(&mut menu, &mut gd);
    // Select the attack row and arm the capture.
    for _ in 0..4 {
        menu.update(&mut gd, &press_down(), DT);
    }
    assert_eq!(menu.chosen_index, 4);
    menu.update(&mut gd, &press_accept(), DT);
    assert!(menu.is_listening);
    // Navigation is suspended while a capture is armed.
    menu.update(&mut gd, &press_down(), DT);
    assert_eq!(menu.chosen_index, 4);
    // The next polled key is bound and the capture ends.
    let captured = InputFrame { captured_key: Some(74), ..InputFrame::none() };
    menu.update(&mut gd, &captured, DT);
    assert_eq!(gd.key(Action::Attack), 74);
    assert!(!menu.is_listening);
}

#[test]
fn returning_from_options_re_enters_the_main_list_on_the_options_row() {
    let mut menu = MainMenu::new();
    let mut gd = GameData::new();
    settle_into_idle(&mut menu, &mut gd);
    for _ in 0..4 {
        menu.update(&mut gd, &press_down(), DT);
    }
    menu.update(&mut gd, &press_accept(), DT);
    settle_into_screen(&mut menu, &mut gd, MenuState::Options);
    settle_into_idle(&mut menu, &mut gd);
    // Reject jumps to the back row; accept leaves for the main list.
    menu.update(&mut gd, &press_reject(), DT);
    assert_eq!(menu.chosen_index, 8);
    menu.update(&mut gd, &press_accept(), DT);
    settle_into_screen(&mut menu, &mut gd, MenuState::Idle);
    assert_eq!(menu.chosen_index, 4);
}

#[test]
fn left_and_right_mutate_the_selected_option_row() {
    let mut menu = MainMenu::new();
    let mut gd = GameData::new();
    settle_into_idle(&mut menu, &mut gd);
    for _ in 0..4 {
        menu.update(&mut gd, &press_down(), DT);
    }
    menu.update(&mut gd, &press_accept(), DT);
    settle_into_screen(&mut menu, &mut gd, MenuState::Options);
    settle_into_idle(&mut menu, &mut gd);
    // Row 0: display mode.
    let flip = InputFrame { right: true, ..InputFrame::none() };
    menu.update(&mut gd, &flip, DT);
    assert!(gd.is_fullscreen());
    // Row 1: frame cap, one step left.
    menu.update(&mut gd, &press_down(), DT);
    let left = InputFrame { left: true, ..InputFrame::none() };
    menu.update(&mut gd, &left, DT);
    assert_eq!(gd.get_max_fps(), 48);
    // Row 4: volume steps down a tenth of full scale, clamped at silence.
    for _ in 0..3 {
        menu.update(&mut gd, &press_down(), DT);
    }
    for _ in 0..12 {
        menu.update(&mut gd, &left, DT);
    }
    assert_eq!(gd.get_bgm_volume(), 0);
}

#[test]
fn quit_row_raises_the_close_flag() {
    let mut menu = MainMenu::new();
    let mut gd = GameData::new();
    settle_into_idle(&mut menu, &mut gd);
    menu.update(&mut gd, &press_reject(), DT);
    assert_eq!(menu.chosen_index, 5);
    menu.update(&mut gd, &press_accept(), DT);
    assert_eq!(menu.menu_state, MenuState::Quit);
    assert!(!gd.window_should_close());
    menu.update(&mut gd, &idle_input(), DT);
    assert!(gd.window_should_close());
}

#[test]
fn wobble_rearms_the_dwell_inside_its_documented_range() {
    let mut menu = MainMenu::new();
    let mut gd = GameData::new();
    settle_into_idle(&mut menu, &mut gd);
    // Run the dwell timer out in one long tick, then wobble until the
    // direction reverses and a fresh dwell is drawn.
    menu.update(&mut gd, &idle_input(), 10_000);
    assert_eq!(menu.timer_activity, 0);
    let starting_direction = menu.activity_direction_right;
    let mut guard: u32 = 0;
    while menu.activity_direction_right == starting_direction {
        menu.update(&mut gd, &idle_input(), DT);
        guard += 1;
        assert!(guard < 10_000, "wobble never reached its extreme");
    }
    assert!(ACTIVITY_TIME_MIN <= menu.timer_activity && menu.timer_activity < ACTIVITY_TIME_MAX);
}
