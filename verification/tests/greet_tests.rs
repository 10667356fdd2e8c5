use menu_core::greet::GreetScreen;
use menu_core::GameState;

#[test]
fn forward_input_is_ignored_before_the_threshold() {
    let mut greet = GreetScreen::new();
    let mut gs = GameState::GreetingScreen;
    for _ in 0..4 {
        greet.update(true, 100, &mut gs);
        assert_eq!(gs, GameState::GreetingScreen);
    }
    assert!(!greet.is_loaded);
}

#[test]
fn forward_input_moves_to_the_menu_once_ready() {
    let mut greet = GreetScreen::new();
    let mut gs = GameState::GreetingScreen;
    for _ in 0..5 {
        greet.update(false, 100, &mut gs);
    }
    // The threshold tick flips readiness and already accepts input.
    greet.update(true, 100, &mut gs);
    assert!(greet.is_loaded);
    assert_eq!(gs, GameState::MainMenu);
}

#[test]
fn without_forward_input_the_screen_just_waits() {
    let mut greet = GreetScreen::new();
    let mut gs = GameState::GreetingScreen;
    for _ in 0..50 {
        greet.update(false, 100, &mut gs);
    }
    assert!(greet.is_loaded);
    assert_eq!(gs, GameState::GreetingScreen);
}
