use menu_core::config::Action;
use menu_core::config::GameData;
use menu_core::record::LoadError;

#[test]
fn default_record_has_the_documented_shape() {
    let gd = GameData::new();
    let bytes = gd.save_config();
    let expected = b"false\n60\ntrue\nfalse\n1.000\n1.000\n265\n264\n263\n262\n90\n88\n340\n";
    assert_eq!(bytes, expected.to_vec());
}

#[test]
fn round_trip_reproduces_the_defaults() {
    let gd = GameData::new();
    let bytes = gd.save_config();
    let (loaded, fresh) = GameData::load_config(Some(&bytes)).unwrap();
    assert_eq!(loaded, gd);
    assert!(!fresh);
}

#[test]
fn round_trip_reproduces_a_mutated_store() {
    let mut gd = GameData::new();
    gd.toggle_fullscreen();
    gd.set_max_fps(132);
    gd.fps_should_draw_toggle();
    gd.toggle_vsync();
    gd.set_bgm_volume(300);
    gd.set_sfx_volume(5);
    gd.set_key(Action::Up, 87);
    gd.set_key(Action::Down, 83);
    gd.set_key(Action::Left, 65);
    gd.set_key(Action::Right, 68);
    gd.set_key(Action::Attack, 74);
    gd.set_key(Action::Bomb, 75);
    gd.set_key(Action::Slow, 341);
    let bytes = gd.save_config();
    let (loaded, fresh) = GameData::load_config(Some(&bytes)).unwrap();
    assert_eq!(loaded, gd);
    assert!(!fresh);
}

#[test]
fn missing_record_synthesizes_defaults_and_asks_to_persist() {
    let (loaded, fresh) = GameData::load_config(None).unwrap();
    assert_eq!(loaded, GameData::new());
    assert!(fresh);
}

#[test]
fn from_record_reports_a_missing_file() {
    assert_eq!(GameData::from_record(None), Err(LoadError::MissingFile));
}

#[test]
fn too_few_fields_are_malformed() {
    let bytes = b"false\n60\ntrue\n".to_vec();
    assert_eq!(GameData::load_config(Some(&bytes)), Err(LoadError::MalformedData));
}

#[test]
fn an_unterminated_last_field_is_malformed() {
    let bytes = b"false\n60\ntrue\nfalse\n1.000\n1.000\n265\n264\n263\n262\n90\n88\n340".to_vec();
    assert_eq!(GameData::load_config(Some(&bytes)), Err(LoadError::MalformedData));
}

#[test]
fn a_bad_boolean_is_malformed() {
    let bytes = b"maybe\n60\ntrue\nfalse\n1.000\n1.000\n265\n264\n263\n262\n90\n88\n340\n".to_vec();
    assert_eq!(GameData::load_config(Some(&bytes)), Err(LoadError::MalformedData));
}

#[test]
fn a_non_numeric_frame_cap_is_malformed() {
    let bytes = b"false\nfast\ntrue\nfalse\n1.000\n1.000\n265\n264\n263\n262\n90\n88\n340\n"
        .to_vec();
    assert_eq!(GameData::load_config(Some(&bytes)), Err(LoadError::MalformedData));
}

#[test]
fn an_out_of_range_frame_cap_is_malformed() {
    let low = b"false\n24\ntrue\nfalse\n1.000\n1.000\n265\n264\n263\n262\n90\n88\n340\n".to_vec();
    assert_eq!(GameData::load_config(Some(&low)), Err(LoadError::MalformedData));
    let high = b"false\n481\ntrue\nfalse\n1.000\n1.000\n265\n264\n263\n262\n90\n88\n340\n"
        .to_vec();
    assert_eq!(GameData::load_config(Some(&high)), Err(LoadError::MalformedData));
}

#[test]
fn a_volume_past_full_scale_is_malformed() {
    let bytes = b"false\n60\ntrue\nfalse\n1.001\n1.000\n265\n264\n263\n262\n90\n88\n340\n"
        .to_vec();
    assert_eq!(GameData::load_config(Some(&bytes)), Err(LoadError::MalformedData));
}

#[test]
fn short_volume_spellings_are_accepted() {
    let bytes = b"false\n60\ntrue\nfalse\n0.5\n1\n265\n264\n263\n262\n90\n88\n340\n".to_vec();
    let (loaded, _) = GameData::load_config(Some(&bytes)).unwrap();
    assert_eq!(loaded.get_bgm_volume(), 500);
    assert_eq!(loaded.get_sfx_volume(), 1000);
}

#[test]
fn trailing_bytes_after_the_schema_are_ignored() {
    let bytes = b"false\n60\ntrue\nfalse\n1.000\n1.000\n265\n264\n263\n262\n90\n88\n340\nleftover"
        .to_vec();
    let (loaded, _) = GameData::load_config(Some(&bytes)).unwrap();
    assert_eq!(loaded, GameData::new());
}
