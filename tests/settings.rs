use gut::color::{color_from_lowercase, color_from_name, color_from_preference, Color};
use gut::config::{
    color_from_settings, get_setting, load_settings, set_setting, settings_text, store_setting,
    ConfigError,
};
use gut::dir::{gut_dir, gut_dir_from_home, settings_file, DirError};
use serde_json::Value;

#[test]
fn get_gut_dir() {
    assert!(gut::dir::get_gut_dir().unwrap().contains("/.gut"));
}

#[test]
fn gut_dir_is_under_home() {
    assert_eq!(gut_dir("/home/u"), "/home/u/.gut");
    assert_eq!(settings_file("/home/u/.gut"), "/home/u/.gut/gut.json");
    assert!(gut::dir::get_gut_dir().is_ok());
}

#[test]
fn color_names_match_as_substrings() {
    assert_eq!(color_from_name("Greenish"), Color::Green);
    assert_eq!(color_from_name("purple"), Color::Red);
    assert_eq!(color_from_preference(None), Color::Red);
}

#[test]
fn color_names_ignore_case() {
    assert_eq!(color_from_name("CYAN"), Color::Cyan);
    assert_eq!(color_from_name("magenta"), Color::Magenta);
    assert_eq!(color_from_name("\"Blue\""), Color::Blue);
}

#[test]
fn first_color_in_table_order_wins() {
    assert_eq!(color_from_name("WhiteRedBlack"), Color::Black);
    assert_eq!(color_from_name("yellow-green"), Color::Green);
}

#[test]
fn color_from_stored_settings() {
    let empty = load_settings(None).unwrap();
    assert_eq!(color_from_settings(&empty), Color::Red);
    let s = load_settings(Some("{\"color\":\"Greenish\"}")).unwrap();
    assert_eq!(color_from_settings(&s), Color::Green);
    let s = load_settings(Some("{\"color\":\"purple\"}")).unwrap();
    assert_eq!(color_from_settings(&s), Color::Red);
    let s = load_settings(Some("{\"color\":4}")).unwrap();
    assert_eq!(color_from_settings(&s), Color::Red);
}

#[test]
fn missing_file_gives_empty_settings() {
    let s = load_settings(None).unwrap();
    assert!(s.is_empty());
}

#[test]
fn malformed_settings_are_an_error() {
    assert_eq!(load_settings(Some("not json")).err(), Some(ConfigError::Malformed));
    assert_eq!(load_settings(Some("[1, 2]")).err(), Some(ConfigError::Malformed));
    let v = Value::String("v".to_string());
    assert_eq!(store_setting(Some("{"), "k".to_string(), v), Err(ConfigError::Malformed));
}

#[test]
fn set_then_read_back() {
    let text = store_setting(None, "k".to_string(), Value::String("v".to_string())).unwrap();
    assert_eq!(text, "{\"k\":\"v\"}");
    let s = load_settings(Some(&text)).unwrap();
    assert_eq!(get_setting(&s, "k"), Some(&Value::String("v".to_string())));
}

#[test]
fn setting_a_key_again_replaces_it() {
    let text = store_setting(None, "k".to_string(), Value::String("v".to_string())).unwrap();
    let text = store_setting(Some(&text), "k".to_string(), Value::String("w".to_string())).unwrap();
    let s = load_settings(Some(&text)).unwrap();
    assert_eq!(s.len(), 1);
    assert_eq!(get_setting(&s, "k"), Some(&Value::String("w".to_string())));
}

#[test]
fn set_setting_keeps_other_keys() {
    let mut s = load_settings(Some("{\"a\":1}")).unwrap();
    set_setting(&mut s, "b".to_string(), Value::Bool(true));
    assert_eq!(settings_text(&s), "{\"a\":1,\"b\":true}");
    assert_eq!(get_setting(&s, "missing"), None);
}

#[test]
fn unknown_or_non_unicode_home_is_an_error() {
    assert_eq!(gut_dir_from_home(None), Err(DirError::NoHome));
    assert_eq!(gut_dir_from_home(Some(None)), Err(DirError::NotUnicode));
    assert_eq!(gut_dir_from_home(Some(Some("/h".to_string()))), Ok("/h/.gut".to_string()));
}

#[test]
fn color_names_are_lowered_with_unicode_case_mapping() {
    assert_eq!(color_from_name("blac\u{212A}"), Color::Black);
    assert_eq!(color_from_name("GrEeN"), Color::Green);
}

#[test]
fn lowercase_text_is_matched_exactly() {
    assert_eq!(color_from_lowercase("greenish"), Color::Green);
    assert_eq!(color_from_lowercase("Green"), Color::Red);
    assert_eq!(color_from_lowercase("white and blue"), Color::Blue);
}

#[test]
fn whole_file_is_rewritten_from_the_settings() {
    let text = store_setting(Some("{\"b\":2,\"a\":1}"), "c".to_string(), Value::Null).unwrap();
    assert_eq!(text, "{\"a\":1,\"b\":2,\"c\":null}");
    assert_eq!(load_settings(Some("null")).err(), Some(ConfigError::Malformed));
}
