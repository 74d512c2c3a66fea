//! The settings store: a flat JSON object of keys and values, held as a
//! `serde_json` map. Reading and writing the file is the caller's part; here
//! its text is parsed, updated and written back out.
use vstd::prelude::*;

use crate::color::{color_from_preference, color_of_preference, Color};

verus! {

/// serde_json's JSON value, carried through without looking inside.
#[verifier::external_type_specification]
#[verifier::external_body]
pub struct ExJsonValue(serde_json::Value);

/// serde_json's object map; what it holds is `settings_entries`.
#[verifier::external_type_specification]
#[verifier::external_body]
#[verifier::reject_recursive_types(K)]
#[verifier::reject_recursive_types(V)]
pub struct ExJsonMap<K, V>(serde_json::Map<K, V>);

/// serde_json's error, mapped to `ConfigError` where it arises.
#[verifier::external_type_specification]
#[verifier::external_body]
pub struct ExJsonError(serde_json::Error);

/// The settings: keys mapped to arbitrary JSON values.
pub type Settings = serde_json::Map<String, serde_json::Value>;

/// The key whose value names the highlight colour.
pub const COLOR_KEY: &'static str = "color";

/// Why settings could not be read or written.
#[derive(Clone, Copy, Debug, PartialEq, Eq, Structural)]
pub enum ConfigError {
    /// The stored text is not a JSON object.
    Malformed,
}

/// What a settings map holds, key by key.
pub uninterp spec fn settings_entries(m: serde_json::Map<String, serde_json::Value>) -> Map<
    Seq<char>,
    serde_json::Value,
>;

/// The entries of the JSON object that a text holds, or none if the text is
/// not one.
pub uninterp spec fn parsed_settings(text: Seq<char>) -> Option<Map<Seq<char>, serde_json::Value>>;

/// The compact JSON text of an object with these entries.
pub uninterp spec fn settings_json(entries: Map<Seq<char>, serde_json::Value>) -> Seq<char>;

/// The text a JSON value holds, if it is a string.
pub uninterp spec fn value_text(v: serde_json::Value) -> Option<Seq<char>>;

/// Relies on `serde_json::Map::new`: a map with no entries.
#[verifier::external_body]
fn empty_settings() -> (r: Settings)
    ensures
        settings_entries(r).dom() == Set::<Seq<char>>::empty(),
{
    serde_json::Map::new()
}

/// Relies on `serde_json::Map::insert`: the key is bound to the value, any
/// earlier value of the key replaced.
#[verifier::external_body]
fn settings_insert(m: &mut Settings, key: String, value: serde_json::Value)
    ensures
        settings_entries(*final(m)) == settings_entries(*old(m)).insert(key@, value),
{
    m.insert(key, value);
}

/// Relies on `serde_json::Map::get`: the value bound to the key, if any.
#[verifier::external_body]
fn settings_get<'a>(m: &'a Settings, key: &str) -> (r: Option<&'a serde_json::Value>)
    ensures
        r is Some <==> settings_entries(*m).contains_key(key@),
        r matches Some(v) ==> *v == settings_entries(*m)[key@],
{
    m.get(key)
}

/// Relies on `serde_json::from_str` into a map: the object's entries, or an
/// error where the text is not a JSON object.
#[verifier::external_body]
fn parse_settings(text: &str) -> (r: Result<Settings, serde_json::Error>)
    ensures
        r is Ok <==> parsed_settings(text@) is Some,
        r matches Ok(m) ==> Some(settings_entries(m)) == parsed_settings(text@),
{
    serde_json::from_str(text)
}

/// Relies on `serde_json::to_string`: the compact JSON text of the map,
/// which cannot fail for string keys and JSON values.
#[verifier::external_body]
fn settings_to_json(m: &Settings) -> (r: Result<String, serde_json::Error>)
    ensures
        r is Ok,
        r matches Ok(t) ==> t@ == settings_json(settings_entries(*m)),
{
    serde_json::to_string(m)
}

/// Relies on `serde_json::Value::as_str`: the text of a string value.
#[verifier::external_body]
fn value_as_str(v: &serde_json::Value) -> (r: Option<&str>)
    ensures
        r is Some <==> value_text(*v) is Some,
        r matches Some(s) ==> Some(s@) == value_text(*v),
{
    v.as_str()
}

/// The settings that a stored text gives: none stored gives no entries.
pub open spec fn loaded_entries(text: Option<Seq<char>>) -> Option<Map<Seq<char>, serde_json::Value>> {
    match text {
        None => Some(Map::empty()),
        Some(t) => parsed_settings(t),
    }
}

/// The colour preference held by some settings: the text of the colour
/// entry, or none if it is absent or not a string.
pub open spec fn color_preference(entries: Map<Seq<char>, serde_json::Value>) -> Option<Seq<char>> {
    if entries.contains_key("color"@) {
        value_text(entries["color"@])
    } else {
        None
    }
}

/// The settings that a stored text holds. No text (the file does not exist)
/// gives empty settings; a text that is not a JSON object is malformed.
pub fn load_settings(text: Option<&str>) -> (r: Result<Settings, ConfigError>)
    ensures
        r is Ok <==> loaded_entries(
            match text {
                Some(t) => Some(t@),
                None => None,
            },
        ) is Some,
        r is Err ==> r == Err::<Settings, ConfigError>(ConfigError::Malformed),
        r matches Ok(m) ==> Some(settings_entries(m)) == loaded_entries(
            match text {
                Some(t) => Some(t@),
                None => None,
            },
        ),
{
    match text {
        None => {
            let m = empty_settings();
            assert(settings_entries(m) =~= Map::empty());
            Ok(m)
        },
        Some(t) => match parse_settings(t) {
            Ok(m) => Ok(m),
            Err(_) => Err(ConfigError::Malformed),
        },
    }
}

/// Binds `key` to `value`, replacing what the key held before.
pub fn set_setting(settings: &mut Settings, key: String, value: serde_json::Value)
    ensures
        settings_entries(*final(settings)) == settings_entries(*old(settings)).insert(key@, value),
{
    settings_insert(settings, key, value);
}

/// The value bound to `key`, if any.
pub fn get_setting<'a>(settings: &'a Settings, key: &str) -> (r: Option<&'a serde_json::Value>)
    ensures
        r is Some <==> settings_entries(*settings).contains_key(key@),
        r matches Some(v) ==> *v == settings_entries(*settings)[key@],
{
    settings_get(settings, key)
}

/// The JSON text to store for the settings: the whole file, rewritten.
pub fn settings_text(settings: &Settings) -> (r: String)
    ensures
        r@ == settings_json(settings_entries(*settings)),
{
    match settings_to_json(settings) {
        Ok(t) => t,
        Err(_) => String::new(),
    }
}

/// The text to store after binding `key` to `value` in the settings that
/// `current` holds (no text: empty settings). A malformed current text is an
/// error and nothing is written.
pub fn store_setting(current: Option<&str>, key: String, value: serde_json::Value) -> (r: Result<
    String,
    ConfigError,
>)
    ensures
        r is Ok <==> loaded_entries(
            match current {
                Some(t) => Some(t@),
                None => None,
            },
        ) is Some,
        r is Err ==> r == Err::<String, ConfigError>(ConfigError::Malformed),
        r matches Ok(t) ==> t@ == settings_json(
            loaded_entries(
                match current {
                    Some(t) => Some(t@),
                    None => None,
                },
            )->Some_0.insert(key@, value),
        ),
{
    let mut settings = match load_settings(current) {
        Ok(m) => m,
        Err(e) => return Err(e),
    };
    set_setting(&mut settings, key, value);
    Ok(settings_text(&settings))
}

/// The highlight colour that the settings ask for: the colour entry's text
/// resolved by name; red when the entry is absent, not a string, or names no
/// colour.
pub fn color_from_settings(settings: &Settings) -> (r: Color)
    ensures
        r == color_of_preference(color_preference(settings_entries(*settings))),
{
    let pref = match settings_get(settings, COLOR_KEY) {
        Some(v) => value_as_str(v),
        None => None,
    };
    proof {
        assert(COLOR_KEY@ == "color"@);
    }
    color_from_preference(pref)
}

/// After `set_setting` binds a key, the settings hold the value set under
/// it; setting the same key again replaces that entry and adds no other.
pub proof fn lemma_set_then_get(
    settings: Settings,
    key: Seq<char>,
    first: serde_json::Value,
    second: serde_json::Value,
)
    ensures
        settings_entries(settings).insert(key, first).contains_key(key),
        settings_entries(settings).insert(key, first)[key] == first,
        settings_entries(settings).insert(key, first).insert(key, second) == settings_entries(
            settings,
        ).insert(key, second),
        settings_entries(settings).insert(key, first).insert(key, second).dom() == settings_entries(
            settings,
        ).insert(key, first).dom(),
{
    let once = settings_entries(settings).insert(key, first);
    assert(once.insert(key, second) =~= settings_entries(settings).insert(key, second));
    assert(once.insert(key, second).dom() =~= once.dom());
}

} // verus!
