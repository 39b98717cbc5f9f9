//! The persisted settings: their keys and the values written on first start.

use vstd::prelude::*;

verus! {

/// The settings file of the application's store.
pub const SETTINGS_FILE: &'static str = "settings.json";

/// Present once the defaults have been written.
pub const INITIALIZED_KEY: &'static str = "initialized";

/// The global shortcut that starts a recording.
pub const HOTKEY_KEY: &'static str = "hotkey";

/// Which recogniser transcribes: `cloud` or local.
pub const STT_MODE_KEY: &'static str = "stt_mode";

/// The language of the recordings, or `auto`.
pub const LANGUAGE_KEY: &'static str = "language";

/// The OpenAI key for the transcription API.
pub const OPENAI_KEY_KEY: &'static str = "openai_api_key";

/// The Anthropic key for the AI commands.
pub const ANTHROPIC_KEY_KEY: &'static str = "anthropic_api_key";

/// The shortcut set on first start.
pub const DEFAULT_HOTKEY: &'static str = "CommandOrControl+Shift+Space";

/// The mode that transcribes through the API.
pub const CLOUD_MODE: &'static str = "cloud";

/// A value in the store.
pub enum SettingValue {
    Text(String),
    Flag(bool),
}

/// The key is `key` and the value the text `value`.
pub open spec fn is_text_entry(entry: (String, SettingValue), key: Seq<char>, value: Seq<char>) -> bool {
    &&& entry.0@ == key
    &&& entry.1 matches SettingValue::Text(t) && t@ == value
}

/// The entries written at start: none once the store is initialised, and
/// otherwise the default shortcut, the cloud mode and the mark that the store
/// is initialised, in that order.
pub fn first_run_settings(initialized: bool) -> (r: Vec<(String, SettingValue)>)
    ensures
        initialized ==> r@.len() == 0,
        !initialized ==> {
            &&& r@.len() == 3
            &&& is_text_entry(r@[0], HOTKEY_KEY@, DEFAULT_HOTKEY@)
            &&& is_text_entry(r@[1], STT_MODE_KEY@, CLOUD_MODE@)
            &&& r@[2].0@ == INITIALIZED_KEY@
            &&& r@[2].1 matches SettingValue::Flag(true)
        },
{
    let mut entries: Vec<(String, SettingValue)> = Vec::new();
    if !initialized {
        entries.push(
            (String::from_str(HOTKEY_KEY), SettingValue::Text(String::from_str(DEFAULT_HOTKEY))),
        );
        entries.push(
            (String::from_str(STT_MODE_KEY), SettingValue::Text(String::from_str(CLOUD_MODE))),
        );
        entries.push((String::from_str(INITIALIZED_KEY), SettingValue::Flag(true)));
    }
    entries
}

/// The entry written when the model download is cancelled: back to the cloud
/// mode.
pub fn cancelled_download_setting() -> (r: (String, SettingValue))
    ensures
        is_text_entry(r, STT_MODE_KEY@, CLOUD_MODE@),
{
    (String::from_str(STT_MODE_KEY), SettingValue::Text(String::from_str(CLOUD_MODE)))
}

} // verus!
