//! Reading and changing the settings, and choosing a microphone.

use vstd::prelude::*;
use std::collections::BTreeMap;

verus! {

/// One setting, what it resolves to, and whether anything reads it.
#[derive(Debug, Clone, PartialEq, Eq)]
pub struct SettingEntry {
    /// The key `settings.json` spells it with.
    pub key: String,
    /// Its name for a person.
    pub label: String,
    /// What it resolves to.
    pub value: String,
    /// Whether the page being read overrides it.
    pub overridden: bool,
    /// The values it may take, for one with a fixed set.
    pub choices: Vec<String>,
    /// What values are accepted, in words.
    pub accepted: String,
    /// Whether this build acts on it.
    pub applies: bool,
    /// Why nothing reads it, for a setting nothing does.
    pub unavailable: Option<String>,
    /// What still holds until it takes effect, for one saved and not yet used.
    pub not_yet_in_force: Option<String>,
}

/// Asking for the settings of the global page or of one game.
#[derive(Debug, Clone, PartialEq, Eq)]
pub struct GetSettings {
    /// The game whose page to read; absent is the global page.
    pub game: Option<String>,
}

impl Default for GetSettings {
    /// The global page.
    fn default() -> (request: GetSettings)
        ensures
            request.game is None,
    {
        GetSettings { game: None }
    }
}

/// A page of settings.
#[derive(Debug, Clone, PartialEq, Eq)]
pub struct SettingsView {
    /// The file they came from.
    pub file: String,
    /// The game the page is for; absent is the global page.
    pub game: Option<String>,
    /// The games that have pages of their own.
    pub games: Vec<String>,
    /// The settings.
    pub settings: Vec<SettingEntry>,
}

/// Changing settings, and saving them.
#[derive(Debug, Clone, PartialEq, Eq)]
pub struct ApplySettings {
    /// The game whose page to change; absent is the global page.
    pub game: Option<String>,
    /// The new values by key; a key mapped to nothing clears the setting.
    pub values: BTreeMap<String, Option<String>>,
}

impl Default for ApplySettings {
    /// Changing nothing on the global page.
    fn default() -> (request: ApplySettings)
        ensures
            request.game is None,
            request.values@ == Map::<String, Option<String>>::empty(),
    {
        ApplySettings { game: None, values: BTreeMap::new() }
    }
}

/// One audio endpoint.
#[derive(Debug, Clone, PartialEq, Eq)]
pub struct AudioDevice {
    /// What it is called.
    pub name: String,
    /// Whether it is the system's default.
    pub is_default: bool,
}

/// The audio endpoints this machine has.
#[derive(Debug, Clone, PartialEq, Eq)]
pub struct AudioDevices {
    /// The microphones.
    pub microphones: Vec<AudioDevice>,
}

impl Default for AudioDevices {
    /// None at all.
    fn default() -> (devices: AudioDevices)
        ensures
            devices.microphones@.len() == 0,
    {
        AudioDevices { microphones: Vec::new() }
    }
}

/// Asking what one microphone is hearing.
#[derive(Debug, Clone, PartialEq, Eq)]
pub struct MicrophoneLevelRequest {
    /// The microphone, in the words the settings file spells it.
    pub microphone: String,
}

} // verus!
