//! The global hotkeys, and where each one stands.

use vstd::prelude::*;

verus! {

/// One action a hotkey can perform, and where it stands.
#[derive(Debug, Clone, PartialEq, Eq)]
pub struct HotkeyBinding {
    /// The action's identifier.
    pub action: String,
    /// Its name for a person.
    pub label: String,
    /// The key combination bound to it, if any.
    pub hotkey: Option<String>,
    /// Whether the combination is registered.
    pub state: HotkeyState,
    /// Whether pressing it does anything in this build.
    pub handled: bool,
    /// Why it does nothing, for an action this build does not perform.
    pub unavailable: Option<String>,
}

/// Where a binding stands.
#[derive(Debug, Clone, PartialEq, Eq)]
pub enum HotkeyState {
    /// No combination is bound.
    Unbound,
    /// The combination is registered and works.
    Registered,
    /// The combination could not be registered.
    Conflict {
        /// Why, in words.
        reason: String,
    },
}

} // verus!
