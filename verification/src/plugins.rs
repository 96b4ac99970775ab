//! The highlight plugins, as the protocol describes them.

use vstd::prelude::*;

verus! {

/// What an installed plugin declares about itself.
#[derive(Debug, Clone, PartialEq, Eq)]
pub struct PluginDeclaration {
    /// The plugin's identifier.
    pub id: String,
    /// Its name.
    pub name: String,
    /// Its version.
    pub version: String,
    /// What it does, in its own words.
    pub description: String,
    /// What it does on the network, one line each.
    pub network: Vec<String>,
    /// What Clipped does and does not enforce about that.
    pub enforcement: String,
    /// Whether it will start.
    pub state: PluginState,
}

/// Whether a plugin will start.
#[derive(Debug, Clone, PartialEq, Eq)]
pub enum PluginState {
    /// It is allowed to start.
    Enabled,
    /// Nobody has allowed it yet.
    NotEnabled,
    /// It was allowed and has been turned off.
    TurnedOff,
    /// Its declaration has changed since it was allowed.
    NeedsConsentAgain {
        /// What was agreed to.
        agreed_to: String,
        /// What it declares now.
        now_declares: String,
    },
}

/// A plugin directory that could not be read as a plugin.
#[derive(Debug, Clone, PartialEq, Eq)]
pub struct RefusedPlugin {
    /// Where it is.
    pub directory: String,
    /// Why it was refused.
    pub reason: String,
}

} // verus!
