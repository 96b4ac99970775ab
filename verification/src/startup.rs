//! Whether the recorder starts when the user signs in.

use vstd::prelude::*;

verus! {

/// How starting at sign-in is arranged.
#[derive(Debug, Clone, PartialEq, Eq)]
pub struct StartAtLogin {
    /// Whether an entry exists.
    pub enabled: bool,
    /// Where such an entry is kept.
    pub location: String,
    /// The command the entry runs, if there is one.
    pub command: Option<String>,
    /// The executable the entry names that is not there, if it names one.
    pub missing_executable: Option<String>,
}

impl Default for StartAtLogin {
    /// Off, with nothing named.
    fn default() -> (arrangement: StartAtLogin)
        ensures
            !arrangement.enabled,
            arrangement.location@ == Seq::<char>::empty(),
            arrangement.command is None,
            arrangement.missing_executable is None,
    {
        StartAtLogin {
            enabled: false,
            location: String::new(),
            command: None,
            missing_executable: None,
        }
    }
}

/// Turning starting at sign-in on or off.
#[derive(Debug, Clone, Copy, PartialEq, Eq, Structural)]
pub struct SetStartAtLogin {
    /// Where the switch was put.
    pub enabled: bool,
}

impl Default for SetStartAtLogin {
    /// Off.
    fn default() -> (request: SetStartAtLogin)
        ensures
            !request.enabled,
    {
        SetStartAtLogin { enabled: false }
    }
}

} // verus!
