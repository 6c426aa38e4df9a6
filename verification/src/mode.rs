//! How the program's surfaces bind to outputs at start.

use vstd::prelude::*;

use crate::shell::OutputHandle;

verus! {

/// The way the layer-shell program is started.
#[derive(Debug, Clone, PartialEq, Eq)]
pub enum StartMode {
    /// Bind to whatever output currently has focus.
    Active,
    /// Run as a background program with no visible placement.
    Background,
    /// One surface per connected output; newly discovered outputs spawn
    /// new surfaces live.
    AllScreens,
    /// Bind once to the output whose advertised name matches.
    TargetScreen(String),
    /// Reuse an already-known output of the same connection.
    TargetOutput(OutputHandle),
}

impl StartMode {
    pub fn is_active(&self) -> (r: bool)
        ensures
            r == (self is Active),
    {
        matches!(self, StartMode::Active)
    }

    pub fn is_background(&self) -> (r: bool)
        ensures
            r == (self is Background),
    {
        matches!(self, StartMode::Background)
    }

    pub fn is_allscreens(&self) -> (r: bool)
        ensures
            r == (self is AllScreens),
    {
        matches!(self, StartMode::AllScreens)
    }

    pub fn is_with_target(&self) -> (r: bool)
        ensures
            r == (self is TargetScreen),
    {
        matches!(self, StartMode::TargetScreen(_))
    }
}

} // verus!
