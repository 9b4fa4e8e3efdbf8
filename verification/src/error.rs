//! What can go wrong while a terminal is set up or driven.

use vstd::prelude::*;

verus! {

/// The failures of a terminal session. Each one ends the session.
#[derive(Debug, Clone, Copy, PartialEq, Eq, Structural)]
pub enum Error {
    /// The display server could not be reached.
    CantOpenDisplay,
    /// The background colour could not be allocated.
    CantLoadBgColor,
    /// The foreground colour could not be allocated.
    CantLoadFgColor,
    /// The shell could not be started.
    CantSpawn,
    /// A cell was written while the cursor was outside the grid.
    CantPushElement,
}

impl Error {
    /// The text shown to the user for this failure.
    pub open spec fn spec_message(self) -> Seq<char> {
        match self {
            Error::CantOpenDisplay => "Can't open X11 display"@,
            Error::CantLoadBgColor => "Can't load background color"@,
            Error::CantLoadFgColor => "Can't load foreground color"@,
            Error::CantSpawn => "Can't spawn a process"@,
            Error::CantPushElement => "Can't push element to terminal"@,
        }
    }

    /// The text shown to the user for this failure.
    pub fn message(&self) -> (text: String)
        ensures
            text@ == self.spec_message(),
    {
        match self {
            Error::CantOpenDisplay => "Can't open X11 display".to_owned(),
            Error::CantLoadBgColor => "Can't load background color".to_owned(),
            Error::CantLoadFgColor => "Can't load foreground color".to_owned(),
            Error::CantSpawn => "Can't spawn a process".to_owned(),
            Error::CantPushElement => "Can't push element to terminal".to_owned(),
        }
    }
}

} // verus!
