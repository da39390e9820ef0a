//! The voltage screen: a fallible sensor read per iteration, first edge
//! exits.

use vstd::prelude::*;
use crate::screen::SignalOutcome;

verus! {

/// The voltage screen.  It keeps no state beyond the most recent value
/// put on the display: the battery voltage in millivolts, doubled from
/// the raw reading because the board halves it with a voltage divider.
pub struct VoltageApp {
    displayed: Option<u16>,
}

impl VoltageApp {
    /// The millivolt value of the frame currently on the display, if a
    /// frame has been drawn yet.
    pub closed spec fn displayed(self) -> Option<u16> {
        self.displayed
    }

    pub fn new() -> (app: VoltageApp)
        ensures
            app.displayed() is None,
    {
        VoltageApp { displayed: None }
    }

    /// The millivolt value currently on the display, if any.
    pub fn last_displayed(&self) -> (d: Option<u16>)
        ensures
            d == self.displayed(),
    {
        self.displayed
    }

    /// One iteration's sensor read, as a plain value: `Some` raw
    /// millivolts on success, `None` on a transient conversion failure.
    /// On success the displayed value becomes twice the raw reading and
    /// the frame is redrawn; on failure nothing changes and no redraw
    /// happens, so the previous frame stays on screen and the loop keeps
    /// polling.
    pub fn on_reading(&mut self, reading: Option<u16>) -> (redraw: bool)
        requires
            reading matches Some(v) ==> v <= u16::MAX / 2,
        ensures
            reading matches Some(v) ==> {
                &&& redraw
                &&& final(self).displayed() == Some((2 * v) as u16)
            },
            reading is None ==> {
                &&& !redraw
                &&& *final(self) == *old(self)
            },
    {
        match reading {
            Some(v) => {
                self.displayed = Some(2 * v);
                true
            },
            None => false,
        }
    }

    /// Advance policy: any consumed signal exits the screen.
    pub fn on_signal(&mut self) -> (r: SignalOutcome)
        ensures
            r is Exit,
            *final(self) == *old(self),
    {
        SignalOutcome::Exit
    }
}

} // verus!
