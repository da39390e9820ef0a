//! The logo splash screen: static content, first edge exits.

use vstd::prelude::*;
use crate::screen::SignalOutcome;

verus! {

/// The splash screen.  It owns no animation state: its frame is static,
/// and the first consumed advance signal ends it.
pub struct RatatuiLogoApp {}

impl RatatuiLogoApp {
    pub fn new() -> (app: RatatuiLogoApp) {
        RatatuiLogoApp {}
    }

    /// Advance policy: any consumed signal exits the screen.
    pub fn on_signal(&mut self) -> (r: SignalOutcome)
        ensures
            r is Exit,
            *final(self) == *old(self),
    {
        SignalOutcome::Exit
    }
}

} // verus!
