//! The outcome a screen's advance policy assigns to one consumed signal.

use vstd::prelude::*;

verus! {

/// What a screen decides about a consumed advance signal.
///
/// `Absorbed` means the signal fed an internal transition (a tab step, a
/// popup toggle) and the screen goes on running; the interrupt source
/// must be re-armed at once, since delivery disarmed it and the screen
/// still waits for further edges.  `Exit` means the screen is done and
/// control returns to the sequencer.
#[derive(Clone, Copy, Debug, PartialEq, Eq, Structural)]
pub enum SignalOutcome {
    Absorbed,
    Exit,
}

} // verus!
