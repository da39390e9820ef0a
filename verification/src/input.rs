//! The edge-interrupt source and its one-time bridge to the notifier.

use vstd::prelude::*;
use crate::notifier::Notifier;

verus! {

/// The advance-signal source: a physical edge interrupt that must be
/// armed to deliver a signal.  Delivering an edge disarms the source, so
/// the cooperative side has to re-arm after every consumed edge that does
/// not end the screen, and on entry to each screen.
pub struct InputSource {
    armed: bool,
}

impl InputSource {
    /// True when the interrupt source is enabled to produce a future
    /// advance signal.
    pub closed spec fn is_armed(self) -> bool {
        self.armed
    }

    /// A freshly wired source starts disarmed: no edge can reach the
    /// notifier until the first screen arms it on entry.
    pub fn new() -> (s: InputSource)
        ensures
            !s.is_armed(),
    {
        InputSource { armed: false }
    }

    /// Whether the source is currently armed.
    pub fn armed(&self) -> (b: bool)
        ensures
            b == self.is_armed(),
    {
        self.armed
    }

    /// Enable the interrupt source so that the next edge posts a signal.
    pub fn arm(&mut self)
        ensures
            final(self).is_armed(),
    {
        self.armed = true;
    }

    /// One physical button edge, as the wired interrupt delivers it: an
    /// armed source posts the advance signal and is disarmed by the
    /// delivery; a disarmed source ignores the edge entirely.
    pub fn press(&mut self, notifier: &mut Notifier)
        ensures
            old(self).is_armed() ==> {
                &&& final(notifier).is_pending()
                &&& !final(self).is_armed()
            },
            !old(self).is_armed() ==> {
                &&& *final(self) == *old(self)
                &&& *final(notifier) == *old(notifier)
            },
    {
        if self.armed {
            notifier.post();
            self.armed = false;
        }
    }
}

} // verus!
