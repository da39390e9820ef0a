//! The gauge screen: two saturating progress values, first edge exits.

use vstd::prelude::*;
use crate::screen::SignalOutcome;

verus! {

/// Progress is held in tenths of a percent, so the drawn values run from
/// 20.0% to 100.0% in steps of 0.1%.
pub const GAUGE_START: u16 = 200;

pub const GAUGE_STEP: u16 = 1;

pub const GAUGE_CEILING: u16 = 1000;

/// One tick of a single gauge: the progress value rises by the fixed
/// step and saturates at the ceiling; it never decreases or wraps.
pub open spec fn gauge_step(p: int) -> int {
    if p + GAUGE_STEP <= GAUGE_CEILING {
        p + GAUGE_STEP
    } else {
        GAUGE_CEILING as int
    }
}

/// A gauge's progress after `n` ticks from `p`.
pub open spec fn gauge_after(p: int, n: nat) -> int
    decreases n,
{
    if n == 0 {
        p
    } else {
        gauge_step(gauge_after(p, (n - 1) as nat))
    }
}

/// After `n` ticks a gauge shows exactly `min(start + n * step, ceiling)`:
/// linear growth clamped at the ceiling.
pub proof fn lemma_gauge_progress(p: int, n: nat)
    requires
        0 <= p <= GAUGE_CEILING,
    ensures
        gauge_after(p, n) == if p + n * GAUGE_STEP <= GAUGE_CEILING {
            p + n * GAUGE_STEP
        } else {
            GAUGE_CEILING as int
        },
    decreases n,
{
    if n > 0 {
        lemma_gauge_progress(p, (n - 1) as nat);
        assert(n * GAUGE_STEP == (n - 1) * GAUGE_STEP + GAUGE_STEP) by (nonlinear_arith);
    }
}

/// The gauge screen: two independent percentage values that each rise by
/// a fixed step per tick and clamp at the ceiling.
pub struct GaugeApp {
    progress1: u16,
    progress2: u16,
}

impl GaugeApp {
    /// First gauge's progress, in tenths of a percent.
    pub closed spec fn progress1(self) -> int {
        self.progress1 as int
    }

    /// Second gauge's progress, in tenths of a percent.
    pub closed spec fn progress2(self) -> int {
        self.progress2 as int
    }

    pub open spec fn wf(self) -> bool {
        &&& self.progress1() <= GAUGE_CEILING
        &&& self.progress2() <= GAUGE_CEILING
    }

    pub fn new() -> (app: GaugeApp)
        ensures
            app.wf(),
            app.progress1() == GAUGE_START,
            app.progress2() == GAUGE_START,
    {
        GaugeApp { progress1: GAUGE_START, progress2: GAUGE_START }
    }

    /// One tick: each gauge independently rises by the step and clamps
    /// at the ceiling.
    pub fn on_tick(&mut self)
        requires
            old(self).wf(),
        ensures
            final(self).wf(),
            final(self).progress1() == gauge_step(old(self).progress1()),
            final(self).progress2() == gauge_step(old(self).progress2()),
    {
        if self.progress1 + GAUGE_STEP <= GAUGE_CEILING {
            self.progress1 = self.progress1 + GAUGE_STEP;
        } else {
            self.progress1 = GAUGE_CEILING;
        }
        if self.progress2 + GAUGE_STEP <= GAUGE_CEILING {
            self.progress2 = self.progress2 + GAUGE_STEP;
        } else {
            self.progress2 = GAUGE_CEILING;
        }
    }

    /// Both progress values, in tenths of a percent.
    pub fn levels(&self) -> (p: (u16, u16))
        ensures
            p.0 as int == self.progress1(),
            p.1 as int == self.progress2(),
    {
        (self.progress1, self.progress2)
    }

    /// Advance policy: any consumed signal exits the screen.
    pub fn on_signal(&mut self) -> (r: SignalOutcome)
        ensures
            r is Exit,
            *final(self) == *old(self),
    {
        SignalOutcome::Exit
    }
}

impl Default for GaugeApp {
    fn default() -> (app: GaugeApp)
        ensures
            app.wf(),
            app.progress1() == GAUGE_START,
            app.progress2() == GAUGE_START,
    {
        GaugeApp::new()
    }
}

} // verus!
