//! The cyclic sequencer: the five screens in fixed rotation, one active
//! at a time, each freshly constructed on entry and discarded on exit.

use vstd::prelude::*;
use crate::chart::ChartApp;
use crate::chart::INTERVAL1;
use crate::chart::INTERVAL2;
use crate::chart::VIEW_SPAN;
use crate::chart::WINDOW_LEN;
use crate::chart::sample_xs;
use crate::gauge::GAUGE_START;
use crate::gauge::GaugeApp;
use crate::gauge::gauge_step;
use crate::input::InputSource;
use crate::notifier::Notifier;
use crate::ratatui_logo::RatatuiLogoApp;
use crate::screen::SignalOutcome;
use crate::tabs::TAB_COUNT;
use crate::tabs::TabsApp;
use crate::voltage::VoltageApp;

verus! {

pub const SCREEN_COUNT: usize = 5;

/// The closed set of screens, in rotation order.
pub enum ActiveScreen {
    Logo(RatatuiLogoApp),
    Tabs(TabsApp),
    Chart(ChartApp),
    Gauge(GaugeApp),
    Voltage(VoltageApp),
}

/// The fixed position of a screen's variant in the rotation.
pub open spec fn screen_index(s: ActiveScreen) -> int {
    match s {
        ActiveScreen::Logo(_) => 0,
        ActiveScreen::Tabs(_) => 1,
        ActiveScreen::Chart(_) => 2,
        ActiveScreen::Gauge(_) => 3,
        ActiveScreen::Voltage(_) => 4,
    }
}

pub open spec fn screen_wf(s: ActiveScreen) -> bool {
    match s {
        ActiveScreen::Logo(_) => true,
        ActiveScreen::Tabs(t) => t.wf(),
        ActiveScreen::Chart(c) => c.wf(),
        ActiveScreen::Gauge(g) => g.wf(),
        ActiveScreen::Voltage(_) => true,
    }
}

/// What a freshly constructed screen looks like on entry.
pub open spec fn is_fresh(s: ActiveScreen) -> bool {
    match s {
        ActiveScreen::Logo(_) => true,
        ActiveScreen::Tabs(t) => t.wf() && t.selected() == 0,
        ActiveScreen::Chart(c) => {
            &&& c.wf()
            &&& !c.popup()
            &&& c.phase1() == WINDOW_LEN * INTERVAL1
            &&& c.phase2() == WINDOW_LEN * INTERVAL2
            &&& c.data1() == sample_xs(0, INTERVAL1 as int, WINDOW_LEN as nat)
            &&& c.data2() == sample_xs(0, INTERVAL2 as int, WINDOW_LEN as nat)
            &&& c.window_lo() == 0
            &&& c.window_hi() == VIEW_SPAN
        },
        ActiveScreen::Gauge(g) => g.progress1() == GAUGE_START && g.progress2() == GAUGE_START,
        ActiveScreen::Voltage(v) => v.displayed() is None,
    }
}

/// Whether the active screen's advance policy ends the screen on the
/// next consumed signal: always for the logo, the gauges and the
/// voltage readout; on the last tab for the tabbed screen; once the
/// popup is shown for the chart.
pub open spec fn exits_on_signal(s: ActiveScreen) -> bool {
    match s {
        ActiveScreen::Logo(_) => true,
        ActiveScreen::Tabs(t) => t.selected() == TAB_COUNT - 1,
        ActiveScreen::Chart(c) => c.popup(),
        ActiveScreen::Gauge(_) => true,
        ActiveScreen::Voltage(_) => true,
    }
}

/// The internal transition an absorbed signal causes: the tabbed screen
/// steps its selection forward by one, the chart shows its popup; no
/// other screen absorbs signals.
pub open spec fn absorb_rel(pre: ActiveScreen, post: ActiveScreen) -> bool {
    match (pre, post) {
        (ActiveScreen::Tabs(a), ActiveScreen::Tabs(b)) => {
            &&& b.selected() == a.selected() + 1
            &&& b.temperatures() == a.temperatures()
        },
        (ActiveScreen::Chart(a), ActiveScreen::Chart(b)) => {
            &&& ChartApp::same_animation(a, b)
            &&& b.popup()
        },
        _ => false,
    }
}

/// How one tick relates the active screen's new state to its old one:
/// the chart and the gauges animate, the other screens' tick is a
/// no-op.
pub open spec fn screen_tick_rel(pre: ActiveScreen, post: ActiveScreen) -> bool {
    match (pre, post) {
        (ActiveScreen::Logo(a), ActiveScreen::Logo(b)) => a == b,
        (ActiveScreen::Tabs(a), ActiveScreen::Tabs(b)) => a == b,
        (ActiveScreen::Chart(a), ActiveScreen::Chart(b)) => ChartApp::tick_rel(a, b),
        (ActiveScreen::Gauge(a), ActiveScreen::Gauge(b)) => {
            &&& b.progress1() == gauge_step(a.progress1())
            &&& b.progress2() == gauge_step(a.progress2())
        },
        (ActiveScreen::Voltage(a), ActiveScreen::Voltage(b)) => a == b,
        _ => false,
    }
}

impl ActiveScreen {
    /// Dispatch one consumed advance signal to the active screen's
    /// policy: either the signal is absorbed into the internal
    /// transition `absorb_rel` describes, or the screen exits
    /// unchanged — exactly when `exits_on_signal` says so.
    pub fn on_signal(&mut self) -> (r: SignalOutcome)
        requires
            screen_wf(*old(self)),
        ensures
            screen_wf(*final(self)),
            exits_on_signal(*old(self)) ==> {
                &&& r is Exit
                &&& *final(self) == *old(self)
            },
            !exits_on_signal(*old(self)) ==> {
                &&& r is Absorbed
                &&& absorb_rel(*old(self), *final(self))
            },
    {
        match self {
            ActiveScreen::Logo(app) => app.on_signal(),
            ActiveScreen::Tabs(app) => app.on_signal(),
            ActiveScreen::Chart(app) => app.on_signal(),
            ActiveScreen::Gauge(app) => app.on_signal(),
            ActiveScreen::Voltage(app) => app.on_signal(),
        }
    }
}

/// The sequencer: a current position in the fixed cyclic rotation and
/// the one active screen, which matches that position.  No state
/// survives a screen transition: the next screen is constructed fresh.
pub struct Sequencer {
    index: usize,
    screen: ActiveScreen,
}

impl Sequencer {
    /// The current position in the rotation.
    pub closed spec fn index(self) -> int {
        self.index as int
    }

    /// The active screen.
    pub closed spec fn screen(self) -> ActiveScreen {
        self.screen
    }

    pub open spec fn wf(self) -> bool {
        &&& 0 <= self.index() < SCREEN_COUNT
        &&& screen_index(self.screen()) == self.index()
        &&& screen_wf(self.screen())
    }

    /// Whether the active screen has the headroom for one more tick.
    pub open spec fn can_tick(self) -> bool {
        match self.screen() {
            ActiveScreen::Chart(c) => c.can_tick(),
            _ => true,
        }
    }

    /// Start the rotation at the logo screen.  The caller arms the
    /// interrupt source for this first entry, as `poll` does for every
    /// later one.
    pub fn new() -> (s: Sequencer)
        ensures
            s.wf(),
            s.index() == 0,
            s.screen() is Logo,
            is_fresh(s.screen()),
    {
        Sequencer { index: 0, screen: ActiveScreen::Logo(RatatuiLogoApp::new()) }
    }

    /// The current position in the rotation.
    pub fn current_index(&self) -> (i: usize)
        ensures
            i as int == self.index(),
    {
        self.index
    }

    /// A borrow of the active screen, for rendering and inspection.
    pub fn current(&self) -> (s: &ActiveScreen)
        ensures
            *s == self.screen(),
    {
        &self.screen
    }

    /// A fresh screen for the given position in the rotation.
    fn fresh_screen_at(index: usize) -> (s: ActiveScreen)
        requires
            index < SCREEN_COUNT,
        ensures
            screen_index(s) == index,
            screen_wf(s),
            is_fresh(s),
    {
        if index == 0 {
            ActiveScreen::Logo(RatatuiLogoApp::new())
        } else if index == 1 {
            ActiveScreen::Tabs(TabsApp::new())
        } else if index == 2 {
            ActiveScreen::Chart(ChartApp::new())
        } else if index == 3 {
            ActiveScreen::Gauge(GaugeApp::new())
        } else {
            ActiveScreen::Voltage(VoltageApp::new())
        }
    }

    /// Apply one consumed advance signal: the active screen either
    /// absorbs it, or exits, in which case the rotation advances by one
    /// position (wrapping) and the next screen is constructed fresh.
    pub fn on_signal(&mut self) -> (advanced: bool)
        requires
            old(self).wf(),
        ensures
            final(self).wf(),
            advanced == exits_on_signal(old(self).screen()),
            advanced ==> {
                &&& final(self).index() == (old(self).index() + 1) % (SCREEN_COUNT as int)
                &&& is_fresh(final(self).screen())
            },
            !advanced ==> {
                &&& final(self).index() == old(self).index()
                &&& absorb_rel(old(self).screen(), final(self).screen())
            },
    {
        match self.screen.on_signal() {
            SignalOutcome::Exit => {
                self.index = if self.index + 1 < SCREEN_COUNT {
                    self.index + 1
                } else {
                    0
                };
                self.screen = Self::fresh_screen_at(self.index);
                true
            },
            SignalOutcome::Absorbed => false,
        }
    }

    /// One iteration head of the cooperative loop: consume the pending
    /// signal if there is one and apply the active screen's policy.
    /// Whenever an edge was consumed the source ends up armed again —
    /// after an absorbed edge as much as on entry to the next screen —
    /// so no further edge is ever locked out.
    pub fn poll(&mut self, notifier: &mut Notifier, source: &mut InputSource) -> (advanced: bool)
        requires
            old(self).wf(),
        ensures
            final(self).wf(),
            !final(notifier).is_pending(),
            !old(notifier).is_pending() ==> {
                &&& !advanced
                &&& *final(self) == *old(self)
                &&& *final(source) == *old(source)
            },
            old(notifier).is_pending() ==> {
                &&& final(source).is_armed()
                &&& advanced == exits_on_signal(old(self).screen())
                &&& advanced ==> final(self).index() == (old(self).index() + 1) % (
                SCREEN_COUNT as int) && is_fresh(final(self).screen())
                &&& !advanced ==> final(self).index() == old(self).index() && absorb_rel(
                    old(self).screen(),
                    final(self).screen(),
                )
            },
    {
        if notifier.try_consume() {
            let advanced = self.on_signal();
            source.arm();
            advanced
        } else {
            false
        }
    }

    /// Whether the active screen has the headroom for one more tick.
    pub fn tick_ready(&self) -> (b: bool)
        ensures
            b == self.can_tick(),
    {
        match &self.screen {
            ActiveScreen::Chart(app) => app.tick_ready(),
            _ => true,
        }
    }

    /// One tick of the active screen's animation; the rotation position
    /// does not move.
    pub fn on_tick(&mut self)
        requires
            old(self).wf(),
            old(self).can_tick(),
        ensures
            final(self).wf(),
            final(self).index() == old(self).index(),
            screen_tick_rel(old(self).screen(), final(self).screen()),
    {
        match &mut self.screen {
            ActiveScreen::Chart(app) => app.on_tick(),
            ActiveScreen::Gauge(app) => app.on_tick(),
            _ => {},
        }
    }

    /// Hand the voltage screen its per-iteration sensor read.  Only
    /// meaningful while the voltage screen is active.
    pub fn on_reading(&mut self, reading: Option<u16>) -> (redraw: bool)
        requires
            old(self).wf(),
            old(self).screen() is Voltage,
            reading matches Some(v) ==> v <= u16::MAX / 2,
        ensures
            final(self).wf(),
            final(self).index() == old(self).index(),
            reading matches Some(v) ==> {
                &&& redraw
                &&& final(self).screen() matches ActiveScreen::Voltage(vs)
                &&& vs.displayed() == Some((2 * v) as u16)
            },
            reading is None ==> {
                &&& !redraw
                &&& *final(self) == *old(self)
            },
    {
        match &mut self.screen {
            ActiveScreen::Voltage(app) => app.on_reading(reading),
            _ => false,
        }
    }
}

} // verus!
