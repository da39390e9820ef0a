//! The tabbed content screen: a one-way walk over three tabs, exit from
//! the last one.

use vstd::prelude::*;
use crate::screen::SignalOutcome;
use rand::RngExt;

verus! {

pub const TAB_COUNT: usize = 3;

pub const TEMPERATURE_COUNT: usize = 6;

/// Relies on rand's `RngExt::random_range` over the non-empty range
/// `50..90`: a uniformly drawn sample from that range.  Nothing more can
/// be promised of a random draw than its bounds.
#[verifier::external_body]
fn random_temperature() -> (t: u8)
    ensures
        50 <= t < 90,
{
    rand::rng().random_range(50..90)
}

/// The tabbed screen: a tab index walking forward over three tabs, and
/// six demo temperatures drawn once at creation and immutable afterwards.
pub struct TabsApp {
    selected_tab: usize,
    temperatures: Vec<u8>,
}

impl TabsApp {
    /// The currently selected tab.
    pub closed spec fn selected(self) -> int {
        self.selected_tab as int
    }

    /// The bar-chart temperatures, fixed at creation.
    pub closed spec fn temperatures(self) -> Seq<u8> {
        self.temperatures@
    }

    pub open spec fn wf(self) -> bool {
        &&& 0 <= self.selected() < TAB_COUNT
        &&& self.temperatures().len() == TEMPERATURE_COUNT
        &&& forall|i: int|
            0 <= i < self.temperatures().len() ==> 50 <= #[trigger] self.temperatures()[i] < 90
    }

    /// A fresh tabs screen: the first tab selected, six temperatures
    /// drawn once, each in `[50, 90)`.
    pub fn new() -> (app: TabsApp)
        ensures
            app.wf(),
            app.selected() == 0,
    {
        let mut temperatures: Vec<u8> = Vec::new();
        let mut i: usize = 0;
        while i < TEMPERATURE_COUNT
            invariant
                i <= TEMPERATURE_COUNT,
                temperatures@.len() == i,
                forall|j: int| 0 <= j < i ==> 50 <= #[trigger] temperatures@[j] < 90,
            decreases TEMPERATURE_COUNT - i,
        {
            temperatures.push(random_temperature());
            i = i + 1;
        }
        TabsApp { selected_tab: 0, temperatures }
    }

    /// The currently selected tab.
    pub fn selected_tab(&self) -> (t: usize)
        ensures
            t as int == self.selected(),
    {
        self.selected_tab
    }

    pub fn temperature_count(&self) -> (n: usize)
        ensures
            n as int == self.temperatures().len(),
    {
        self.temperatures.len()
    }

    /// The temperature drawn for the given bar.
    pub fn temperature(&self, i: usize) -> (t: u8)
        requires
            i < self.temperatures().len(),
        ensures
            t == self.temperatures()[i as int],
    {
        self.temperatures[i]
    }

    /// Advance policy: below the last tab a consumed signal steps the
    /// selection forward by exactly one and is absorbed; on the last tab
    /// it exits without touching the selection.  The temperatures never
    /// change.
    pub fn on_signal(&mut self) -> (r: SignalOutcome)
        requires
            old(self).wf(),
        ensures
            final(self).wf(),
            final(self).temperatures() == old(self).temperatures(),
            old(self).selected() < TAB_COUNT - 1 ==> {
                &&& r is Absorbed
                &&& final(self).selected() == old(self).selected() + 1
            },
            old(self).selected() == TAB_COUNT - 1 ==> {
                &&& r is Exit
                &&& *final(self) == *old(self)
            },
    {
        if self.selected_tab == TAB_COUNT - 1 {
            SignalOutcome::Exit
        } else {
            self.selected_tab = self.selected_tab + 1;
            SignalOutcome::Absorbed
        }
    }
}

impl Default for TabsApp {
    fn default() -> (app: TabsApp)
        ensures
            app.wf(),
            app.selected() == 0,
    {
        TabsApp::new()
    }
}

} // verus!
