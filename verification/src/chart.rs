//! The chart screen: two phase-advancing demo signals feeding bounded
//! sliding sample windows, a sliding x viewport, and a popup sub-state.

use vstd::prelude::*;
use crate::screen::SignalOutcome;

verus! {

/// Samples per sliding window.
pub const WINDOW_LEN: usize = 200;

/// Samples replaced per tick in the first window.
pub const REFRESH1: usize = 5;

/// Samples replaced per tick in the second window.
pub const REFRESH2: usize = 10;

/// x spacing between samples of the first signal, in tenths of the
/// drawn x unit.
pub const INTERVAL1: u64 = 2;

/// x spacing between samples of the second signal, in tenths.
pub const INTERVAL2: u64 = 1;

/// Width of the x viewport, in tenths.
pub const VIEW_SPAN: u64 = 200;

/// How far the viewport slides forward per tick, in tenths.
pub const VIEW_SLIDE: u64 = 10;

/// The x-coordinates of `n` consecutive samples drawn from phase
/// `start` with spacing `interval`.
pub open spec fn sample_xs(start: int, interval: int, n: nat) -> Seq<int> {
    Seq::new(n, |i: int| start + interval * i)
}

/// A sample window seen as mathematical integers.
pub open spec fn xs(v: Seq<u64>) -> Seq<int> {
    Seq::new(v.len(), |i: int| v[i] as int)
}

proof fn lemma_xs_push(v: Seq<u64>, p: u64)
    ensures
        xs(v.push(p)) == xs(v).push(p as int),
{
    assert(v.push(p).len() == v.len() + 1);
    assert forall|q: int| 0 <= q < v.len() + 1 implies xs(v.push(p))[q] == xs(v).push(
        p as int,
    )[q] by {
        if q < v.len() {
            assert(v.push(p)[q] == v[q]);
            assert(xs(v.push(p))[q] == v[q] as int);
            assert(xs(v)[q] == v[q] as int);
        } else {
            assert(v.push(p)[q] == p);
            assert(xs(v.push(p))[q] == p as int);
        }
    }
    assert(xs(v.push(p)) =~= xs(v).push(p as int));
}

proof fn lemma_xs_remove_first(v: Seq<u64>)
    requires
        v.len() > 0,
    ensures
        xs(v.remove(0)) == xs(v).skip(1),
{
    assert(v.remove(0).len() == v.len() - 1);
    assert forall|q: int| 0 <= q < v.len() - 1 implies xs(v.remove(0))[q] == xs(v).skip(1)[q] by {
        assert(v.remove(0)[q] == v[q + 1]);
        assert(xs(v.remove(0))[q] == v[q + 1] as int);
        assert(xs(v)[q + 1] == v[q + 1] as int);
    }
    assert(xs(v.remove(0)) =~= xs(v).skip(1));
}

proof fn lemma_skip_next(s: Seq<int>, k: nat)
    requires
        k < s.len(),
    ensures
        s.skip(k as int).skip(1) == s.skip(k as int + 1),
{
    assert(s.skip(k as int).skip(1) =~= s.skip(k as int + 1));
}

proof fn lemma_sample_push(start: int, interval: int, n: nat)
    ensures
        sample_xs(start, interval, n).push(start + interval * n) == sample_xs(
            start,
            interval,
            n + 1,
        ),
{
    assert forall|q: int| 0 <= q < n + 1 implies #[trigger] sample_xs(start, interval, n + 1)[q]
        == sample_xs(start, interval, n).push(start + interval * n)[q] by {
        if q < n {
            assert(sample_xs(start, interval, n).push(start + interval * n)[q] == sample_xs(
                start,
                interval,
                n,
            )[q]);
        }
    }
    assert(sample_xs(start, interval, n).push(start + interval * n) =~= sample_xs(
        start,
        interval,
        n + 1,
    ));
}

proof fn lemma_add_push(a: Seq<int>, b: Seq<int>, x: int)
    ensures
        (a + b).push(x) == a + b.push(x),
{
    assert((a + b).push(x) =~= a + b.push(x));
}

/// Sliding a run of `n` samples forward by `r`: dropping the `r` oldest
/// and appending the `r` next samples of the same signal yields the run
/// that starts `r` samples later.
proof fn lemma_sample_slide(start: int, interval: int, n: nat, r: nat)
    requires
        r <= n,
    ensures
        sample_xs(start, interval, n).skip(r as int) + sample_xs(
            start + interval * n,
            interval,
            r,
        ) == sample_xs(start + interval * r, interval, n),
{
    let lhs = sample_xs(start, interval, n).skip(r as int) + sample_xs(
        start + interval * n,
        interval,
        r,
    );
    let rhs = sample_xs(start + interval * r, interval, n);
    assert forall|i: int| 0 <= i < n implies lhs[i] == rhs[i] by {
        if i < n - r {
            assert(lhs[i] == start + interval * (i + r));
            assert(interval * (i + r) == interval * i + interval * r) by (nonlinear_arith);
            assert(interval * (r + i) == interval * r + interval * i) by (nonlinear_arith);
        } else {
            assert(lhs[i] == start + interval * n + interval * (i - (n - r)));
            assert(interval * (i - (n - r)) == interval * i - interval * n + interval * r)
                by (nonlinear_arith);
            assert(interval * (r + i) == interval * r + interval * i) by (nonlinear_arith);
        }
    }
    assert(lhs =~= rhs);
}

/// One of the two infinite, deterministic demo signals: a monotonic
/// phase accumulator advanced by a fixed spacing at every sample.  The
/// drawn y-value (a sine of the phase, scaled) belongs to rendering and
/// is derived outside the library; the window logic depends on the
/// x-coordinates alone.
pub struct SinSignal {
    x: u64,
    interval: u64,
}

impl SinSignal {
    /// The phase the next sample will carry, in tenths.
    pub closed spec fn phase(self) -> int {
        self.x as int
    }

    /// The fixed x spacing between samples, in tenths.
    pub closed spec fn interval(self) -> int {
        self.interval as int
    }

    pub fn new(interval: u64) -> (s: SinSignal)
        ensures
            s.phase() == 0,
            s.interval() == interval,
    {
        SinSignal { x: 0, interval }
    }

    /// Produce the next sample's x-coordinate and advance the phase.
    /// The phase is internal and monotonic: a consumed sample cannot be
    /// produced again.
    pub fn next(&mut self) -> (p: u64)
        requires
            old(self).phase() + old(self).interval() <= u64::MAX,
        ensures
            p as int == old(self).phase(),
            final(self).phase() == old(self).phase() + old(self).interval(),
            final(self).interval() == old(self).interval(),
    {
        let p = self.x;
        self.x = self.x + self.interval;
        p
    }
}

/// The chart screen: two independent signals, each with a bounded
/// sliding window of its most recent samples, a viewport that slides
/// forward every tick, and a popup flag driven by the advance policy.
pub struct ChartApp {
    signal1: SinSignal,
    data1: Vec<u64>,
    signal2: SinSignal,
    data2: Vec<u64>,
    window_lo: u64,
    window_hi: u64,
    popup: bool,
}

impl ChartApp {
    /// Phase of the first signal's next sample.
    pub closed spec fn phase1(self) -> int {
        self.signal1.phase()
    }

    /// Phase of the second signal's next sample.
    pub closed spec fn phase2(self) -> int {
        self.signal2.phase()
    }

    /// The first signal's window, oldest sample first.
    pub closed spec fn data1(self) -> Seq<int> {
        xs(self.data1@)
    }

    /// The second signal's window, oldest sample first.
    pub closed spec fn data2(self) -> Seq<int> {
        xs(self.data2@)
    }

    /// Lower x bound of the viewport, in tenths.
    pub closed spec fn window_lo(self) -> int {
        self.window_lo as int
    }

    /// Upper x bound of the viewport, in tenths.
    pub closed spec fn window_hi(self) -> int {
        self.window_hi as int
    }

    /// Whether the popup is on screen.
    pub closed spec fn popup(self) -> bool {
        self.popup
    }

    pub closed spec fn interval1(self) -> int {
        self.signal1.interval()
    }

    pub closed spec fn interval2(self) -> int {
        self.signal2.interval()
    }

    /// Each window holds exactly the most recent `WINDOW_LEN` samples of
    /// its signal, and the viewport always spans `VIEW_SPAN`.
    pub open spec fn wf(self) -> bool {
        &&& self.interval1() == INTERVAL1
        &&& self.interval2() == INTERVAL2
        &&& self.phase1() >= WINDOW_LEN * INTERVAL1
        &&& self.phase2() >= WINDOW_LEN * INTERVAL2
        &&& self.data1() == sample_xs(
            self.phase1() - WINDOW_LEN * INTERVAL1,
            INTERVAL1 as int,
            WINDOW_LEN as nat,
        )
        &&& self.data2() == sample_xs(
            self.phase2() - WINDOW_LEN * INTERVAL2,
            INTERVAL2 as int,
            WINDOW_LEN as nat,
        )
        &&& self.window_hi() == self.window_lo() + VIEW_SPAN
    }

    /// Headroom for one more tick in the phase accumulators and the
    /// viewport bounds.
    pub open spec fn can_tick(self) -> bool {
        &&& self.phase1() + REFRESH1 * INTERVAL1 <= u64::MAX
        &&& self.phase2() + REFRESH2 * INTERVAL2 <= u64::MAX
        &&& self.window_hi() + VIEW_SLIDE <= u64::MAX
    }

    /// How one tick relates the new state to the old: each window drops
    /// its oldest samples and appends that many fresh ones from its
    /// signal, both phases advance accordingly, the viewport slides
    /// forward, and the popup flag is untouched.
    pub open spec fn tick_rel(pre: ChartApp, post: ChartApp) -> bool {
        &&& post.data1() == pre.data1().skip(REFRESH1 as int) + sample_xs(
            pre.phase1(),
            INTERVAL1 as int,
            REFRESH1 as nat,
        )
        &&& post.data2() == pre.data2().skip(REFRESH2 as int) + sample_xs(
            pre.phase2(),
            INTERVAL2 as int,
            REFRESH2 as nat,
        )
        &&& post.phase1() == pre.phase1() + REFRESH1 * INTERVAL1
        &&& post.phase2() == pre.phase2() + REFRESH2 * INTERVAL2
        &&& post.window_lo() == pre.window_lo() + VIEW_SLIDE
        &&& post.window_hi() == pre.window_hi() + VIEW_SLIDE
        &&& post.popup() == pre.popup()
        &&& post.interval1() == pre.interval1()
        &&& post.interval2() == pre.interval2()
    }

    /// A fresh chart screen: both windows pre-filled with the first
    /// `WINDOW_LEN` samples of their signals, viewport at the origin,
    /// popup hidden.
    pub fn new() -> (app: ChartApp)
        ensures
            app.wf(),
            !app.popup(),
            app.phase1() == WINDOW_LEN * INTERVAL1,
            app.phase2() == WINDOW_LEN * INTERVAL2,
            app.data1() == sample_xs(0, INTERVAL1 as int, WINDOW_LEN as nat),
            app.data2() == sample_xs(0, INTERVAL2 as int, WINDOW_LEN as nat),
            app.window_lo() == 0,
            app.window_hi() == VIEW_SPAN,
    {
        let mut signal1 = SinSignal::new(INTERVAL1);
        let mut data1: Vec<u64> = Vec::new();
        let mut i: usize = 0;
        while i < WINDOW_LEN
            invariant
                i <= WINDOW_LEN,
                signal1.interval() == INTERVAL1,
                signal1.phase() == INTERVAL1 * i,
                xs(data1@) == sample_xs(0, INTERVAL1 as int, i as nat),
            decreases WINDOW_LEN - i,
        {
            let ghost prev = data1@;
            let p = signal1.next();
            data1.push(p);
            i = i + 1;
            proof {
                lemma_xs_push(prev, p);
                lemma_sample_push(0, INTERVAL1 as int, (i - 1) as nat);
            }
        }
        let mut signal2 = SinSignal::new(INTERVAL2);
        let mut data2: Vec<u64> = Vec::new();
        let mut j: usize = 0;
        while j < WINDOW_LEN
            invariant
                j <= WINDOW_LEN,
                signal2.interval() == INTERVAL2,
                signal2.phase() == INTERVAL2 * j,
                xs(data2@) == sample_xs(0, INTERVAL2 as int, j as nat),
            decreases WINDOW_LEN - j,
        {
            let ghost prev = data2@;
            let p = signal2.next();
            data2.push(p);
            j = j + 1;
            proof {
                lemma_xs_push(prev, p);
                lemma_sample_push(0, INTERVAL2 as int, (j - 1) as nat);
            }
        }
        ChartApp {
            signal1,
            data1,
            signal2,
            data2,
            window_lo: 0,
            window_hi: VIEW_SPAN,
            popup: false,
        }
    }

    /// Whether the phase accumulators and the viewport have the
    /// headroom for one more tick.
    pub fn tick_ready(&self) -> (b: bool)
        ensures
            b == self.can_tick(),
    {
        self.signal1.x <= u64::MAX - 10 && self.signal2.x <= u64::MAX - 10 && self.window_hi
            <= u64::MAX - VIEW_SLIDE
    }

    /// One tick of the animation: slide both sample windows and the
    /// viewport; the popup sub-state is untouched.
    pub fn on_tick(&mut self)
        requires
            old(self).wf(),
            old(self).can_tick(),
        ensures
            final(self).wf(),
            ChartApp::tick_rel(*old(self), *final(self)),
    {
        let ghost pre = *old(self);
        let mut k: usize = 0;
        while k < REFRESH1
            invariant
                k <= REFRESH1,
                self.signal1 == pre.signal1,
                self.signal2 == pre.signal2,
                self.data2 == pre.data2,
                self.window_lo == pre.window_lo,
                self.window_hi == pre.window_hi,
                self.popup == pre.popup,
                xs(self.data1@) == pre.data1().skip(k as int),
                pre.data1().len() == WINDOW_LEN,
            decreases REFRESH1 - k,
        {
            let ghost prev = self.data1@;
            proof {
                assert(xs(prev) == pre.data1().skip(k as int));
                assert(pre.data1().skip(k as int).len() == WINDOW_LEN - k);
                assert(prev.len() == WINDOW_LEN - k);
            }
            self.data1.remove(0);
            k = k + 1;
            proof {
                lemma_xs_remove_first(prev);
                lemma_skip_next(pre.data1(), (k - 1) as nat);
            }
        }
        let mut k: usize = 0;
        while k < REFRESH1
            invariant
                k <= REFRESH1,
                self.signal1.interval() == INTERVAL1,
                self.signal1.phase() == pre.phase1() + INTERVAL1 * k,
                pre.phase1() + REFRESH1 * INTERVAL1 <= u64::MAX,
                self.signal2 == pre.signal2,
                self.data2 == pre.data2,
                self.window_lo == pre.window_lo,
                self.window_hi == pre.window_hi,
                self.popup == pre.popup,
                xs(self.data1@) == pre.data1().skip(REFRESH1 as int) + sample_xs(
                    pre.phase1(),
                    INTERVAL1 as int,
                    k as nat,
                ),
            decreases REFRESH1 - k,
        {
            let ghost prev = self.data1@;
            let p = self.signal1.next();
            self.data1.push(p);
            k = k + 1;
            proof {
                lemma_xs_push(prev, p);
                lemma_sample_push(pre.phase1(), INTERVAL1 as int, (k - 1) as nat);
                lemma_add_push(
                    pre.data1().skip(REFRESH1 as int),
                    sample_xs(pre.phase1(), INTERVAL1 as int, (k - 1) as nat),
                    pre.phase1() + INTERVAL1 * (k - 1),
                );
            }
        }
        let mut k: usize = 0;
        while k < REFRESH2
            invariant
                k <= REFRESH2,
                self.signal1.interval() == INTERVAL1,
                self.signal1.phase() == pre.phase1() + REFRESH1 * INTERVAL1,
                xs(self.data1@) == pre.data1().skip(REFRESH1 as int) + sample_xs(
                    pre.phase1(),
                    INTERVAL1 as int,
                    REFRESH1 as nat,
                ),
                self.signal2 == pre.signal2,
                self.window_lo == pre.window_lo,
                self.window_hi == pre.window_hi,
                self.popup == pre.popup,
                xs(self.data2@) == pre.data2().skip(k as int),
                pre.data2().len() == WINDOW_LEN,
            decreases REFRESH2 - k,
        {
            let ghost prev = self.data2@;
            proof {
                assert(xs(prev) == pre.data2().skip(k as int));
                assert(pre.data2().skip(k as int).len() == WINDOW_LEN - k);
                assert(prev.len() == WINDOW_LEN - k);
            }
            self.data2.remove(0);
            k = k + 1;
            proof {
                lemma_xs_remove_first(prev);
                lemma_skip_next(pre.data2(), (k - 1) as nat);
            }
        }
        let mut k: usize = 0;
        while k < REFRESH2
            invariant
                k <= REFRESH2,
                self.signal1.interval() == INTERVAL1,
                self.signal1.phase() == pre.phase1() + REFRESH1 * INTERVAL1,
                xs(self.data1@) == pre.data1().skip(REFRESH1 as int) + sample_xs(
                    pre.phase1(),
                    INTERVAL1 as int,
                    REFRESH1 as nat,
                ),
                self.signal2.interval() == INTERVAL2,
                self.signal2.phase() == pre.phase2() + INTERVAL2 * k,
                pre.phase2() + REFRESH2 * INTERVAL2 <= u64::MAX,
                self.window_lo == pre.window_lo,
                self.window_hi == pre.window_hi,
                self.popup == pre.popup,
                xs(self.data2@) == pre.data2().skip(REFRESH2 as int) + sample_xs(
                    pre.phase2(),
                    INTERVAL2 as int,
                    k as nat,
                ),
            decreases REFRESH2 - k,
        {
            let ghost prev = self.data2@;
            let p = self.signal2.next();
            self.data2.push(p);
            k = k + 1;
            proof {
                lemma_xs_push(prev, p);
                lemma_sample_push(pre.phase2(), INTERVAL2 as int, (k - 1) as nat);
                lemma_add_push(
                    pre.data2().skip(REFRESH2 as int),
                    sample_xs(pre.phase2(), INTERVAL2 as int, (k - 1) as nat),
                    pre.phase2() + INTERVAL2 * (k - 1),
                );
            }
        }
        self.window_lo = self.window_lo + VIEW_SLIDE;
        self.window_hi = self.window_hi + VIEW_SLIDE;
        proof {
            lemma_sample_slide(
                pre.phase1() - WINDOW_LEN * INTERVAL1,
                INTERVAL1 as int,
                WINDOW_LEN as nat,
                REFRESH1 as nat,
            );
            lemma_sample_slide(
                pre.phase2() - WINDOW_LEN * INTERVAL2,
                INTERVAL2 as int,
                WINDOW_LEN as nat,
                REFRESH2 as nat,
            );
        }
    }

    /// Advance policy: with the popup hidden, a consumed signal shows it
    /// and is absorbed; with the popup already shown, a consumed signal
    /// exits.  The popup never goes back to hidden, and the animation
    /// state is untouched either way.
    pub fn on_signal(&mut self) -> (r: SignalOutcome)
        ensures
            ChartApp::same_animation(*old(self), *final(self)),
            !old(self).popup() ==> {
                &&& r is Absorbed
                &&& final(self).popup()
            },
            old(self).popup() ==> {
                &&& r is Exit
                &&& *final(self) == *old(self)
            },
    {
        if self.popup {
            SignalOutcome::Exit
        } else {
            self.popup = true;
            SignalOutcome::Absorbed
        }
    }

    /// Whether the popup is currently drawn over the chart.
    pub fn popup_visible(&self) -> (b: bool)
        ensures
            b == self.popup(),
    {
        self.popup
    }

    /// The viewport's x bounds, in tenths.
    pub fn window_bounds(&self) -> (b: (u64, u64))
        ensures
            b.0 as int == self.window_lo(),
            b.1 as int == self.window_hi(),
    {
        (self.window_lo, self.window_hi)
    }

    pub fn sample_count1(&self) -> (n: usize)
        ensures
            n as int == self.data1().len(),
    {
        proof {
            assert(xs(self.data1@).len() == self.data1@.len());
        }
        self.data1.len()
    }

    pub fn sample_count2(&self) -> (n: usize)
        ensures
            n as int == self.data2().len(),
    {
        proof {
            assert(xs(self.data2@).len() == self.data2@.len());
        }
        self.data2.len()
    }

    /// The x-coordinate of the first window's sample at `i`, in tenths.
    pub fn sample1(&self, i: usize) -> (x: u64)
        requires
            i < self.data1().len(),
        ensures
            x as int == self.data1()[i as int],
    {
        proof {
            assert(xs(self.data1@).len() == self.data1@.len());
            assert(xs(self.data1@)[i as int] == self.data1@[i as int] as int);
        }
        self.data1[i]
    }

    /// The x-coordinate of the second window's sample at `i`, in tenths.
    pub fn sample2(&self, i: usize) -> (x: u64)
        requires
            i < self.data2().len(),
        ensures
            x as int == self.data2()[i as int],
    {
        proof {
            assert(xs(self.data2@).len() == self.data2@.len());
            assert(xs(self.data2@)[i as int] == self.data2@[i as int] as int);
        }
        self.data2[i]
    }

    /// Everything the popup flag does not cover: signals, windows and
    /// viewport agree between the two states.
    pub open spec fn same_animation(a: ChartApp, b: ChartApp) -> bool {
        &&& a.data1() == b.data1()
        &&& a.data2() == b.data2()
        &&& a.phase1() == b.phase1()
        &&& a.phase2() == b.phase2()
        &&& a.interval1() == b.interval1()
        &&& a.interval2() == b.interval2()
        &&& a.window_lo() == b.window_lo()
        &&& a.window_hi() == b.window_hi()
    }
}

/// One tick leaves each window's length unchanged, drops exactly the
/// oldest samples, and appends samples whose x-coordinates rise
/// strictly, every one of them beyond every dropped one.
pub proof fn lemma_window_slide(pre: ChartApp, post: ChartApp)
    requires
        pre.wf(),
        ChartApp::tick_rel(pre, post),
    ensures
        post.data1().len() == pre.data1().len(),
        post.data2().len() == pre.data2().len(),
        forall|i: int|
            0 <= i < WINDOW_LEN - REFRESH1 ==> post.data1()[i] == pre.data1()[i + REFRESH1],
        forall|i: int|
            0 <= i < WINDOW_LEN - REFRESH2 ==> post.data2()[i] == pre.data2()[i + REFRESH2],
        forall|i: int, j: int|
            0 <= i < REFRESH1 && WINDOW_LEN - REFRESH1 <= j < WINDOW_LEN ==> pre.data1()[i]
                < post.data1()[j],
        forall|i: int, j: int|
            0 <= i < REFRESH2 && WINDOW_LEN - REFRESH2 <= j < WINDOW_LEN ==> pre.data2()[i]
                < post.data2()[j],
        forall|i: int, j: int|
            WINDOW_LEN - REFRESH1 <= i < j < WINDOW_LEN ==> post.data1()[i] < post.data1()[j],
        forall|i: int, j: int|
            WINDOW_LEN - REFRESH2 <= i < j < WINDOW_LEN ==> post.data2()[i] < post.data2()[j],
{
}

} // verus!
