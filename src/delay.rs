//! Blocking delays built from countdowns: a delay longer than the timer's
//! maximum period is split into full-period countdowns and one remainder.
use vstd::prelude::*;
use crate::time::{cycles_in, Duration, Hertz, Resolution};
use crate::timer::{
    accepts, lemma_short_countdown_exact, max_period_of, setting_for, Counter, CountDownTimer,
    CountdownView,
};

verus! {

/// `n` countdowns of `chunk` ticks each.
pub open spec fn repeated(n: nat, chunk: u32) -> Seq<u32> {
    Seq::new(n, |_i: int| chunk)
}

/// The countdowns a delay of `total` ticks is made of when none may exceed
/// `chunk` ticks: `total / chunk` full chunks, then the remainder if any.
pub open spec fn delay_chunks(total: u32, chunk: u32) -> Seq<u32>
    recommends
        chunk > 0,
{
    let full = repeated((total / chunk) as nat, chunk);
    if total % chunk > 0 {
        full.push((total % chunk) as u32)
    } else {
        full
    }
}

/// The sum of a sequence of countdown lengths.
pub open spec fn total_of(s: Seq<u32>) -> nat
    decreases s.len(),
{
    if s.len() == 0 {
        0
    } else {
        (total_of(s.drop_last()) + s.last()) as nat
    }
}

proof fn lemma_total_of_repeated(n: nat, chunk: u32)
    ensures
        total_of(repeated(n, chunk)) == n * chunk,
    decreases n,
{
    if n > 0 {
        let s = repeated(n, chunk);
        assert(s.drop_last() =~= repeated((n - 1) as nat, chunk));
        lemma_total_of_repeated((n - 1) as nat, chunk);
        assert(n * chunk == (n - 1) * chunk + chunk) by (nonlinear_arith);
        assert(total_of(s) == total_of(s.drop_last()) + s.last());
    } else {
        assert(repeated(n, chunk).len() == 0);
    }
}

/// A delay of `total` ticks split at `chunk` ticks consists of exactly
/// `total / chunk` full chunks followed, when `total % chunk` is nonzero, by
/// exactly one shorter countdown of that remainder; no countdown is empty or
/// exceeds `chunk`, and together they last exactly `total`.
pub proof fn lemma_delay_chunks(total: u32, chunk: u32)
    requires
        chunk > 0,
    ensures
        ({
            let s = delay_chunks(total, chunk);
            &&& s.len() == total / chunk + if total % chunk > 0 { 1int } else { 0int }
            &&& forall|i: int| 0 <= i < total / chunk ==> #[trigger] s[i] == chunk
            &&& total % chunk > 0 ==> s.last() == total % chunk
            &&& forall|i: int| 0 <= i < s.len() ==> 0 < #[trigger] s[i] <= chunk
            &&& total_of(s) == total
        }),
{
    let n = (total / chunk) as nat;
    let full = repeated(n, chunk);
    lemma_total_of_repeated(n, chunk);
    assert(n * chunk + total % chunk == total) by (nonlinear_arith)
        requires
            n == total / chunk,
            chunk > 0,
    ;
    if total % chunk > 0 {
        let s = full.push((total % chunk) as u32);
        assert(s.drop_last() =~= full);
    }
}

/// One step of a delay.
#[derive(Clone, Copy, Debug, PartialEq, Eq, Structural)]
pub enum DelayStep {
    /// Program a countdown of this many ticks and wait until it ends.
    Start(u32),
    /// Wait until the running countdown ends once more.
    Repeat,
    /// A remainder of this many ticks is shorter than one clock cycle of the
    /// timer: there is nothing to wait for.
    Skip(u32),
    /// The delay is over.
    Finished,
}

/// What is left of a delay.
pub struct DelayScheduleView {
    /// The resolution of the tick counts.
    pub resolution: Resolution,
    /// The longest countdown allowed.
    pub chunk: u32,
    /// The countdowns still to wait for, in order.
    pub pending: Seq<u32>,
    /// The length of the countdown started last, if any.
    pub running: Option<u32>,
}

/// The countdowns of one delay, handed out one at a time.
pub struct DelaySchedule {
    resolution: Resolution,
    chunk: u32,
    full_left: u32,
    tail: u32,
    running: Option<u32>,
}

impl View for DelaySchedule {
    type V = DelayScheduleView;

    closed spec fn view(&self) -> DelayScheduleView {
        let full = repeated(self.full_left as nat, self.chunk);
        DelayScheduleView {
            resolution: self.resolution,
            chunk: self.chunk,
            pending: if self.tail > 0 {
                full.push(self.tail)
            } else {
                full
            },
            running: self.running,
        }
    }
}

impl DelaySchedule {
    #[verifier::type_invariant]
    spec fn remainder_below_chunk(self) -> bool {
        self.tail < self.chunk
    }

    /// A delay of `total` ticks of `resolution`, in countdowns of at most
    /// `chunk` ticks.
    pub fn new(total: u32, chunk: u32, resolution: Resolution) -> (r: DelaySchedule)
        requires
            chunk > 0,
        ensures
            r@.resolution == resolution,
            r@.chunk == chunk,
            r@.pending == delay_chunks(total, chunk),
            r@.running is None,
    {
        let r = DelaySchedule {
            resolution,
            chunk,
            full_left: total / chunk,
            tail: total % chunk,
            running: None,
        };
        assert(r@.pending =~= delay_chunks(total, chunk));
        r
    }

    /// The resolution of the tick counts.
    pub fn resolution(&self) -> (r: Resolution)
        ensures
            r == self@.resolution,
    {
        self.resolution
    }

    /// The next countdown of the delay. A full chunk that follows a full
    /// chunk repeats the running countdown; any other is started anew.
    pub fn next(&mut self) -> (r: DelayStep)
        ensures
            final(self)@.resolution == old(self)@.resolution,
            final(self)@.chunk == old(self)@.chunk,
            old(self)@.pending.len() == 0 ==> r == DelayStep::Finished && final(self)@ == old(self)@,
            old(self)@.pending.len() > 0 ==> {
                let n = old(self)@.pending[0];
                &&& 0 < n <= old(self)@.chunk
                &&& final(self)@.pending == old(self)@.pending.drop_first()
                &&& final(self)@.running == Some(n)
                &&& (r == DelayStep::Repeat || r == DelayStep::Start(n))
                &&& r == DelayStep::Repeat <==> (old(self)@.running == Some(n) && n == old(self)@.chunk)
            },
    {
        proof {
            use_type_invariant(&*self);
            let full = repeated(self.full_left as nat, self.chunk);
            if self.full_left > 0 {
                let rest = repeated((self.full_left - 1) as nat, self.chunk);
                assert(full.drop_first() =~= rest);
                if self.tail > 0 {
                    assert(full.push(self.tail).drop_first() =~= rest.push(self.tail));
                }
            } else if self.tail > 0 {
                assert(full.push(self.tail).drop_first() =~= Seq::<u32>::empty());
            }
        }
        if self.full_left > 0 {
            self.full_left = self.full_left - 1;
            let repeat = match self.running {
                Some(n) => n == self.chunk,
                None => false,
            };
            self.running = Some(self.chunk);
            if repeat {
                DelayStep::Repeat
            } else {
                DelayStep::Start(self.chunk)
            }
        } else if self.tail > 0 {
            let n = self.tail;
            self.tail = 0;
            self.running = Some(n);
            DelayStep::Start(n)
        } else {
            DelayStep::Finished
        }
    }
}

} // verus!

verus! {

proof fn lemma_max_period_spans_a_cycle(clk: Hertz, counter: Counter, res: Resolution)
    requires
        clk.0 > 0,
        max_period_of(clk, counter, res) >= 1,
    ensures
        cycles_in(max_period_of(clk, counter, res), clk.0 as nat, res) >= 1,
{
    let s = res.scale();
    let m = (counter.limit() - 1) as nat;
    let hz = clk.0 as nat;
    let w = m * s / hz;
    let t = max_period_of(clk, counter, res);
    if w <= u32::MAX {
        assert(t == w);
        assert(w * hz > m * s - hz) by (nonlinear_arith)
            requires
                w == m * s / hz,
                hz > 0,
        ;
        if hz <= s {
            assert((m - 1) * s >= s) by (nonlinear_arith)
                requires
                    m >= 0xffff,
                    s > 0,
            ;
        } else {
            assert(w * hz >= hz) by (nonlinear_arith)
                requires
                    w >= 1,
            ;
        }
        assert(t * hz >= s);
    } else {
        assert(t == u32::MAX);
        assert(t * hz >= t) by (nonlinear_arith)
            requires
                hz >= 1,
        ;
    }
    assert(t * hz / s >= 1) by (nonlinear_arith)
        requires
            t * hz >= s,
            s > 0,
    ;
}

/// Whether `schedule` splits a delay at the maximum period of `timer`, and a
/// full chunk that it lets repeat is the countdown that `timer` runs.
pub open spec fn schedule_fits(timer: CountdownView, schedule: DelayScheduleView) -> bool {
    &&& timer.clock.0 > 0
    &&& schedule.chunk as nat == max_period_of(timer.clock, timer.counter, schedule.resolution)
    &&& schedule.running == Some(schedule.chunk) ==> {
        &&& timer.enabled
        &&& timer.setting == Some(
            setting_for(
                cycles_in(schedule.chunk as nat, timer.clock.0 as nat, schedule.resolution),
                timer.counter,
            ),
        )
    }
}

/// A countdown timer used to wait for delays.
pub struct DelayFromCountDownTimer<T>(T);

impl<T: View> View for DelayFromCountDownTimer<T> {
    type V = T::V;

    closed spec fn view(&self) -> T::V {
        self.0@
    }
}

impl<T> DelayFromCountDownTimer<T> {
    /// The timer inside.
    pub closed spec fn inner(&self) -> T {
        self.0
    }

    /// Makes a delay provider of a countdown timer.
    pub fn new(timer: T) -> (r: Self)
        ensures
            r.inner() == timer,
    {
        DelayFromCountDownTimer(timer)
    }

    /// Gives the timer back.
    pub fn free(self) -> (r: T)
        ensures
            r == self.inner(),
    {
        self.0
    }
}

impl<TIM> DelayFromCountDownTimer<CountDownTimer<TIM>> {
    /// The timer, for the register accesses that carry out a countdown.
    pub fn timer(&mut self) -> (r: &mut CountDownTimer<TIM>)
        ensures
            *r == old(self).inner(),
            final(self).inner() == *final(r),
    {
        &mut self.0
    }

    /// The countdowns of a delay of `d` on this timer.
    pub fn delay(&self, d: Duration) -> (r: DelaySchedule)
        requires
            self@.clock.0 > 0,
            max_period_of(self@.clock, self@.counter, d.resolution) > 0,
        ensures
            r@.resolution == d.resolution,
            r@.chunk == max_period_of(self@.clock, self@.counter, d.resolution),
            r@.pending == delay_chunks(d.ticks, r@.chunk),
            r@.running is None,
            schedule_fits(self@, r@),
    {
        let chunk = self.0.max_period(d.resolution);
        DelaySchedule::new(d.ticks, chunk.ticks, d.resolution)
    }

    /// The countdowns of a delay of `ns` nanoseconds.
    pub fn delay_ns(&self, ns: u32) -> (r: DelaySchedule)
        requires
            self@.clock.0 > 0,
            max_period_of(self@.clock, self@.counter, Resolution::Nanos) > 0,
        ensures
            r@.resolution == Resolution::Nanos,
            r@.chunk == max_period_of(self@.clock, self@.counter, Resolution::Nanos),
            r@.pending == delay_chunks(ns, r@.chunk),
            r@.running is None,
            schedule_fits(self@, r@),
    {
        self.delay(Duration::nanos(ns))
    }

    /// The countdowns of a delay of `us` microseconds.
    pub fn delay_us(&self, us: u32) -> (r: DelaySchedule)
        requires
            self@.clock.0 > 0,
            max_period_of(self@.clock, self@.counter, Resolution::Micros) > 0,
        ensures
            r@.resolution == Resolution::Micros,
            r@.chunk == max_period_of(self@.clock, self@.counter, Resolution::Micros),
            r@.pending == delay_chunks(us, r@.chunk),
            r@.running is None,
            schedule_fits(self@, r@),
    {
        self.delay(Duration::micros(us))
    }

    /// The countdowns of a delay of `ms` milliseconds.
    pub fn delay_ms(&self, ms: u32) -> (r: DelaySchedule)
        requires
            self@.clock.0 > 0,
            max_period_of(self@.clock, self@.counter, Resolution::Millis) > 0,
        ensures
            r@.resolution == Resolution::Millis,
            r@.chunk == max_period_of(self@.clock, self@.counter, Resolution::Millis),
            r@.pending == delay_chunks(ms, r@.chunk),
            r@.running is None,
            schedule_fits(self@, r@),
    {
        self.delay(Duration::millis(ms))
    }

    /// Takes the next countdown of `schedule` and programs the timer for it
    /// where it must be started anew. The caller then waits for the countdown
    /// to end, unless the step is `Skip` or `Finished`.
    pub fn next_countdown(&mut self, schedule: &mut DelaySchedule) -> (r: DelayStep)
        requires
            schedule_fits(old(self)@, old(schedule)@),
        ensures
            schedule_fits(final(self)@, final(schedule)@),
            final(schedule)@.resolution == old(schedule)@.resolution,
            final(schedule)@.chunk == old(schedule)@.chunk,
            old(schedule)@.pending.len() == 0 ==> {
                &&& r == DelayStep::Finished
                &&& final(schedule)@ == old(schedule)@
                &&& final(self)@ == old(self)@
            },
            old(schedule)@.pending.len() > 0 ==> {
                let n = old(schedule)@.pending[0];
                let d = Duration { ticks: n, resolution: old(schedule)@.resolution };
                let repeat = old(schedule)@.running == Some(n) && n == old(schedule)@.chunk;
                &&& 0 < n <= old(schedule)@.chunk
                &&& final(schedule)@.pending == old(schedule)@.pending.drop_first()
                &&& final(schedule)@.running == Some(n)
                &&& (r == DelayStep::Repeat <==> repeat)
                &&& (r == DelayStep::Skip(n) <==> !repeat && !accepts(d, old(self)@.clock, old(self)@.counter))
                &&& (r == DelayStep::Start(n) <==> !repeat && accepts(d, old(self)@.clock, old(self)@.counter))
                &&& (r == DelayStep::Skip(n) ==> n < old(schedule)@.chunk
                    && cycles_in(n as nat, old(self)@.clock.0 as nat, d.resolution) == 0)
                &&& r == DelayStep::Start(n) ==> final(self)@ == (CountdownView {
                    setting: Some(setting_for(cycles_in(n as nat, old(self)@.clock.0 as nat, d.resolution), old(self)@.counter)),
                    enabled: true,
                    ..old(self)@
                })
                &&& r != DelayStep::Start(n) ==> final(self)@ == old(self)@
            },
    {
        let ghost old_schedule = schedule@;
        let step = schedule.next();
        match step {
            DelayStep::Start(n) => {
                let d = Duration { ticks: n, resolution: schedule.resolution() };
                proof {
                    let clk = self@.clock;
                    let counter = self@.counter;
                    let chunk = old_schedule.chunk;
                    if cycles_in(n as nat, clk.0 as nat, d.resolution) >= 1 {
                        lemma_short_countdown_exact(d, clk, counter);
                    }
                    if n == chunk {
                        lemma_max_period_spans_a_cycle(clk, counter, d.resolution);
                        lemma_short_countdown_exact(d, clk, counter);
                    }
                }
                if self.0.accepts(d) {
                    self.0.start(d);
                    DelayStep::Start(n)
                } else {
                    DelayStep::Skip(n)
                }
            },
            other => other,
        }
    }
}

} // verus!
