//! Countdown timers: deriving prescaler and reload values from a duration,
//! and the bookkeeping of a running countdown.
use vstd::prelude::*;
use crate::time::{cycles, cycles_in, duration, ticks_in, Duration, Hertz, Resolution};
use crate::Sealed;

verus! {

/// The counter hardware behind a countdown.
#[derive(Clone, Copy, Debug, PartialEq, Eq, Structural)]
pub enum Counter {
    /// The core's system tick: a 24-bit reload register and no prescaler.
    SysTick,
    /// A general-purpose timer: a 16-bit auto-reload register behind a
    /// 16-bit prescaler.
    General,
}

impl Counter {
    /// One more than the largest reload value the counter holds.
    pub open spec fn limit(self) -> nat {
        match self {
            Counter::SysTick => 0x100_0000,
            Counter::General => 0x1_0000,
        }
    }

    /// The largest prescaler value the counter holds.
    pub open spec fn max_prescaler(self) -> nat {
        match self {
            Counter::SysTick => 0,
            Counter::General => 0xffff,
        }
    }

    pub fn reload_limit(&self) -> (r: u32)
        ensures
            r == self.limit(),
    {
        match self {
            Counter::SysTick => 0x100_0000,
            Counter::General => 0x1_0000,
        }
    }

    pub fn prescaler_max(&self) -> (r: u32)
        ensures
            r == self.max_prescaler(),
    {
        match self {
            Counter::SysTick => 0,
            Counter::General => 0xffff,
        }
    }
}

/// The values that make a counter fire once after a given number of cycles:
/// it counts `reload` steps of `prescaler + 1` clock cycles each.
#[derive(Clone, Copy, Debug, PartialEq, Eq, Structural)]
pub struct CountdownSetting {
    pub prescaler: u32,
    pub reload: u32,
}

/// The prescaler for `c` cycles: the least `p` with `c <= (p + 1) * limit`.
pub open spec fn prescaler_for(c: nat, limit: nat) -> nat
    recommends
        c >= 1,
        limit > 0,
{
    (c - 1) as nat / limit
}

/// The reload value for `c` cycles once the clock is divided by the prescaler.
pub open spec fn reload_for(c: nat, limit: nat) -> nat
    recommends
        c >= 1,
        limit > 0,
{
    c / (prescaler_for(c, limit) + 1)
}

/// Whether a countdown of `c` cycles can be programmed into `counter`.
pub open spec fn fits(c: nat, counter: Counter) -> bool {
    &&& c >= 1
    &&& prescaler_for(c, counter.limit()) <= counter.max_prescaler()
    &&& reload_for(c, counter.limit()) < counter.limit()
}

/// The setting for a countdown of `c` cycles on `counter`.
pub open spec fn setting_for(c: nat, counter: Counter) -> CountdownSetting {
    CountdownSetting {
        prescaler: prescaler_for(c, counter.limit()) as u32,
        reload: reload_for(c, counter.limit()) as u32,
    }
}

/// Whether `counter`, clocked at `clk`, can count down `d`.
pub open spec fn accepts(d: Duration, clk: Hertz, counter: Counter) -> bool {
    let c = cycles_in(d.ticks as nat, clk.0 as nat, d.resolution);
    &&& d.ticks > 0
    &&& c <= u32::MAX
    &&& fits(c, counter)
}

/// The longest countdown `counter` offers at `clk` without its prescaler,
/// in ticks of `res`.
pub open spec fn max_period_of(clk: Hertz, counter: Counter, res: Resolution) -> nat {
    ticks_in((counter.limit() - 1) as nat, clk.0 as nat, res)
}

/// A countdown no longer than the counter's maximum period, and at least one
/// clock cycle long, needs no prescaler: its reload value stays below the
/// counter's limit, and the counted cycles `(prescaler + 1) * reload` are
/// within one clock cycle of the requested duration.
pub proof fn lemma_short_countdown_exact(d: Duration, clk: Hertz, counter: Counter)
    requires
        clk.0 > 0,
        cycles_in(d.ticks as nat, clk.0 as nat, d.resolution) >= 1,
        d.ticks <= max_period_of(clk, counter, d.resolution),
    ensures
        accepts(d, clk, counter),
        ({
            let s = setting_for(cycles_in(d.ticks as nat, clk.0 as nat, d.resolution), counter);
            let counted = (s.prescaler + 1) * s.reload;
            &&& s.prescaler == 0
            &&& s.reload < counter.limit()
            &&& counted * d.resolution.scale() <= d.ticks * clk.0
            &&& d.ticks * clk.0 < (counted + 1) * d.resolution.scale()
        }),
{
    let scale = d.resolution.scale();
    let m = (counter.limit() - 1) as nat;
    let hz = clk.0 as nat;
    let t = d.ticks as nat;
    let whole = m * scale / hz;
    assert(t <= whole);
    assert(t * hz <= m * scale) by (nonlinear_arith)
        requires
            t <= whole,
            whole == m * scale / hz,
            hz > 0,
    ;
    let c = t * hz / scale;
    assert(c <= m) by (nonlinear_arith)
        requires
            t * hz <= m * scale,
            c == t * hz / scale,
            scale > 0,
    ;
    assert(c * scale <= t * hz < (c + 1) * scale) by (nonlinear_arith)
        requires
            c == t * hz / scale,
            scale > 0,
    ;
    assert(t > 0) by (nonlinear_arith)
        requires
            c == t * hz / scale,
            c >= 1,
            scale > 0,
    ;
    assert(prescaler_for(c, counter.limit()) == 0);
    assert(c / 1 == c);
    assert(reload_for(c, counter.limit()) == c);
    let s = setting_for(c, counter);
    assert(s.prescaler == 0 && s.reload == c);
    assert((s.prescaler + 1) * s.reload == c) by (nonlinear_arith)
        requires
            s.prescaler == 0,
            s.reload == c,
    ;
}

/// The prescaler and reload value for a countdown of `cycles` clock cycles,
/// or `None` where `counter` cannot hold it.
pub fn countdown_setting(cycles: u32, counter: Counter) -> (r: Option<CountdownSetting>)
    ensures
        r is Some <==> fits(cycles as nat, counter),
        r is Some ==> r->0 == setting_for(cycles as nat, counter),
{
    if cycles == 0 {
        return None;
    }
    let limit = counter.reload_limit();
    let prescaler = (cycles - 1) / limit;
    if prescaler > counter.prescaler_max() {
        return None;
    }
    let reload = cycles / (prescaler + 1);
    if reload >= limit {
        return None;
    }
    Some(CountdownSetting { prescaler, reload })
}

/// Timer events that can raise an interrupt.
#[derive(Clone, Copy, Debug, PartialEq, Eq, Structural)]
pub enum Event {
    /// The countdown ended.
    TimeOut,
}

/// What a timer drives onto its trigger output.
#[derive(Clone, Copy, Debug, PartialEq, Eq, Structural)]
pub enum TriggerSource {
    /// The update-generation bit.
    Reset,
    /// The counter-enable bit.
    Enable,
    /// The update event.
    Update,
    /// A positive pulse when capture/compare 1 fires.
    ComparePulse,
    /// Output compare reference 1.
    Compare1,
    /// Output compare reference 2.
    Compare2,
    /// Output compare reference 3.
    Compare3,
    /// Output compare reference 4.
    Compare4,
}

impl TriggerSource {
    /// The master-mode selection field value for this source.
    pub open spec fn code(self) -> u8 {
        match self {
            TriggerSource::Reset => 0,
            TriggerSource::Enable => 1,
            TriggerSource::Update => 2,
            TriggerSource::ComparePulse => 3,
            TriggerSource::Compare1 => 4,
            TriggerSource::Compare2 => 5,
            TriggerSource::Compare3 => 6,
            TriggerSource::Compare4 => 7,
        }
    }

    pub fn bits(&self) -> (r: u8)
        ensures
            r == self.code(),
    {
        match self {
            TriggerSource::Reset => 0,
            TriggerSource::Enable => 1,
            TriggerSource::Update => 2,
            TriggerSource::ComparePulse => 3,
            TriggerSource::Compare1 => 4,
            TriggerSource::Compare2 => 5,
            TriggerSource::Compare3 => 6,
            TriggerSource::Compare4 => 7,
        }
    }
}

/// Countdown errors.
#[derive(Clone, Copy, Debug, PartialEq, Eq, Structural)]
pub enum Error {
    /// The countdown is not running.
    Disabled,
}

/// A timer peripheral of this family.
pub trait Instance: Sealed {}

/// What a [`Timer`] knows of its counter.
pub struct TimerView {
    pub clock: Hertz,
    pub counter: Counter,
}

/// A timer peripheral together with the clock that drives it.
pub struct Timer<TIM> {
    tim: TIM,
    clk: Hertz,
    counter: Counter,
}

impl<TIM> View for Timer<TIM> {
    type V = TimerView;

    closed spec fn view(&self) -> TimerView {
        TimerView { clock: self.clk, counter: self.counter }
    }
}

/// What a [`CountDownTimer`] knows of its counter and its countdown.
pub struct CountdownView {
    pub clock: Hertz,
    pub counter: Counter,
    /// The setting last programmed, if any.
    pub setting: Option<CountdownSetting>,
    /// Whether the counter runs.
    pub enabled: bool,
    /// Whether the end of a countdown raises an interrupt.
    pub listening: bool,
}

/// A timer used to count down durations.
pub struct CountDownTimer<TIM> {
    tim: TIM,
    clk: Hertz,
    counter: Counter,
    setting: Option<CountdownSetting>,
    enabled: bool,
    listening: bool,
}

impl<TIM> View for CountDownTimer<TIM> {
    type V = CountdownView;

    closed spec fn view(&self) -> CountdownView {
        CountdownView {
            clock: self.clk,
            counter: self.counter,
            setting: self.setting,
            enabled: self.enabled,
            listening: self.listening,
        }
    }
}

/// Whether `counter` clocked at `clk` accepts `d`, computed without overflow.
fn accepts_exec(d: Duration, clk: Hertz, counter: Counter) -> (r: bool)
    ensures
        r == accepts(d, clk, counter),
{
    if d.ticks == 0 {
        return false;
    }
    let per_second = d.resolution.ticks_per_second();
    assert((clk.0 as u64) * (d.ticks as u64) <= 0xffff_ffff * 0xffff_ffff) by (nonlinear_arith);
    let c = (clk.0 as u64) * (d.ticks as u64) / per_second;
    assert((clk.0 as u64) * (d.ticks as u64) == d.ticks as nat * clk.0 as nat) by (nonlinear_arith);
    if c > u32::MAX as u64 {
        return false;
    }
    countdown_setting(c as u32, counter).is_some()
}

impl<TIM> Timer<TIM> {
    /// The peripheral inside.
    pub closed spec fn held(&self) -> TIM {
        self.tim
    }

    /// Wraps a general-purpose timer clocked at `clk`.
    pub fn new(tim: TIM, clk: Hertz) -> (r: Self)
        requires
            clk.0 > 0,
        ensures
            r@.clock == clk,
            r@.counter == Counter::General,
            r.held() == tim,
    {
        Timer { tim, clk, counter: Counter::General }
    }

    /// Wraps the core's system tick timer, clocked at `clk`.
    pub fn syst(tim: TIM, clk: Hertz) -> (r: Self)
        requires
            clk.0 > 0,
        ensures
            r@.clock == clk,
            r@.counter == Counter::SysTick,
            r.held() == tim,
    {
        Timer { tim, clk, counter: Counter::SysTick }
    }

    /// The clock that drives the timer.
    pub fn clock(&self) -> (r: Hertz)
        ensures
            r == self@.clock,
    {
        self.clk
    }

    /// The peripheral, for its configuration registers.
    pub fn peripheral(&self) -> (r: &TIM)
        ensures
            *r == self.held(),
    {
        &self.tim
    }

    /// Gives the peripheral back.
    pub fn release(self) -> (r: TIM)
        ensures
            r == self.held(),
    {
        self.tim
    }

    /// Whether this timer can count down `d`.
    pub fn accepts(&self, d: Duration) -> (r: bool)
        ensures
            r == accepts(d, self@.clock, self@.counter),
    {
        accepts_exec(d, self.clk, self.counter)
    }

    /// Turns the timer into a countdown of `timeout`, started at once.
    pub fn start_count_down(self, timeout: Duration) -> (r: CountDownTimer<TIM>)
        requires
            self@.clock.0 > 0,
            accepts(timeout, self@.clock, self@.counter),
        ensures
            r@.clock == self@.clock,
            r@.counter == self@.counter,
            r@.setting == Some(
                setting_for(
                    cycles_in(timeout.ticks as nat, self@.clock.0 as nat, timeout.resolution),
                    self@.counter,
                ),
            ),
            r@.enabled,
            !r@.listening,
            r.held() == self.held(),
    {
        let mut timer = CountDownTimer {
            tim: self.tim,
            clk: self.clk,
            counter: self.counter,
            setting: None,
            enabled: false,
            listening: false,
        };
        timer.start(timeout);
        timer
    }

    /// Turns the timer into a countdown of `ns` nanoseconds.
    pub fn start_count_down_ns(self, ns: u32) -> (r: CountDownTimer<TIM>)
        requires
            self@.clock.0 > 0,
            accepts(Duration::nanos_spec(ns), self@.clock, self@.counter),
        ensures
            r@.clock == self@.clock,
            r@.counter == self@.counter,
            r@.setting == Some(
                setting_for(cycles_in(ns as nat, self@.clock.0 as nat, Resolution::Nanos), self@.counter),
            ),
            r@.enabled,
            !r@.listening,
    {
        self.start_count_down(Duration::nanos(ns))
    }

    /// Turns the timer into a countdown of `us` microseconds.
    pub fn start_count_down_us(self, us: u32) -> (r: CountDownTimer<TIM>)
        requires
            self@.clock.0 > 0,
            accepts(Duration::micros_spec(us), self@.clock, self@.counter),
        ensures
            r@.clock == self@.clock,
            r@.counter == self@.counter,
            r@.setting == Some(
                setting_for(cycles_in(us as nat, self@.clock.0 as nat, Resolution::Micros), self@.counter),
            ),
            r@.enabled,
            !r@.listening,
    {
        self.start_count_down(Duration::micros(us))
    }

    /// Turns the timer into a countdown of `ms` milliseconds.
    pub fn start_count_down_ms(self, ms: u32) -> (r: CountDownTimer<TIM>)
        requires
            self@.clock.0 > 0,
            accepts(Duration::millis_spec(ms), self@.clock, self@.counter),
        ensures
            r@.clock == self@.clock,
            r@.counter == self@.counter,
            r@.setting == Some(
                setting_for(cycles_in(ms as nat, self@.clock.0 as nat, Resolution::Millis), self@.counter),
            ),
            r@.enabled,
            !r@.listening,
    {
        self.start_count_down(Duration::millis(ms))
    }

    /// Turns the timer into a countdown of `us` microseconds, for callers of
    /// the microsecond-only countdown interface.
    pub fn start_count_down_compat(self, us: u32) -> (r: CountDownTimer<TIM>)
        requires
            self@.clock.0 > 0,
            accepts(Duration::micros_spec(us), self@.clock, self@.counter),
        ensures
            r@.clock == self@.clock,
            r@.counter == self@.counter,
            r@.setting == Some(
                setting_for(cycles_in(us as nat, self@.clock.0 as nat, Resolution::Micros), self@.counter),
            ),
            r@.enabled,
            !r@.listening,
    {
        self.start_count_down_us(us)
    }
}

impl<TIM> CountDownTimer<TIM> {
    /// The peripheral inside.
    pub closed spec fn held(&self) -> TIM {
        self.tim
    }

    /// The clock that drives the timer.
    pub fn clock(&self) -> (r: Hertz)
        ensures
            r == self@.clock,
    {
        self.clk
    }

    /// The counter hardware behind the timer.
    pub fn counter(&self) -> (r: Counter)
        ensures
            r == self@.counter,
    {
        self.counter
    }

    /// The setting last programmed.
    pub fn setting(&self) -> (r: Option<CountdownSetting>)
        ensures
            r == self@.setting,
    {
        self.setting
    }

    /// Whether the counter runs.
    pub fn is_enabled(&self) -> (r: bool)
        ensures
            r == self@.enabled,
    {
        self.enabled
    }

    /// Whether the end of a countdown raises an interrupt.
    pub fn is_listening(&self) -> (r: bool)
        ensures
            r == self@.listening,
    {
        self.listening
    }

    /// The peripheral, for the register accesses that carry out the model.
    pub fn peripheral(&mut self) -> (r: &mut TIM)
        ensures
            *r == old(self).held(),
            final(self).held() == *final(r),
            final(self)@ == old(self)@,
    {
        &mut self.tim
    }

    /// Whether this timer can count down `d`.
    pub fn accepts(&self, d: Duration) -> (r: bool)
        ensures
            r == accepts(d, self@.clock, self@.counter),
    {
        accepts_exec(d, self.clk, self.counter)
    }

    /// Programs a countdown of `timeout` and lets the counter run.
    pub fn start(&mut self, timeout: Duration)
        requires
            accepts(timeout, old(self)@.clock, old(self)@.counter),
        ensures
            final(self)@ == (CountdownView {
                setting: Some(
                    setting_for(
                        cycles_in(timeout.ticks as nat, old(self)@.clock.0 as nat, timeout.resolution),
                        old(self)@.counter,
                    ),
                ),
                enabled: true,
                ..old(self)@
            }),
            final(self).held() == old(self).held(),
    {
        let c = cycles(timeout, self.clk);
        let setting = countdown_setting(c, self.counter);
        self.setting = setting;
        self.enabled = true;
    }

    /// The value for the counter's reload register: the system tick counts
    /// from it down to zero, so it is one less than the reload.
    pub fn reload_register(&self) -> (r: u32)
        requires
            self@.setting is Some,
            self@.counter == Counter::SysTick ==> self@.setting->0.reload >= 1,
        ensures
            self@.counter == Counter::SysTick ==> r == self@.setting->0.reload - 1,
            self@.counter == Counter::General ==> r == self@.setting->0.reload,
    {
        let s = self.setting.unwrap();
        match self.counter {
            Counter::SysTick => s.reload - 1,
            Counter::General => s.reload,
        }
    }

    /// The longest countdown the counter offers, in ticks of `res`.
    pub fn max_period(&self, res: Resolution) -> (r: Duration)
        requires
            self@.clock.0 > 0,
        ensures
            r.resolution == res,
            r.ticks == max_period_of(self@.clock, self@.counter, res),
    {
        duration(self.clk, self.counter.reload_limit() - 1, res)
    }

    /// Stops the counter; fails where it does not run.
    pub fn cancel(&mut self) -> (r: Result<(), Error>)
        ensures
            old(self)@.enabled ==> r is Ok && final(self)@ == (CountdownView { enabled: false, ..old(self)@ }),
            !old(self)@.enabled ==> r == Err::<(), Error>(Error::Disabled) && final(self)@ == old(self)@,
            final(self).held() == old(self).held(),
    {
        if !self.enabled {
            return Err(Error::Disabled);
        }
        self.enabled = false;
        Ok(())
    }

    /// Starts raising an interrupt for `event`.
    pub fn listen(&mut self, event: Event)
        ensures
            final(self)@ == (CountdownView { listening: true, ..old(self)@ }),
            final(self).held() == old(self).held(),
    {
        match event {
            Event::TimeOut => self.listening = true,
        }
    }

    /// Stops raising an interrupt for `event`.
    pub fn unlisten(&mut self, event: Event)
        ensures
            final(self)@ == (CountdownView { listening: false, ..old(self)@ }),
            final(self).held() == old(self).held(),
    {
        match event {
            Event::TimeOut => self.listening = false,
        }
    }

    /// Gives the peripheral back; the caller stops the counter.
    pub fn release(self) -> (r: TIM)
        ensures
            r == self.held(),
    {
        self.tim
    }
}

} // verus!

verus! {

/// A free-running cycle counter that never stops or resets.
#[derive(Clone, Copy)]
pub struct MonoTimer {
    frequency: Hertz,
}

impl MonoTimer {
    /// A counter that counts at `frequency`; the caller has started it.
    pub fn new(frequency: Hertz) -> (r: MonoTimer)
        ensures
            r.spec_frequency() == frequency,
    {
        MonoTimer { frequency }
    }

    pub closed spec fn spec_frequency(self) -> Hertz {
        self.frequency
    }

    /// The frequency at which the counter counts.
    pub fn frequency(self) -> (r: Hertz)
        ensures
            r == self.spec_frequency(),
    {
        self.frequency
    }

    /// The instant at which the counter reads `cycle_count`.
    pub fn now(self, cycle_count: u32) -> (r: Instant)
        ensures
            r.now == cycle_count,
    {
        Instant { now: cycle_count }
    }
}

/// A reading of a [`MonoTimer`].
#[derive(Clone, Copy, Debug, PartialEq, Eq, Structural)]
pub struct Instant {
    pub now: u32,
}

impl Instant {
    /// The cycles elapsed from this instant to the one at which the counter
    /// reads `cycle_count`, across at most one wrap of the counter.
    pub fn elapsed(self, cycle_count: u32) -> (r: u32)
        ensures
            r == (cycle_count - self.now) % 0x1_0000_0000,
    {
        cycle_count.wrapping_sub(self.now)
    }
}

} // verus!
