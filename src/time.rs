//! Durations, frequencies and the conversion between them and clock cycles.
use vstd::prelude::*;

verus! {

/// A clock frequency in hertz.
#[derive(Clone, Copy, Debug, PartialEq, Eq, Structural)]
pub struct Hertz(pub u32);

/// The granularity of a [`Duration`].
#[derive(Clone, Copy, Debug, PartialEq, Eq, Structural)]
pub enum Resolution {
    Nanos,
    Micros,
    Millis,
}

impl Resolution {
    /// Ticks of this resolution in one second.
    pub open spec fn scale(self) -> nat {
        match self {
            Resolution::Nanos => 1_000_000_000,
            Resolution::Micros => 1_000_000,
            Resolution::Millis => 1_000,
        }
    }

    pub fn ticks_per_second(&self) -> (r: u64)
        ensures
            r == self.scale(),
    {
        match self {
            Resolution::Nanos => 1_000_000_000,
            Resolution::Micros => 1_000_000,
            Resolution::Millis => 1_000,
        }
    }
}

/// A span of time: a tick count at a given resolution.
#[derive(Clone, Copy, Debug, PartialEq, Eq, Structural)]
pub struct Duration {
    pub ticks: u32,
    pub resolution: Resolution,
}

impl Duration {
    pub open spec fn nanos_spec(ticks: u32) -> Duration {
        Duration { ticks, resolution: Resolution::Nanos }
    }

    pub open spec fn micros_spec(ticks: u32) -> Duration {
        Duration { ticks, resolution: Resolution::Micros }
    }

    pub open spec fn millis_spec(ticks: u32) -> Duration {
        Duration { ticks, resolution: Resolution::Millis }
    }

    #[verifier::when_used_as_spec(nanos_spec)]
    pub fn nanos(ticks: u32) -> (r: Duration)
        ensures
            r == Self::nanos_spec(ticks),
    {
        Duration { ticks, resolution: Resolution::Nanos }
    }

    #[verifier::when_used_as_spec(micros_spec)]
    pub fn micros(ticks: u32) -> (r: Duration)
        ensures
            r == Self::micros_spec(ticks),
    {
        Duration { ticks, resolution: Resolution::Micros }
    }

    #[verifier::when_used_as_spec(millis_spec)]
    pub fn millis(ticks: u32) -> (r: Duration)
        ensures
            r == Self::millis_spec(ticks),
    {
        Duration { ticks, resolution: Resolution::Millis }
    }
}

/// Whole ticks of resolution `to` in `ticks` ticks of resolution `from`.
pub open spec fn converted_ticks(ticks: nat, from: Resolution, to: Resolution) -> nat {
    ticks * to.scale() / from.scale()
}

impl Duration {
    /// The same span at resolution `to`, rounded down, or `None` where the
    /// tick count does not fit in 32 bits.
    pub fn convert(self, to: Resolution) -> (r: Option<Duration>)
        ensures
            converted_ticks(self.ticks as nat, self.resolution, to) <= u32::MAX ==> r == Some(
                Duration {
                    ticks: converted_ticks(self.ticks as nat, self.resolution, to) as u32,
                    resolution: to,
                },
            ),
            converted_ticks(self.ticks as nat, self.resolution, to) > u32::MAX ==> r is None,
    {
        let per_second = to.ticks_per_second();
        proof {
            lemma_product_fits(self.ticks, per_second);
        }
        let t = (self.ticks as u64) * per_second / self.resolution.ticks_per_second();
        if t <= u32::MAX as u64 {
            Some(Duration { ticks: t as u32, resolution: to })
        } else {
            None
        }
    }
}

/// Whole clock cycles that fit in `ticks` of resolution `res` at `clk` hertz.
pub open spec fn cycles_in(ticks: nat, clk: nat, res: Resolution) -> nat {
    ticks * clk / res.scale()
}

/// Whole ticks of resolution `res` spanned by `cycles` at `clk` hertz, or
/// `u32::MAX` where that count does not fit in 32 bits.
pub open spec fn ticks_in(cycles: nat, clk: nat, res: Resolution) -> nat
    recommends
        clk > 0,
{
    let t = cycles * res.scale() / clk;
    if t <= u32::MAX {
        t
    } else {
        u32::MAX as nat
    }
}

proof fn lemma_product_fits(a: u32, b: u64)
    requires
        b <= u32::MAX,
    ensures
        a * b <= u64::MAX,
{
    assert(a * b <= 0xffff_ffff * 0xffff_ffff) by (nonlinear_arith)
        requires
            a <= 0xffff_ffff,
            b <= 0xffff_ffff,
    ;
}

/// The number of clock cycles at `clk` that `d` spans, rounded down.
pub fn cycles(d: Duration, clk: Hertz) -> (r: u32)
    requires
        d.ticks > 0,
        cycles_in(d.ticks as nat, clk.0 as nat, d.resolution) <= u32::MAX,
    ensures
        r == cycles_in(d.ticks as nat, clk.0 as nat, d.resolution),
{
    proof {
        lemma_product_fits(clk.0, d.ticks as u64);
    }
    let c = (clk.0 as u64) * (d.ticks as u64) / d.resolution.ticks_per_second();
    assert((clk.0 as u64) * (d.ticks as u64) == d.ticks as nat * clk.0 as nat) by (nonlinear_arith);
    c as u32
}

/// The duration at resolution `res` of `cycles` clock cycles at `hz`,
/// rounded down and capped at the largest tick count a `Duration` holds.
pub fn duration(hz: Hertz, cycles: u32, res: Resolution) -> (r: Duration)
    requires
        hz.0 > 0,
    ensures
        r.resolution == res,
        r.ticks == ticks_in(cycles as nat, hz.0 as nat, res),
{
    let per_second = res.ticks_per_second();
    proof {
        lemma_product_fits(cycles, per_second);
    }
    let t = (cycles as u64) * per_second / (hz.0 as u64);
    let ticks: u32 = if t <= u32::MAX as u64 {
        t as u32
    } else {
        u32::MAX
    };
    Duration { ticks, resolution: res }
}

/// The duration in nanoseconds of `cycles` clock cycles at `hz`.
pub fn duration_ns(hz: Hertz, cycles: u32) -> (r: Duration)
    requires
        hz.0 > 0,
    ensures
        r.resolution == Resolution::Nanos,
        r.ticks == ticks_in(cycles as nat, hz.0 as nat, Resolution::Nanos),
{
    duration(hz, cycles, Resolution::Nanos)
}

/// The duration in microseconds of `cycles` clock cycles at `hz`.
pub fn duration_us(hz: Hertz, cycles: u32) -> (r: Duration)
    requires
        hz.0 > 0,
    ensures
        r.resolution == Resolution::Micros,
        r.ticks == ticks_in(cycles as nat, hz.0 as nat, Resolution::Micros),
{
    duration(hz, cycles, Resolution::Micros)
}

/// The duration in milliseconds of `cycles` clock cycles at `hz`.
pub fn duration_ms(hz: Hertz, cycles: u32) -> (r: Duration)
    requires
        hz.0 > 0,
    ensures
        r.resolution == Resolution::Millis,
        r.ticks == ticks_in(cycles as nat, hz.0 as nat, Resolution::Millis),
{
    duration(hz, cycles, Resolution::Millis)
}

/// The clock cycles at `clk` in `ns` nanoseconds.
pub fn cycles_ns(ns: u32, clk: Hertz) -> (r: u32)
    requires
        ns > 0,
        cycles_in(ns as nat, clk.0 as nat, Resolution::Nanos) <= u32::MAX,
    ensures
        r == cycles_in(ns as nat, clk.0 as nat, Resolution::Nanos),
{
    cycles(Duration::nanos(ns), clk)
}

/// The clock cycles at `clk` in `us` microseconds.
pub fn cycles_us(us: u32, clk: Hertz) -> (r: u32)
    requires
        us > 0,
        cycles_in(us as nat, clk.0 as nat, Resolution::Micros) <= u32::MAX,
    ensures
        r == cycles_in(us as nat, clk.0 as nat, Resolution::Micros),
{
    cycles(Duration::micros(us), clk)
}

/// The clock cycles at `clk` in `ms` milliseconds.
pub fn cycles_ms(ms: u32, clk: Hertz) -> (r: u32)
    requires
        ms > 0,
        cycles_in(ms as nat, clk.0 as nat, Resolution::Millis) <= u32::MAX,
    ensures
        r == cycles_in(ms as nat, clk.0 as nat, Resolution::Millis),
{
    cycles(Duration::millis(ms), clk)
}

} // verus!

verus! {

/// A baud rate in bits per second.
#[derive(Clone, Copy, Debug, PartialEq, Eq, Structural)]
pub struct Bps(pub u32);

/// A day of the week, 1 to 7.
#[derive(Clone, Copy, Debug, PartialEq, Eq, Structural)]
pub struct WeekDay(pub u32);

/// A day of the month, 1 to 31.
#[derive(Clone, Copy, Debug, PartialEq, Eq, Structural)]
pub struct MonthDay(pub u32);

/// A week of the year, 1 to 52.
#[derive(Clone, Copy, Debug, PartialEq, Eq, Structural)]
pub struct Week(pub u32);

/// A month, 1 to 12.
#[derive(Clone, Copy, Debug, PartialEq, Eq, Structural)]
pub struct Month(pub u32);

/// A year.
#[derive(Clone, Copy, Debug, PartialEq, Eq, Structural)]
pub struct Year(pub u32);

/// A time of day.
#[derive(Clone, Copy, Debug, PartialEq, Eq, Structural)]
pub struct Time {
    pub hours: u32,
    pub minutes: u32,
    pub seconds: u32,
    pub daylight_savings: bool,
}

impl Time {
    pub fn new(hours: u32, minutes: u32, seconds: u32, daylight_savings: bool) -> (r: Time)
        ensures
            r == (Time { hours, minutes, seconds, daylight_savings }),
    {
        Time { hours, minutes, seconds, daylight_savings }
    }
}

/// A calendar date.
#[derive(Clone, Copy, Debug, PartialEq, Eq, Structural)]
pub struct Date {
    pub day: u32,
    pub month: u32,
    pub year: u32,
}

impl Date {
    pub fn new(year: Year, month: Month, day: MonthDay) -> (r: Date)
        ensures
            r == (Date { day: day.0, month: month.0, year: year.0 }),
    {
        Date { day: day.0, month: month.0, year: year.0 }
    }
}

/// Wraps plain numbers in the types above.
pub trait U32Ext: Sized {
    /// A baud rate; it must be positive.
    fn bps(self) -> (r: Bps)
        requires
            self.positive(),
    ;

    /// A day of the month.
    fn day(self) -> MonthDay;

    /// A month.
    fn month(self) -> Month;

    /// A year.
    fn year(self) -> Year;

    spec fn positive(self) -> bool;
}

impl U32Ext for u32 {
    fn bps(self) -> (r: Bps)
        ensures
            r == Bps(self),
    {
        Bps(self)
    }

    fn day(self) -> (r: MonthDay)
        ensures
            r == MonthDay(self),
    {
        MonthDay(self)
    }

    fn month(self) -> (r: Month)
        ensures
            r == Month(self),
    {
        Month(self)
    }

    fn year(self) -> (r: Year)
        ensures
            r == Year(self),
    {
        Year(self)
    }

    open spec fn positive(self) -> bool {
        self > 0
    }
}

} // verus!
