use aemics_stm32g4xx_hal::time::{
    cycles, cycles_ms, cycles_ns, cycles_us, duration, duration_ms, duration_ns, duration_us, Date,
    Duration, Hertz, Month, MonthDay, Resolution, Time, U32Ext, Year,
};
use aemics_stm32g4xx_hal::timer::{
    countdown_setting, Counter, CountdownSetting, Error, Event, MonoTimer, Timer, TriggerSource,
};

const MHZ_170: Hertz = Hertz(170_000_000);

#[test]
fn cycles_at_each_resolution() {
    assert_eq!(cycles_ms(5000, MHZ_170), 850_000_000);
    assert_eq!(cycles_us(1, MHZ_170), 170);
    assert_eq!(cycles_ns(100, MHZ_170), 17);
    assert_eq!(cycles_ns(1, MHZ_170), 0);
    assert_eq!(cycles(Duration::micros(3), Hertz(1_000_000)), 3);
}

#[test]
fn durations_round_down_and_saturate() {
    assert_eq!(duration_ms(MHZ_170, 0xff_ffff), Duration::millis(98));
    assert_eq!(duration_us(MHZ_170, 0xff_ffff), Duration::micros(98_689));
    assert_eq!(duration_ns(MHZ_170, 0xff_ffff), Duration::nanos(98_689_500));
    assert_eq!(duration(Hertz(1), 1000, Resolution::Nanos), Duration::nanos(u32::MAX));
    assert_eq!(duration(Hertz(1), 1000, Resolution::Millis), Duration::millis(1_000_000));
}

#[test]
fn settings_for_each_counter() {
    assert_eq!(
        countdown_setting(850_000_000, Counter::General),
        Some(CountdownSetting { prescaler: 12_969, reload: 65_535 })
    );
    assert_eq!(countdown_setting(850_000_000, Counter::SysTick), None);
    assert_eq!(
        countdown_setting(0xff_ffff, Counter::SysTick),
        Some(CountdownSetting { prescaler: 0, reload: 0xff_ffff })
    );
    assert_eq!(countdown_setting(0x100_0000, Counter::SysTick), None);
    assert_eq!(
        countdown_setting(65_535, Counter::General),
        Some(CountdownSetting { prescaler: 0, reload: 65_535 })
    );
    assert_eq!(countdown_setting(65_536, Counter::General), None);
    assert_eq!(
        countdown_setting(65_537, Counter::General),
        Some(CountdownSetting { prescaler: 1, reload: 32_768 })
    );
    assert_eq!(countdown_setting(0, Counter::General), None);
    assert_eq!(
        countdown_setting(u32::MAX, Counter::General),
        Some(CountdownSetting { prescaler: 65_535, reload: 65_535 })
    );
}

#[test]
fn short_countdowns_need_no_prescaler() {
    for (clk, counter) in [
        (MHZ_170, Counter::General),
        (MHZ_170, Counter::SysTick),
        (Hertz(16_000_000), Counter::General),
        (Hertz(1_000_000), Counter::SysTick),
    ] {
        for res in [Resolution::Nanos, Resolution::Micros, Resolution::Millis] {
            let t = Timer::new((), clk);
            let t = if counter == Counter::SysTick { Timer::syst(t.release(), clk) } else { t };
            let max = t.start_count_down(Duration { ticks: 1, resolution: Resolution::Millis });
            let max = max.max_period(res);
            for ticks in [1, 2, 7, max.ticks / 2, max.ticks] {
                let d = Duration { ticks, resolution: res };
                if ticks == 0 || ticks > max.ticks || cycles(d, clk) == 0 {
                    continue;
                }
                let c = cycles(d, clk);
                let s = countdown_setting(c, counter).expect("a short countdown fits");
                assert_eq!(s.prescaler, 0);
                assert_eq!(s.reload, c);
                let scale = res_scale(res);
                let counted = (s.prescaler as u64 + 1) * s.reload as u64;
                let wanted = ticks as u64 * clk.0 as u64;
                assert!(counted * scale <= wanted && wanted < (counted + 1) * scale);
            }
        }
    }
}

fn res_scale(res: Resolution) -> u64 {
    match res {
        Resolution::Nanos => 1_000_000_000,
        Resolution::Micros => 1_000_000,
        Resolution::Millis => 1_000,
    }
}

#[test]
fn start_count_down_programs_the_general_timer() {
    let timer = Timer::new((), MHZ_170);
    assert!(timer.accepts(Duration::millis(5000)));
    let cd = timer.start_count_down_ms(5000);
    assert_eq!(cd.setting(), Some(CountdownSetting { prescaler: 12_969, reload: 65_535 }));
    assert!(cd.is_enabled());
    assert!(!cd.is_listening());
    assert_eq!(cd.reload_register(), 65_535);
    assert_eq!(cd.counter(), Counter::General);
    assert_eq!(cd.clock(), MHZ_170);
}

#[test]
fn system_tick_reload_register_is_one_less() {
    let timer = Timer::syst((), MHZ_170);
    assert!(!timer.accepts(Duration::millis(5000)));
    assert!(!timer.accepts(Duration::nanos(1)));
    assert!(!timer.accepts(Duration::millis(0)));
    let cd = timer.start_count_down_us(1000);
    assert_eq!(cd.setting(), Some(CountdownSetting { prescaler: 0, reload: 170_000 }));
    assert_eq!(cd.reload_register(), 169_999);
}

#[test]
fn each_resolution_starts_the_same_countdown() {
    let a = Timer::new((), MHZ_170).start_count_down_ns(2_000_000).setting();
    let b = Timer::new((), MHZ_170).start_count_down_us(2_000).setting();
    let c = Timer::new((), MHZ_170).start_count_down_ms(2).setting();
    let d = Timer::new((), MHZ_170).start_count_down_compat(2_000).setting();
    assert_eq!(a, Some(CountdownSetting { prescaler: 5, reload: 56_666 }));
    assert_eq!(a, b);
    assert_eq!(b, c);
    assert_eq!(c, d);
}

#[test]
fn max_period_of_each_counter() {
    let general = Timer::new((), MHZ_170).start_count_down_us(1);
    assert_eq!(general.max_period(Resolution::Micros), Duration::micros(385));
    assert_eq!(general.max_period(Resolution::Millis), Duration::millis(0));
    assert_eq!(general.max_period(Resolution::Nanos), Duration::nanos(385_500));
    let tick = Timer::syst((), MHZ_170).start_count_down_us(1);
    assert_eq!(tick.max_period(Resolution::Millis), Duration::millis(98));
}

#[test]
fn cancel_twice_reports_disabled() {
    let mut cd = Timer::new((), MHZ_170).start_count_down_ms(1);
    assert_eq!(cd.cancel(), Ok(()));
    assert!(!cd.is_enabled());
    assert_eq!(cd.cancel(), Err(Error::Disabled));
    cd.start(Duration::micros(10));
    assert!(cd.is_enabled());
    assert_eq!(cd.cancel(), Ok(()));
}

#[test]
fn listen_and_unlisten() {
    let mut cd = Timer::new((), MHZ_170).start_count_down_ms(1);
    cd.listen(Event::TimeOut);
    assert!(cd.is_listening());
    cd.unlisten(Event::TimeOut);
    assert!(!cd.is_listening());
    let _tim: () = cd.release();
}

#[test]
fn trigger_source_codes() {
    assert_eq!(TriggerSource::Reset.bits(), 0);
    assert_eq!(TriggerSource::Enable.bits(), 1);
    assert_eq!(TriggerSource::Update.bits(), 2);
    assert_eq!(TriggerSource::ComparePulse.bits(), 3);
    assert_eq!(TriggerSource::Compare1.bits(), 4);
    assert_eq!(TriggerSource::Compare4.bits(), 7);
}

#[test]
fn monotonic_counter_wraps() {
    let mono = MonoTimer::new(MHZ_170);
    assert_eq!(mono.frequency(), MHZ_170);
    let start = mono.now(u32::MAX - 5);
    assert_eq!(start.elapsed(10), 16);
    assert_eq!(mono.now(100).elapsed(350), 250);
}

#[test]
fn calendar_values() {
    assert_eq!(Date::new(Year(2024), Month(2), MonthDay(29)), Date { day: 29, month: 2, year: 2024 });
    assert_eq!(Date::new(2024.year(), 2.month(), 29.day()), Date { day: 29, month: 2, year: 2024 });
    let t = Time::new(13, 45, 30, true);
    assert_eq!((t.hours, t.minutes, t.seconds, t.daylight_savings), (13, 45, 30, true));
    assert_eq!(9600.bps().0, 9600);
}

#[test]
fn durations_convert_between_resolutions() {
    assert_eq!(Duration::millis(5).convert(Resolution::Micros), Some(Duration::micros(5000)));
    assert_eq!(Duration::micros(1999).convert(Resolution::Millis), Some(Duration::millis(1)));
    assert_eq!(Duration::nanos(999).convert(Resolution::Micros), Some(Duration::micros(0)));
    assert_eq!(Duration::millis(4294).convert(Resolution::Micros), Some(Duration::micros(4_294_000)));
    assert_eq!(Duration::millis(5000).convert(Resolution::Nanos), None);
    assert_eq!(Duration::millis(4).convert(Resolution::Nanos), Some(Duration::nanos(4_000_000)));
    assert_eq!(Duration::micros(7).convert(Resolution::Micros), Some(Duration::micros(7)));
}
