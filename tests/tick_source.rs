use avr_time_driver::tick_source::{ClockSelect, TickConfig};

#[test]
fn prescale_64_with_compare_249_gives_one_millisecond() {
    let config = TickConfig::new(ClockSelect::Prescale64, 249).unwrap();
    assert_eq!(config.period_us(), 1000);
    assert_eq!(config.clock(), ClockSelect::Prescale64);
    assert_eq!(config.compare(), 249);
}

#[test]
fn period_table() {
    assert_eq!(TickConfig::new(ClockSelect::Prescale256, 124).unwrap().period_us(), 2000);
    assert_eq!(TickConfig::new(ClockSelect::Prescale256, 249).unwrap().period_us(), 4000);
    assert_eq!(TickConfig::new(ClockSelect::Prescale1024, 124).unwrap().period_us(), 8000);
    assert_eq!(TickConfig::new(ClockSelect::Prescale1024, 249).unwrap().period_us(), 16000);
    assert_eq!(TickConfig::new(ClockSelect::Prescale8, 199).unwrap().period_us(), 100);
    assert_eq!(TickConfig::new(ClockSelect::Prescale1024, 255).unwrap().period_us(), 16384);
}

#[test]
fn unsupported_clock_settings_are_refused() {
    assert!(TickConfig::new(ClockSelect::NoClock, 249).is_none());
    assert!(TickConfig::new(ClockSelect::Direct, 249).is_none());
    assert!(TickConfig::new(ClockSelect::ExtFalling, 249).is_none());
    assert!(TickConfig::new(ClockSelect::ExtRising, 249).is_none());
}
