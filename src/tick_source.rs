//! The tick source's configuration: which clock feeds timer/counter 0 and
//! the compare value at which it clears and interrupts. Together they fix
//! the length of one tick.
use vstd::prelude::*;

verus! {

/// The CPU clock that the prescaler divides, in Hz.
pub const CPU_HZ: u64 = 16_000_000;

/// The clock-select settings of timer/counter 0.
#[derive(Clone, Copy, Debug, PartialEq, Eq, Structural)]
pub enum ClockSelect {
    NoClock,
    Direct,
    Prescale8,
    Prescale64,
    Prescale256,
    Prescale1024,
    ExtFalling,
    ExtRising,
}

/// The divisor of a prescaled setting; `None` for the settings that the
/// tick source does not support (a stopped, undivided or external clock).
pub open spec fn divisor_of(clock: ClockSelect) -> Option<u64> {
    match clock {
        ClockSelect::Prescale8 => Some(8),
        ClockSelect::Prescale64 => Some(64),
        ClockSelect::Prescale256 => Some(256),
        ClockSelect::Prescale1024 => Some(1024),
        _ => None,
    }
}

/// The length of one tick in microseconds: the timer counts `compare + 1`
/// prescaled clock cycles per interrupt.
pub open spec fn period_us_of(divisor: u64, compare: u8) -> int {
    (divisor * (compare + 1) * 1_000_000) as int / CPU_HZ as int
}

/// A supported tick source configuration.
pub struct TickConfig {
    clock: ClockSelect,
    divisor: u64,
    compare: u8,
}

impl TickConfig {
    pub closed spec fn spec_clock(&self) -> ClockSelect {
        self.clock
    }

    pub closed spec fn spec_compare(&self) -> u8 {
        self.compare
    }

    pub closed spec fn wf(&self) -> bool {
        divisor_of(self.clock) == Some(self.divisor)
    }

    /// The configuration for `clock` and `compare`, or `None` where `clock`
    /// is not a prescaled setting.
    pub fn new(clock: ClockSelect, compare: u8) -> (r: Option<TickConfig>)
        ensures
            r.is_some() <==> divisor_of(clock).is_some(),
            r matches Some(c) ==> c.wf() && c.spec_clock() == clock && c.spec_compare() == compare,
    {
        let divisor: u64 = match clock {
            ClockSelect::Prescale8 => 8,
            ClockSelect::Prescale64 => 64,
            ClockSelect::Prescale256 => 256,
            ClockSelect::Prescale1024 => 1024,
            _ => return None,
        };
        Some(TickConfig { clock, divisor, compare })
    }

    pub fn clock(&self) -> (r: ClockSelect)
        ensures
            r == self.spec_clock(),
    {
        self.clock
    }

    pub fn compare(&self) -> (r: u8)
        ensures
            r == self.spec_compare(),
    {
        self.compare
    }

    /// The length of one tick in microseconds (rounded down).
    pub fn period_us(&self) -> (r: u64)
        requires
            self.wf(),
        ensures
            r as int == period_us_of(divisor_of(self.spec_clock()).unwrap(), self.spec_compare()),
    {
        assert(self.divisor * (self.compare + 1) * 1_000_000 <= 1024 * 256 * 1_000_000) by (nonlinear_arith)
            requires
                self.divisor <= 1024,
                self.compare + 1 <= 256,
        ;
        self.divisor * (self.compare as u64 + 1) * 1_000_000 / CPU_HZ
    }
}

} // verus!
