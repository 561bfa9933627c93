//! Digital levels and the three-line sense reading of a test channel.

use vstd::prelude::*;

verus! {

/// The level of one digital line.
#[derive(Clone, Copy, Debug, PartialEq, Eq, Structural)]
pub enum Level {
    Low,
    High,
}

impl Level {
    /// Whether the line is high.
    pub open spec fn high(self) -> bool {
        self == Level::High
    }

    /// The level that a boolean stands for: high for `true`.
    pub open spec fn of(high: bool) -> Level {
        if high {
            Level::High
        } else {
            Level::Low
        }
    }

    pub fn is_high(self) -> (r: bool)
        ensures
            r == self.high(),
    {
        match self {
            Level::High => true,
            Level::Low => false,
        }
    }

    pub fn from_bool(high: bool) -> (r: Level)
        ensures
            r == Level::of(high),
    {
        if high {
            Level::High
        } else {
            Level::Low
        }
    }
}

/// One of the three sense lines of a test channel.
#[derive(Clone, Copy, Debug, PartialEq, Eq, Structural)]
pub enum SensePin {
    Pin0,
    Pin1,
    Pin2,
}

/// The levels of the three sense lines of a channel, sampled together.
#[derive(Clone, Copy, Debug, PartialEq, Eq, Structural)]
pub struct SenseState {
    pub pin0: Level,
    pub pin1: Level,
    pub pin2: Level,
}

impl SenseState {
    pub open spec fn all_low() -> SenseState {
        SenseState { pin0: Level::Low, pin1: Level::Low, pin2: Level::Low }
    }

    /// The reading in which exactly the given line is high.
    pub open spec fn only(pin: SensePin) -> SenseState {
        match pin {
            SensePin::Pin0 => SenseState { pin0: Level::High, pin1: Level::Low, pin2: Level::Low },
            SensePin::Pin1 => SenseState { pin0: Level::Low, pin1: Level::High, pin2: Level::Low },
            SensePin::Pin2 => SenseState { pin0: Level::Low, pin1: Level::Low, pin2: Level::High },
        }
    }

    pub open spec fn line(self, pin: SensePin) -> Level {
        match pin {
            SensePin::Pin0 => self.pin0,
            SensePin::Pin1 => self.pin1,
            SensePin::Pin2 => self.pin2,
        }
    }

    pub fn new(pin0: Level, pin1: Level, pin2: Level) -> (r: SenseState)
        ensures
            r == (SenseState { pin0, pin1, pin2 }),
    {
        SenseState { pin0, pin1, pin2 }
    }

    pub fn level(&self, pin: SensePin) -> (r: Level)
        ensures
            r == self.line(pin),
    {
        match pin {
            SensePin::Pin0 => self.pin0,
            SensePin::Pin1 => self.pin1,
            SensePin::Pin2 => self.pin2,
        }
    }
}

} // verus!
