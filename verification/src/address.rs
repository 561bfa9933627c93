//! Board positions, test channels, targets and probes.

use vstd::prelude::*;
use crate::error::ErrorKind;

verus! {

/// The bus address of the expander at board position 0.
pub const BASE_ADDR: u8 = 32;

/// How many board positions share one bus.
pub const POSITION_COUNT: u8 = 8;

/// How many test channels, targets and probes a position has.
pub const LINE_COUNT: u8 = 4;

/// One of the four probe-side signal paths of a position.
#[derive(Clone, Copy, Debug, PartialEq, Eq, Structural)]
pub enum TestChannel {
    Channel0,
    Channel1,
    Channel2,
    Channel3,
}

/// One of the four destination slots of a position.
#[derive(Clone, Copy, Debug, PartialEq, Eq, Structural)]
pub enum Target {
    Target0,
    Target1,
    Target2,
    Target3,
}

/// One of the four physical test probes. Probes name the same lines as the
/// test channels, counted from the other end of the connector.
#[derive(Clone, Copy, Debug, PartialEq, Eq, Structural)]
pub enum Probe {
    Probe0,
    Probe1,
    Probe2,
    Probe3,
}

impl TestChannel {
    pub open spec fn number(self) -> u8 {
        match self {
            TestChannel::Channel0 => 0,
            TestChannel::Channel1 => 1,
            TestChannel::Channel2 => 2,
            TestChannel::Channel3 => 3,
        }
    }

    pub fn index(self) -> (r: u8)
        ensures
            r == self.number(),
            r < LINE_COUNT,
    {
        match self {
            TestChannel::Channel0 => 0,
            TestChannel::Channel1 => 1,
            TestChannel::Channel2 => 2,
            TestChannel::Channel3 => 3,
        }
    }

    /// The channel with the given number, or `OutOfRange` from 4 on.
    pub fn try_from_index(value: u8) -> (r: Result<TestChannel, ErrorKind>)
        ensures
            value < LINE_COUNT ==> r.is_ok() && r.unwrap().number() == value,
            value >= LINE_COUNT ==> r == Err::<TestChannel, ErrorKind>(ErrorKind::OutOfRange),
    {
        match value {
            0 => Ok(TestChannel::Channel0),
            1 => Ok(TestChannel::Channel1),
            2 => Ok(TestChannel::Channel2),
            3 => Ok(TestChannel::Channel3),
            _ => Err(ErrorKind::OutOfRange),
        }
    }
}

impl Target {
    pub open spec fn number(self) -> u8 {
        match self {
            Target::Target0 => 0,
            Target::Target1 => 1,
            Target::Target2 => 2,
            Target::Target3 => 3,
        }
    }

    pub fn index(self) -> (r: u8)
        ensures
            r == self.number(),
            r < LINE_COUNT,
    {
        match self {
            Target::Target0 => 0,
            Target::Target1 => 1,
            Target::Target2 => 2,
            Target::Target3 => 3,
        }
    }

    /// The target with the given number, or `OutOfRange` from 4 on.
    pub fn try_from_index(value: u8) -> (r: Result<Target, ErrorKind>)
        ensures
            value < LINE_COUNT ==> r.is_ok() && r.unwrap().number() == value,
            value >= LINE_COUNT ==> r == Err::<Target, ErrorKind>(ErrorKind::OutOfRange),
    {
        match value {
            0 => Ok(Target::Target0),
            1 => Ok(Target::Target1),
            2 => Ok(Target::Target2),
            3 => Ok(Target::Target3),
            _ => Err(ErrorKind::OutOfRange),
        }
    }
}

impl Probe {
    pub open spec fn number(self) -> u8 {
        match self {
            Probe::Probe0 => 0,
            Probe::Probe1 => 1,
            Probe::Probe2 => 2,
            Probe::Probe3 => 3,
        }
    }

    pub fn index(self) -> (r: u8)
        ensures
            r == self.number(),
            r < LINE_COUNT,
    {
        match self {
            Probe::Probe0 => 0,
            Probe::Probe1 => 1,
            Probe::Probe2 => 2,
            Probe::Probe3 => 3,
        }
    }

    /// The probe with the given number, or `OutOfRange` from 4 on.
    pub fn try_from_index(value: u8) -> (r: Result<Probe, ErrorKind>)
        ensures
            value < LINE_COUNT ==> r.is_ok() && r.unwrap().number() == value,
            value >= LINE_COUNT ==> r == Err::<Probe, ErrorKind>(ErrorKind::OutOfRange),
    {
        match value {
            0 => Ok(Probe::Probe0),
            1 => Ok(Probe::Probe1),
            2 => Ok(Probe::Probe2),
            3 => Ok(Probe::Probe3),
            _ => Err(ErrorKind::OutOfRange),
        }
    }
}

/// The target with number `n`.
pub open spec fn target_numbered(n: int) -> Target {
    if n == 0 {
        Target::Target0
    } else if n == 1 {
        Target::Target1
    } else if n == 2 {
        Target::Target2
    } else {
        Target::Target3
    }
}

/// The test channel with number `n`.
pub open spec fn channel_numbered(n: int) -> TestChannel {
    if n == 0 {
        TestChannel::Channel0
    } else if n == 1 {
        TestChannel::Channel1
    } else if n == 2 {
        TestChannel::Channel2
    } else {
        TestChannel::Channel3
    }
}

/// The place of one switch board on the shared bus: 0 to 7.
#[derive(Clone, Copy, Debug, PartialEq, Eq, Structural)]
pub struct BoardPosition {
    slot: u8,
}

impl BoardPosition {
    pub closed spec fn number(self) -> u8 {
        self.slot
    }

    /// Every position that can be built lies below `POSITION_COUNT`.
    pub closed spec fn wf(self) -> bool {
        self.slot < POSITION_COUNT
    }

    /// The bus address of the expander at this position.
    pub open spec fn bus_address(self) -> int {
        BASE_ADDR + self.number()
    }

    /// The position with the given number, or `OutOfRange` from 8 on.
    pub fn new(value: u8) -> (r: Result<BoardPosition, ErrorKind>)
        ensures
            value < POSITION_COUNT ==> r.is_ok() && r.unwrap().number() == value && r.unwrap().wf(),
            value >= POSITION_COUNT ==> r == Err::<BoardPosition, ErrorKind>(ErrorKind::OutOfRange),
    {
        if value < POSITION_COUNT {
            Ok(BoardPosition { slot: value })
        } else {
            Err(ErrorKind::OutOfRange)
        }
    }

    pub fn index(self) -> (r: u8)
        ensures
            r == self.number(),
    {
        self.slot
    }

    pub fn address(self) -> (r: u8)
        requires
            self.wf(),
        ensures
            r == self.bus_address(),
            32 <= r < 40,
    {
        BASE_ADDR + self.slot
    }
}

} // verus!
