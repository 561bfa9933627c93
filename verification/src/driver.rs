//! One test channel as the host sees it: three sense lines, one output line
//! and a serial command bus, with the responder at the far end of the path.

use vstd::prelude::*;
use crate::address::TestChannel;
use crate::error::ErrorKind;
use crate::signal::{Level, SensePin, SenseState};

verus! {

/// Drives sense line 0 high and the others low.
pub const CMD_SELECT_PIN0: u8 = 0;

/// Drives sense line 1 high and the others low.
pub const CMD_SELECT_PIN1: u8 = 1;

/// Drives sense line 2 high and the others low.
pub const CMD_SELECT_PIN2: u8 = 2;

/// Asks whether the responder sees the host's output line high.
pub const CMD_PROBE_OUTPUT: u8 = 3;

/// The answer to `CMD_PROBE_OUTPUT` while the host's output line is high.
pub const REPLY_OUTPUT_SEEN: u8 = 4;

/// Is written back unchanged.
pub const CMD_ECHO: u8 = 5;

/// Drives all three sense lines low.
pub const CMD_RESET: u8 = 10;

/// How long the host waits after a command that changes the sense lines
/// before it samples them, in milliseconds.
pub const SETTLE_MS: u64 = 50;

/// How long a read waits for the responder, in milliseconds.
pub const READ_TIMEOUT_MS: u64 = 500;

/// The speed of the command bus; it carries 8 data bits, no parity, 1 stop bit.
pub const BAUD_RATE: u32 = 115200;

/// The sense lines after the responder has taken `command`.
pub open spec fn indicators_after(before: SenseState, command: u8) -> SenseState {
    if command == CMD_SELECT_PIN0 {
        SenseState::only(SensePin::Pin0)
    } else if command == CMD_SELECT_PIN1 {
        SenseState::only(SensePin::Pin1)
    } else if command == CMD_SELECT_PIN2 {
        SenseState::only(SensePin::Pin2)
    } else if command == CMD_RESET {
        SenseState::all_low()
    } else {
        before
    }
}

/// The byte that the responder writes back on `command`, if any.
pub open spec fn reply_to(command: u8, host_output: Level) -> Option<u8> {
    if command == CMD_ECHO {
        Some(CMD_ECHO)
    } else if command == CMD_PROBE_OUTPUT && host_output.high() {
        Some(REPLY_OUTPUT_SEEN)
    } else {
        None
    }
}

/// The unread bytes after the responder has taken `command`.
pub open spec fn outbox_after(before: Seq<u8>, command: u8, host_output: Level) -> Seq<u8> {
    match reply_to(command, host_output) {
        Some(b) => before.push(b),
        None => before,
    }
}

/// Whether the sense lines may change on `command`.
pub open spec fn changes_indicators(command: u8) -> bool {
    command == CMD_SELECT_PIN0 || command == CMD_SELECT_PIN1 || command == CMD_SELECT_PIN2
        || command == CMD_RESET
}

/// The sense lines and the unread bytes after the responder has taken
/// `commands`, first to last.
pub open spec fn heard_all(
    indicators: SenseState,
    outbox: Seq<u8>,
    host_output: Level,
    commands: Seq<u8>,
) -> (SenseState, Seq<u8>)
    decreases commands.len(),
{
    if commands.len() == 0 {
        (indicators, outbox)
    } else {
        let before = heard_all(indicators, outbox, host_output, commands.drop_last());
        (
            indicators_after(before.0, commands.last()),
            outbox_after(before.1, commands.last(), host_output),
        )
    }
}

/// How long to wait after `command` before the sense lines are sampled.
pub fn settle_after(command: u8) -> (ms: u64)
    ensures
        ms == if changes_indicators(command) {
            SETTLE_MS
        } else {
            0
        },
{
    if command == CMD_SELECT_PIN0 || command == CMD_SELECT_PIN1 || command == CMD_SELECT_PIN2
        || command == CMD_RESET {
        SETTLE_MS
    } else {
        0
    }
}

/// The responder on a target: what its three indicators show, and the bytes
/// that it has written back and the host has not read yet.
pub struct Responder {
    pub indicators: SenseState,
    pub outbox: Vec<u8>,
}

impl Responder {
    /// A responder after reset: all indicators low, nothing written.
    pub fn new() -> (r: Responder)
        ensures
            r.indicators == SenseState::all_low(),
            r.outbox@ == Seq::<u8>::empty(),
    {
        Responder {
            indicators: SenseState { pin0: Level::Low, pin1: Level::Low, pin2: Level::Low },
            outbox: Vec::new(),
        }
    }

    /// Takes one command byte while the host's output line is at `host_output`.
    pub fn receive(&mut self, command: u8, host_output: Level)
        ensures
            final(self).indicators == indicators_after(old(self).indicators, command),
            final(self).outbox@ == outbox_after(old(self).outbox@, command, host_output),
    {
        if command == CMD_SELECT_PIN0 {
            self.indicators = SenseState { pin0: Level::High, pin1: Level::Low, pin2: Level::Low };
        } else if command == CMD_SELECT_PIN1 {
            self.indicators = SenseState { pin0: Level::Low, pin1: Level::High, pin2: Level::Low };
        } else if command == CMD_SELECT_PIN2 {
            self.indicators = SenseState { pin0: Level::Low, pin1: Level::Low, pin2: Level::High };
        } else if command == CMD_RESET {
            self.indicators = SenseState { pin0: Level::Low, pin1: Level::Low, pin2: Level::Low };
        } else if command == CMD_ECHO {
            self.outbox.push(CMD_ECHO);
        } else if command == CMD_PROBE_OUTPUT && host_output.is_high() {
            self.outbox.push(REPLY_OUTPUT_SEEN);
        }
    }
}

/// The driver of one test channel. While the channel is not linked to a
/// target, its sense lines read low, what it writes is lost, and a read
/// times out.
pub struct ChannelVerificationDriver {
    pub channel: TestChannel,
    /// The level of the host's output line.
    pub output: Level,
    /// Whether the crossbar connects the channel to the responder.
    pub linked: bool,
    pub responder: Responder,
}

impl ChannelVerificationDriver {
    /// What the three sense lines read.
    pub open spec fn sensed(&self) -> SenseState {
        if self.linked {
            self.responder.indicators
        } else {
            SenseState::all_low()
        }
    }

    /// The driver of `channel`: output low, not linked, responder after reset.
    pub fn new(channel: TestChannel) -> (r: ChannelVerificationDriver)
        ensures
            r.channel == channel,
            r.output == Level::Low,
            !r.linked,
            r.responder.indicators == SenseState::all_low(),
            r.responder.outbox@ == Seq::<u8>::empty(),
    {
        ChannelVerificationDriver {
            channel,
            output: Level::Low,
            linked: false,
            responder: Responder::new(),
        }
    }

    /// Records whether the crossbar connects the channel to the responder.
    pub fn set_linked(&mut self, linked: bool)
        ensures
            final(self).linked == linked,
            final(self).channel == old(self).channel,
            final(self).output == old(self).output,
            final(self).responder == old(self).responder,
    {
        self.linked = linked;
    }

    /// Samples the three sense lines.
    pub fn sample(&self) -> (r: SenseState)
        ensures
            r == self.sensed(),
    {
        if self.linked {
            self.responder.indicators
        } else {
            SenseState { pin0: Level::Low, pin1: Level::Low, pin2: Level::Low }
        }
    }

    /// Whether one sense line reads high.
    pub fn test_input_is_high(&self, pin: SensePin) -> (r: Result<bool, ErrorKind>)
        ensures
            r == Ok::<bool, ErrorKind>(self.sensed().line(pin).high()),
    {
        Ok(self.sample().level(pin).is_high())
    }

    /// Drives the host's output line high.
    pub fn test_output_set_high(&mut self) -> (r: Result<(), ErrorKind>)
        ensures
            r.is_ok(),
            final(self).output == Level::High,
            final(self).channel == old(self).channel,
            final(self).linked == old(self).linked,
            final(self).responder == old(self).responder,
    {
        self.output = Level::High;
        Ok(())
    }

    /// Drives the host's output line low.
    pub fn test_output_set_low(&mut self) -> (r: Result<(), ErrorKind>)
        ensures
            r.is_ok(),
            final(self).output == Level::Low,
            final(self).channel == old(self).channel,
            final(self).linked == old(self).linked,
            final(self).responder == old(self).responder,
    {
        self.output = Level::Low;
        Ok(())
    }

    /// Sends one command byte. It reaches the responder only over a linked channel.
    pub fn send(&mut self, command: u8) -> (r: Result<(), ErrorKind>)
        ensures
            r.is_ok(),
            final(self).channel == old(self).channel,
            final(self).output == old(self).output,
            final(self).linked == old(self).linked,
            old(self).linked ==> final(self).responder.indicators == indicators_after(
                old(self).responder.indicators,
                command,
            ) && final(self).responder.outbox@ == outbox_after(
                old(self).responder.outbox@,
                command,
                old(self).output,
            ),
            !old(self).linked ==> final(self).responder.indicators == old(self).responder.indicators
                && final(self).responder.outbox@ == old(self).responder.outbox@,
    {
        if self.linked {
            self.responder.receive(command, self.output);
        }
        Ok(())
    }

    /// Sends the bytes in order.
    pub fn test_bus_write(&mut self, bytes: &Vec<u8>) -> (r: Result<(), ErrorKind>)
        ensures
            r.is_ok(),
            final(self).channel == old(self).channel,
            final(self).output == old(self).output,
            final(self).linked == old(self).linked,
            old(self).linked ==> (final(self).responder.indicators, final(self).responder.outbox@)
                == heard_all(
                old(self).responder.indicators,
                old(self).responder.outbox@,
                old(self).output,
                bytes@,
            ),
            !old(self).linked ==> final(self).responder.indicators == old(self).responder.indicators
                && final(self).responder.outbox@ == old(self).responder.outbox@,
    {
        let ghost start = (self.responder.indicators, self.responder.outbox@);
        let mut i: usize = 0;
        while i < bytes.len()
            invariant
                i <= bytes.len(),
                self.channel == old(self).channel,
                self.output == old(self).output,
                self.linked == old(self).linked,
                start == (old(self).responder.indicators, old(self).responder.outbox@),
                self.linked ==> (self.responder.indicators, self.responder.outbox@) == heard_all(
                    start.0,
                    start.1,
                    self.output,
                    bytes@.take(i as int),
                ),
                !self.linked ==> (self.responder.indicators, self.responder.outbox@) == start,
            decreases bytes.len() - i,
        {
            assert(bytes@.take(i + 1).drop_last() =~= bytes@.take(i as int));
            let sent = self.send(bytes[i]);
            if sent.is_err() {
                return sent;
            }
            i = i + 1;
        }
        assert(bytes@.take(i as int) =~= bytes@);
        Ok(())
    }

    /// Reads what the responder has written back, oldest byte first. Where
    /// nothing arrives within the bound, the read fails with `SerialTimeout`.
    pub fn test_bus_read(&mut self) -> (r: Result<Vec<u8>, ErrorKind>)
        ensures
            final(self).channel == old(self).channel,
            final(self).output == old(self).output,
            final(self).linked == old(self).linked,
            final(self).responder.indicators == old(self).responder.indicators,
            old(self).linked && old(self).responder.outbox@.len() > 0 ==> (r matches Ok(bytes)
                && bytes@ == old(self).responder.outbox@) && final(self).responder.outbox@
                == Seq::<u8>::empty(),
            !(old(self).linked && old(self).responder.outbox@.len() > 0) ==> r == Err::<
                Vec<u8>,
                ErrorKind,
            >(ErrorKind::SerialTimeout) && final(self).responder.outbox@ == old(self).responder.outbox@,
    {
        if self.linked && self.responder.outbox.len() > 0 {
            let mut bytes: Vec<u8> = Vec::new();
            std::mem::swap(&mut self.responder.outbox, &mut bytes);
            Ok(bytes)
        } else {
            Err(ErrorKind::SerialTimeout)
        }
    }

    /// Drops what the responder has written back and nobody has read.
    pub fn discard_pending(&mut self)
        ensures
            final(self).channel == old(self).channel,
            final(self).output == old(self).output,
            final(self).linked == old(self).linked,
            final(self).responder.indicators == old(self).responder.indicators,
            final(self).responder.outbox@ == Seq::<u8>::empty(),
    {
        self.responder.outbox = Vec::new();
    }
}

/// A reset is idempotent: after one reset all sense lines are low, and a
/// second reset leaves them so.
pub proof fn law_reset_is_idempotent(before: SenseState)
    ensures
        indicators_after(before, CMD_RESET) == SenseState::all_low(),
        indicators_after(indicators_after(before, CMD_RESET), CMD_RESET) == indicators_after(
            before,
            CMD_RESET,
        ),
        heard_all(before, Seq::<u8>::empty(), Level::Low, seq![CMD_RESET, CMD_RESET]).0
            == heard_all(before, Seq::<u8>::empty(), Level::Low, seq![CMD_RESET]).0,
{
    let once = seq![CMD_RESET];
    let twice = seq![CMD_RESET, CMD_RESET];
    assert(twice.drop_last() =~= once);
    assert(once.drop_last() =~= Seq::<u8>::empty());
    reveal_with_fuel(heard_all, 3);
}

/// An echo comes back: on a linked channel with nothing unread, the echo
/// command leaves exactly its own byte to be read, whatever the host's
/// output line is at.
pub proof fn law_echo_round_trip(host_output: Level)
    ensures
        outbox_after(Seq::<u8>::empty(), CMD_ECHO, host_output) == seq![CMD_ECHO],
{
    assert(Seq::<u8>::empty().push(CMD_ECHO) =~= seq![CMD_ECHO]);
}

} // verus!
