//! The acceptance sweep: for every pair of target and test channel the path
//! is routed and then exercised with the fixed command table, and every
//! answer is held against what the table expects.

use vstd::prelude::*;
use crate::address::{channel_numbered, target_numbered, Target, TestChannel, LINE_COUNT};
use crate::driver::{
    changes_indicators, indicators_after, ChannelVerificationDriver, CMD_ECHO, CMD_PROBE_OUTPUT,
    CMD_RESET, CMD_SELECT_PIN0, CMD_SELECT_PIN1, CMD_SELECT_PIN2, REPLY_OUTPUT_SEEN,
};
use crate::error::ErrorKind;
use crate::expander::{Direction, PinState, PIN_COUNT};
use crate::routing::{
    after_connect, after_disconnect, channel_line, connect_plan, disconnect_plan, law_fresh_route,
    routed, target_line, RoutingController, SWITCH_PIN_COUNT,
};
use crate::signal::{Level, SensePin, SenseState};

verus! {

/// What the sense lines must read after `command`, where the command fixes them.
pub open spec fn expected_sense(command: u8) -> Option<SenseState> {
    if changes_indicators(command) {
        Some(indicators_after(SenseState::all_low(), command))
    } else {
        None
    }
}

/// The one byte that must come back on `command`, where the command asks
/// for one. For `CMD_PROBE_OUTPUT` the host's output line is taken to be high.
pub open spec fn expected_reply(command: u8) -> Option<u8> {
    if command == CMD_ECHO {
        Some(CMD_ECHO)
    } else if command == CMD_PROBE_OUTPUT {
        Some(REPLY_OUTPUT_SEEN)
    } else {
        None
    }
}

/// The verdict on a sampled sense reading: a mismatch names the pair, the
/// command, and what was read against what the table expects.
pub open spec fn sense_verdict(
    target: Target,
    channel: TestChannel,
    command: u8,
    observed: SenseState,
) -> Result<(), ErrorKind> {
    match expected_sense(command) {
        Some(expected) => if observed == expected {
            Ok(())
        } else {
            Err(ErrorKind::VerificationMismatch { target, channel, command, observed, expected })
        },
        None => Ok(()),
    }
}

/// The verdict on the bytes read back after `command`. Anything but the one
/// expected byte is a mismatch that names the pair and the command; the
/// sense lines are not at fault, so it carries their reading on both sides.
pub open spec fn reply_verdict(
    target: Target,
    channel: TestChannel,
    command: u8,
    reply: Seq<u8>,
    observed: SenseState,
) -> Result<(), ErrorKind> {
    match expected_reply(command) {
        Some(byte) => if reply == seq![byte] {
            Ok(())
        } else {
            Err(
                ErrorKind::VerificationMismatch {
                    target,
                    channel,
                    command,
                    observed,
                    expected: observed,
                },
            )
        },
        None => Ok(()),
    }
}

pub fn expected_sense_for(command: u8) -> (r: Option<SenseState>)
    ensures
        r == expected_sense(command),
{
    if command == CMD_SELECT_PIN0 {
        Some(SenseState { pin0: Level::High, pin1: Level::Low, pin2: Level::Low })
    } else if command == CMD_SELECT_PIN1 {
        Some(SenseState { pin0: Level::Low, pin1: Level::High, pin2: Level::Low })
    } else if command == CMD_SELECT_PIN2 {
        Some(SenseState { pin0: Level::Low, pin1: Level::Low, pin2: Level::High })
    } else if command == CMD_RESET {
        Some(SenseState { pin0: Level::Low, pin1: Level::Low, pin2: Level::Low })
    } else {
        None
    }
}

pub fn expected_reply_for(command: u8) -> (r: Option<u8>)
    ensures
        r == expected_reply(command),
{
    if command == CMD_ECHO {
        Some(CMD_ECHO)
    } else if command == CMD_PROBE_OUTPUT {
        Some(REPLY_OUTPUT_SEEN)
    } else {
        None
    }
}

/// Holds a sampled sense reading against the table.
pub fn check_sense(target: Target, channel: TestChannel, command: u8, observed: SenseState) -> (r:
    Result<(), ErrorKind>)
    ensures
        r == sense_verdict(target, channel, command, observed),
{
    match expected_sense_for(command) {
        Some(expected) => {
            if observed == expected {
                Ok(())
            } else {
                Err(ErrorKind::VerificationMismatch { target, channel, command, observed, expected })
            }
        },
        None => Ok(()),
    }
}

/// Holds the bytes read back after `command` against the table.
pub fn check_reply(
    target: Target,
    channel: TestChannel,
    command: u8,
    reply: &Vec<u8>,
    observed: SenseState,
) -> (r: Result<(), ErrorKind>)
    ensures
        r == reply_verdict(target, channel, command, reply@, observed),
{
    match expected_reply_for(command) {
        Some(byte) => {
            if reply.len() == 1 && reply[0] == byte {
                assert(reply@ =~= seq![byte]);
                Ok(())
            } else {
                assert(reply@ != seq![byte]) by {
                    if reply@ == seq![byte] {
                        assert(seq![byte].len() == 1);
                        assert(seq![byte][0] == byte);
                    }
                }
                Err(
                    ErrorKind::VerificationMismatch {
                        target,
                        channel,
                        command,
                        observed,
                        expected: observed,
                    },
                )
            }
        },
        None => Ok(()),
    }
}

/// The pairs of the sweep in order: target by target, and for each target
/// every test channel from 0 to 3.
pub fn sweep_order() -> (r: Vec<(Target, TestChannel)>)
    ensures
        r@.len() == LINE_COUNT * LINE_COUNT,
        forall|i: int|
            0 <= i < r@.len() ==> (#[trigger] r@[i]).0.number() == i / 4 && r@[i].1.number() == i % 4,
{
    let mut out: Vec<(Target, TestChannel)> = Vec::new();
    let mut t: u8 = 0;
    while t < LINE_COUNT
        invariant
            t <= LINE_COUNT,
            out@.len() == 4 * t,
            forall|i: int|
                0 <= i < out@.len() ==> (#[trigger] out@[i]).0.number() == i / 4 && out@[i].1.number()
                    == i % 4,
        decreases LINE_COUNT - t,
    {
        let mut c: u8 = 0;
        while c < LINE_COUNT
            invariant
                t < LINE_COUNT,
                c <= LINE_COUNT,
                out@.len() == 4 * t + c,
                forall|i: int|
                    0 <= i < out@.len() ==> (#[trigger] out@[i]).0.number() == i / 4
                        && out@[i].1.number() == i % 4,
            decreases LINE_COUNT - c,
        {
            match (Target::try_from_index(t), TestChannel::try_from_index(c)) {
                (Ok(target), Ok(channel)) => {
                    out.push((target, channel));
                },
                _ => {},
            }
            c = c + 1;
        }
        t = t + 1;
    }
    out
}

/// Sends one command that sets the sense lines and holds the reading against the table.
fn step(driver: &mut ChannelVerificationDriver, target: Target, command: u8) -> (r: Result<
    (),
    ErrorKind,
>)
    requires
        changes_indicators(command),
    ensures
        final(driver).channel == old(driver).channel,
        final(driver).output == old(driver).output,
        final(driver).linked == old(driver).linked,
        final(driver).responder.outbox@ == old(driver).responder.outbox@,
        old(driver).linked ==> final(driver).responder.indicators == indicators_after(
            old(driver).responder.indicators,
            command,
        ),
        !old(driver).linked ==> final(driver).responder.indicators == old(driver).responder.indicators,
        r == sense_verdict(target, old(driver).channel, command, final(driver).sensed()),
{
    let sent = driver.send(command);
    if sent.is_err() {
        return sent;
    }
    let observed = driver.sample();
    check_sense(target, driver.channel, command, observed)
}

/// Runs the command table over the channel of `driver`, which is taken to
/// be routed to `target`: each of the three sense lines in turn, with a
/// reset after each, then the host's output line. It stops at the first
/// answer that is not the expected one.
///
/// Over a linked channel every answer is the expected one. Over a channel
/// that is not linked the first command already fails, with the sense lines
/// all low where line 0 should be high.
pub fn exercise_path(driver: &mut ChannelVerificationDriver, target: Target) -> (r: Result<
    (),
    ErrorKind,
>)
    ensures
        final(driver).channel == old(driver).channel,
        final(driver).linked == old(driver).linked,
        final(driver).responder.outbox@ == Seq::<u8>::empty(),
        old(driver).linked ==> r.is_ok() && final(driver).output == Level::Low && final(driver).responder.indicators == SenseState::all_low(),
        !old(driver).linked ==> r == Err::<(), ErrorKind>(
            ErrorKind::VerificationMismatch {
                target,
                channel: old(driver).channel,
                command: CMD_SELECT_PIN0,
                observed: SenseState::all_low(),
                expected: SenseState::only(SensePin::Pin0),
            },
        ) && final(driver).output == old(driver).output && final(driver).responder.indicators
            == old(driver).responder.indicators,
{
    driver.discard_pending();
    let r0 = step(driver, target, CMD_SELECT_PIN0);
    if r0.is_err() {
        return r0;
    }
    let r1 = step(driver, target, CMD_RESET);
    if r1.is_err() {
        return r1;
    }
    let r2 = step(driver, target, CMD_SELECT_PIN1);
    if r2.is_err() {
        return r2;
    }
    let r3 = step(driver, target, CMD_RESET);
    if r3.is_err() {
        return r3;
    }
    let r4 = step(driver, target, CMD_SELECT_PIN2);
    if r4.is_err() {
        return r4;
    }
    let r5 = step(driver, target, CMD_RESET);
    if r5.is_err() {
        return r5;
    }
    let raised = driver.test_output_set_high();
    if raised.is_err() {
        return raised;
    }
    let sent = driver.send(CMD_PROBE_OUTPUT);
    if sent.is_err() {
        return sent;
    }
    let reply = match driver.test_bus_read() {
        Ok(bytes) => bytes,
        Err(e) => {
            return Err(e);
        },
    };
    proof {
        assert(Seq::<u8>::empty().push(REPLY_OUTPUT_SEEN) =~= seq![REPLY_OUTPUT_SEEN]);
    }
    let verdict = check_reply(target, driver.channel, CMD_PROBE_OUTPUT, &reply, driver.sample());
    if verdict.is_err() {
        return verdict;
    }
    driver.test_output_set_low()
}

/// Verifies one pair: opens every switch, routes the channel of `driver` to
/// `target`, and runs the command table over the path. The channel is
/// linked exactly if the pins then connect the pair.
pub fn verify_pair(
    controller: &mut RoutingController,
    driver: &mut ChannelVerificationDriver,
    target: Target,
) -> (r: Result<(), ErrorKind>)
    requires
        old(controller).wf(),
    ensures
        final(controller).wf(),
        final(controller).position == old(controller).position,
        final(controller).bus.responding() == old(controller).bus.responding(),
        final(driver).channel == old(driver).channel,
        r == pair_verdict(
            old(controller).bus.pins(),
            old(controller).bus.responding(),
            old(driver).channel,
            target,
        ),
        !old(controller).bus.responding() ==> r == Err::<(), ErrorKind>(ErrorKind::BusError)
            && final(controller).bus.same_as(&old(controller).bus) && final(driver).linked == old(driver).linked && final(driver).output == old(driver).output && final(driver).responder == old(driver).responder,
        old(controller).bus.responding() ==> {
            &&& final(controller).bus.pins() == after_connect(
                after_disconnect(old(controller).bus.pins()),
                old(driver).channel,
                target,
            )
            &&& final(controller).bus.journal() == old(controller).bus.journal() + disconnect_plan(
                SWITCH_PIN_COUNT as nat,
            ) + connect_plan(old(driver).channel, target)
            &&& final(driver).linked == routed(
                final(controller).bus.pins(),
                old(driver).channel,
                target,
            )
            &&& final(driver).responder.outbox@ == Seq::<u8>::empty()
            &&& final(driver).linked ==> r.is_ok() && final(driver).output == Level::Low && final(driver).responder.indicators == SenseState::all_low()
            &&& !final(driver).linked ==> final(driver).output == old(driver).output && final(driver).responder.indicators == old(driver).responder.indicators
            &&& !final(driver).linked ==> r == Err::<(), ErrorKind>(
                ErrorKind::VerificationMismatch {
                    target,
                    channel: old(driver).channel,
                    command: CMD_SELECT_PIN0,
                    observed: SenseState::all_low(),
                    expected: SenseState::only(SensePin::Pin0),
                },
            )
        },
{
    proof {
        law_fresh_route(controller.bus.pins(), driver.channel, target);
    }
    let opened = controller.disconnect_all();
    if opened.is_err() {
        return opened;
    }
    let connected = controller.connect_test_channel_to_target(driver.channel, target);
    if connected.is_err() {
        return connected;
    }
    let linked = controller.is_routed(driver.channel, target);
    driver.set_linked(linked);
    match exercise_path(driver, target) {
        Ok(()) => Ok(()),
        Err(e) => Err(e),
    }
}

/// What a sweep does after the first pair that fails.
#[derive(Clone, Copy, Debug, PartialEq, Eq, Structural)]
pub enum SweepPolicy {
    /// The sweep ends with the first failure.
    StopOnFirst,
    /// Every pair is verified, and every failure is reported.
    CollectAll,
}

/// What verifying one pair comes to, on a board whose pins are `pins`: a
/// chip that does not answer is a `BusError`; a pair whose two switch pins
/// are outputs passes; any other pair cannot be routed, and fails at the
/// first command of the table.
pub open spec fn pair_verdict(
    pins: Seq<PinState>,
    responding: bool,
    channel: TestChannel,
    target: Target,
) -> Result<(), ErrorKind> {
    if !responding {
        Err(ErrorKind::BusError)
    } else if pins[channel_line(channel)].direction == Direction::Output && pins[target_line(
        target,
    )].direction == Direction::Output {
        Ok(())
    } else {
        Err(
            ErrorKind::VerificationMismatch {
                target,
                channel,
                command: CMD_SELECT_PIN0,
                observed: SenseState::all_low(),
                expected: SenseState::only(SensePin::Pin0),
            },
        )
    }
}

/// The failures that a sweep over the first `n` pairs reports, in the
/// order of the sweep.
pub open spec fn sweep_failures(pins: Seq<PinState>, responding: bool, policy: SweepPolicy, n: nat) -> Seq<
    ErrorKind,
>
    decreases n,
{
    if n == 0 {
        Seq::empty()
    } else {
        let before = sweep_failures(pins, responding, policy, (n - 1) as nat);
        if policy == SweepPolicy::StopOnFirst && before.len() > 0 {
            before
        } else {
            match pair_verdict(
                pins,
                responding,
                channel_numbered((n - 1) % 4),
                target_numbered((n - 1) / 4),
            ) {
                Ok(_) => before,
                Err(e) => before.push(e),
            }
        }
    }
}

/// Whether two states of the pins give every pin the same direction.
pub open spec fn same_directions(a: Seq<PinState>, b: Seq<PinState>) -> bool {
    a.len() == b.len() && forall|i: int| 0 <= i < a.len() ==> (#[trigger] a[i]).direction == b[i].direction
}

/// The acceptance sweep over all sixteen pairs, target by target, each
/// pair over a fresh driver of its channel. It returns the failures in the
/// order in which they came up; none means that every path works. No pin
/// changes its direction.
pub fn sweep(controller: &mut RoutingController, policy: SweepPolicy) -> (failures: Vec<ErrorKind>)
    requires
        old(controller).wf(),
    ensures
        final(controller).wf(),
        final(controller).position == old(controller).position,
        final(controller).bus.responding() == old(controller).bus.responding(),
        same_directions(final(controller).bus.pins(), old(controller).bus.pins()),
        !old(controller).bus.responding() ==> final(controller).bus.same_as(&old(controller).bus),
        failures@ == sweep_failures(
            old(controller).bus.pins(),
            old(controller).bus.responding(),
            policy,
            (LINE_COUNT * LINE_COUNT) as nat,
        ),
{
    let ghost start = controller.bus.pins();
    let ghost responding = controller.bus.responding();
    let mut failures: Vec<ErrorKind> = Vec::new();
    let mut i: u8 = 0;
    while i < LINE_COUNT * LINE_COUNT
        invariant
            i <= LINE_COUNT * LINE_COUNT,
            controller.wf(),
            controller.position == old(controller).position,
            controller.bus.responding() == responding,
            start.len() == PIN_COUNT,
            same_directions(controller.bus.pins(), start),
            !responding ==> controller.bus.same_as(&old(controller).bus),
            failures@ == sweep_failures(start, responding, policy, i as nat),
        decreases LINE_COUNT * LINE_COUNT - i,
    {
        let stopped = match policy {
            SweepPolicy::StopOnFirst => failures.len() > 0,
            SweepPolicy::CollectAll => false,
        };
        if !stopped {
            match (Target::try_from_index(i / 4), TestChannel::try_from_index(i % 4)) {
                (Ok(target), Ok(channel)) => {
                    assert(target == target_numbered(i as int / 4));
                    assert(channel == channel_numbered(i as int % 4));
                    let ghost before = controller.bus.pins();
                    let mut driver = ChannelVerificationDriver::new(channel);
                    proof {
                        law_fresh_route(before, channel, target);
                    }
                    let verdict = verify_pair(controller, &mut driver, target);
                    assert(verdict == pair_verdict(start, responding, channel, target));
                    match verdict {
                        Ok(()) => {},
                        Err(e) => {
                            failures.push(e);
                        },
                    }
                },
                _ => {},
            }
        }
        i = i + 1;
    }
    failures
}

} // verus!
