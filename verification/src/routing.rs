//! The routing controller of one board position: it turns a choice of test
//! channel and target into operations on the pins of the position's expander.
//!
//! Pins 0 to 3 switch the lines of test channels 0 to 3, pins 4 to 7 those of
//! targets 0 to 3. Pin 8 senses a seated daughterboard. Pins 9 to 15 are not
//! connected. A channel is routed to a target while both their pins are
//! driven high.

use vstd::prelude::*;
use crate::address::{
    channel_numbered, target_numbered, BoardPosition, Probe, Target, TestChannel, LINE_COUNT,
};
use crate::error::ErrorKind;
use crate::expander::{
    apply_op, apply_ops, lemma_apply_ops_concat, lemma_apply_ops_one, Direction, ExpanderBus, PinOp,
    PinState, PIN_COUNT,
};
use crate::signal::Level;

verus! {

/// The pin that senses a seated daughterboard: high while one is seated.
pub const PRESENCE_PIN: u8 = 8;

/// The pins below this one control switches.
pub const SWITCH_PIN_COUNT: u8 = 8;

/// The pin that switches the lines of a test channel.
pub open spec fn channel_line(channel: TestChannel) -> int {
    channel.number() as int
}

/// The pin that switches the lines of a target.
pub open spec fn target_line(target: Target) -> int {
    LINE_COUNT + target.number()
}

/// The test channel whose lines a probe is wired to.
pub open spec fn probe_channel(probe: Probe) -> TestChannel {
    match probe {
        Probe::Probe0 => TestChannel::Channel3,
        Probe::Probe1 => TestChannel::Channel2,
        Probe::Probe2 => TestChannel::Channel1,
        Probe::Probe3 => TestChannel::Channel0,
    }
}

/// Whether the pins connect `channel` to `target`.
pub open spec fn routed(pins: Seq<PinState>, channel: TestChannel, target: Target) -> bool {
    pins[channel_line(channel)].asserted() && pins[target_line(target)].asserted()
}

/// The connection state: every pair of channel and target that the pins connect.
pub open spec fn routes(pins: Seq<PinState>) -> Set<(TestChannel, Target)> {
    Set::new(|r: (TestChannel, Target)| routed(pins, r.0, r.1))
}

/// The routes among the first `n` pairs, target by target and for each
/// target channel by channel, as a list.
pub open spec fn routes_upto(pins: Seq<PinState>, n: nat) -> Seq<(TestChannel, Target)>
    decreases n,
{
    if n == 0 {
        Seq::empty()
    } else {
        let before = routes_upto(pins, (n - 1) as nat);
        let channel = channel_numbered((n - 1) % 4);
        let target = target_numbered((n - 1) / 4);
        if routed(pins, channel, target) {
            before.push((channel, target))
        } else {
            before
        }
    }
}

/// The state in which initialisation leaves pin `index`: a switch pin is an
/// output with a low latch, any other pin an input.
pub open spec fn initial_state(s: PinState, index: int) -> PinState {
    if index < SWITCH_PIN_COUNT {
        PinState { direction: Direction::Output, latch: Level::Low, line: s.line }
    } else {
        PinState { direction: Direction::Input, latch: s.latch, line: s.line }
    }
}

/// The pins after initialisation.
pub open spec fn after_init(pins: Seq<PinState>) -> Seq<PinState> {
    Seq::new(pins.len(), |i: int| initial_state(pins[i], i))
}

/// The operations that initialise pin `index`. The latch of a switch pin is
/// cleared before the pin becomes an output, so that no switch closes on the way.
pub open spec fn init_ops(index: u8) -> Seq<PinOp> {
    if index < SWITCH_PIN_COUNT {
        seq![PinOp::SetLow(index), PinOp::IntoOutput(index)]
    } else {
        seq![PinOp::IntoInput(index)]
    }
}

/// The operations that initialise the first `n` pins, in order.
pub open spec fn init_plan(n: nat) -> Seq<PinOp>
    decreases n,
{
    if n == 0 {
        Seq::empty()
    } else {
        init_plan((n - 1) as nat) + init_ops((n - 1) as u8)
    }
}

/// The pins after every switch pin has been deasserted.
pub open spec fn after_disconnect(pins: Seq<PinState>) -> Seq<PinState> {
    Seq::new(
        pins.len(),
        |i: int|
            if i < SWITCH_PIN_COUNT {
                PinState { latch: Level::Low, ..pins[i] }
            } else {
                pins[i]
            },
    )
}

/// The operations that deassert the first `n` switch pins, in order.
pub open spec fn disconnect_plan(n: nat) -> Seq<PinOp> {
    Seq::new(n, |i: int| PinOp::SetLow(i as u8))
}

/// The operations that connect `channel` to `target`.
pub open spec fn connect_plan(channel: TestChannel, target: Target) -> Seq<PinOp> {
    seq![PinOp::SetHigh(channel_line(channel) as u8), PinOp::SetHigh(target_line(target) as u8)]
}

/// The pins after `channel` has been connected to `target`.
pub open spec fn after_connect(pins: Seq<PinState>, channel: TestChannel, target: Target) -> Seq<
    PinState,
> {
    apply_op(
        apply_op(pins, PinOp::SetHigh(channel_line(channel) as u8)),
        PinOp::SetHigh(target_line(target) as u8),
    )
}

/// The pins after the switch of `channel` has been opened.
pub open spec fn after_release(pins: Seq<PinState>, channel: TestChannel) -> Seq<PinState> {
    apply_op(pins, PinOp::SetLow(channel_line(channel) as u8))
}

/// Whether every switch pin is an output.
pub open spec fn switches_configured(pins: Seq<PinState>) -> bool {
    forall|i: int| 0 <= i < SWITCH_PIN_COUNT ==> (#[trigger] pins[i]).direction == Direction::Output
}

pub fn channel_pin(channel: TestChannel) -> (r: u8)
    ensures
        r == channel_line(channel),
        r < LINE_COUNT,
{
    channel.index()
}

pub fn target_pin(target: Target) -> (r: u8)
    ensures
        r == target_line(target),
        LINE_COUNT <= r < SWITCH_PIN_COUNT,
{
    LINE_COUNT + target.index()
}

pub fn channel_of_probe(probe: Probe) -> (r: TestChannel)
    ensures
        r == probe_channel(probe),
{
    match probe {
        Probe::Probe0 => TestChannel::Channel3,
        Probe::Probe1 => TestChannel::Channel2,
        Probe::Probe2 => TestChannel::Channel1,
        Probe::Probe3 => TestChannel::Channel0,
    }
}

/// The controller of one board position, with the expander that it owns.
pub struct RoutingController {
    pub position: BoardPosition,
    pub bus: ExpanderBus,
}

impl RoutingController {
    pub open spec fn wf(&self) -> bool {
        self.position.wf() && self.bus.wf()
    }

    /// Whether a daughterboard is seated, as the presence pin shows it.
    pub open spec fn presence(&self) -> bool {
        self.bus.pins()[PRESENCE_PIN as int].level().high()
    }

    /// A controller for `position`, with its expander as after power-on.
    pub fn new(position: BoardPosition) -> (r: RoutingController)
        requires
            position.wf(),
        ensures
            r.wf(),
            r.position == position,
            r.bus.responding(),
            r.bus.journal() == Seq::<PinOp>::empty(),
            forall|i: int| 0 <= i < PIN_COUNT ==> r.bus.pins()[i] == PinState::power_on(),
            routes(r.bus.pins()) == Set::<(TestChannel, Target)>::empty(),
    {
        let r = RoutingController { position, bus: ExpanderBus::new() };
        assert(routes(r.bus.pins()) =~= Set::<(TestChannel, Target)>::empty());
        r
    }

    /// The bus address of this position's expander.
    pub fn address(&self) -> (r: u8)
        requires
            self.wf(),
        ensures
            r == self.position.bus_address(),
    {
        self.position.address()
    }

    /// Gives all sixteen pins their direction, and the switch pins a low
    /// latch. Running it again changes no pin.
    pub fn init_pins(&mut self) -> (r: Result<(), ErrorKind>)
        requires
            old(self).wf(),
        ensures
            final(self).wf(),
            final(self).position == old(self).position,
            final(self).bus.responding() == old(self).bus.responding(),
            old(self).bus.responding() ==> r.is_ok(),
            !old(self).bus.responding() ==> r == Err::<(), ErrorKind>(ErrorKind::BusError),
            r.is_ok() ==> final(self).bus.pins() == after_init(old(self).bus.pins())
                && final(self).bus.journal() == old(self).bus.journal() + init_plan(PIN_COUNT as nat),
            r.is_err() ==> final(self).bus.same_as(&old(self).bus),
    {
        if !self.bus.is_responding() {
            return Err(ErrorKind::BusError);
        }
        let ghost start = self.bus.pins();
        let ghost log = self.bus.journal();
        let mut i: u8 = 0;
        while i < PIN_COUNT
            invariant
                i <= PIN_COUNT,
                self.wf(),
                self.bus.responding(),
                self.position == old(self).position,
                start.len() == PIN_COUNT,
                forall|j: int| 0 <= j < i ==> self.bus.pins()[j] == initial_state(start[j], j),
                forall|j: int| i <= j < PIN_COUNT ==> self.bus.pins()[j] == start[j],
                self.bus.journal() == log + init_plan(i as nat),
            decreases PIN_COUNT - i,
        {
            let ghost sofar = self.bus.journal();
            if i < SWITCH_PIN_COUNT {
                let first = self.bus.issue(PinOp::SetLow(i));
                if first.is_err() {
                    return first;
                }
                let second = self.bus.issue(PinOp::IntoOutput(i));
                if second.is_err() {
                    return second;
                }
                assert(self.bus.journal() =~= sofar + init_ops(i));
            } else {
                let only = self.bus.issue(PinOp::IntoInput(i));
                if only.is_err() {
                    return only;
                }
                assert(self.bus.journal() =~= sofar + init_ops(i));
            }
            assert(self.bus.journal() =~= log + init_plan((i + 1) as nat));
            i = i + 1;
        }
        assert(self.bus.pins() =~= after_init(start));
        Ok(())
    }

    /// Deasserts every switch pin, which opens every switch.
    pub fn disconnect_all(&mut self) -> (r: Result<(), ErrorKind>)
        requires
            old(self).wf(),
        ensures
            final(self).wf(),
            final(self).position == old(self).position,
            final(self).bus.responding() == old(self).bus.responding(),
            old(self).bus.responding() ==> r.is_ok(),
            !old(self).bus.responding() ==> r == Err::<(), ErrorKind>(ErrorKind::BusError),
            r.is_ok() ==> final(self).bus.pins() == after_disconnect(old(self).bus.pins())
                && final(self).bus.journal() == old(self).bus.journal() + disconnect_plan(
                SWITCH_PIN_COUNT as nat,
            ) && routes(final(self).bus.pins()) == Set::<(TestChannel, Target)>::empty(),
            r.is_err() ==> final(self).bus.same_as(&old(self).bus),
    {
        if !self.bus.is_responding() {
            return Err(ErrorKind::BusError);
        }
        let ghost start = self.bus.pins();
        let ghost log = self.bus.journal();
        let mut i: u8 = 0;
        while i < SWITCH_PIN_COUNT
            invariant
                i <= SWITCH_PIN_COUNT,
                self.wf(),
                self.bus.responding(),
                self.position == old(self).position,
                start.len() == PIN_COUNT,
                forall|j: int|
                    0 <= j < i ==> self.bus.pins()[j] == (PinState { latch: Level::Low, ..start[j] }),
                forall|j: int| i <= j < PIN_COUNT ==> self.bus.pins()[j] == start[j],
                self.bus.journal() == log + disconnect_plan(i as nat),
            decreases SWITCH_PIN_COUNT - i,
        {
            let step = self.bus.issue(PinOp::SetLow(i));
            if step.is_err() {
                return step;
            }
            assert(self.bus.journal() =~= log + disconnect_plan((i + 1) as nat));
            i = i + 1;
        }
        assert(self.bus.pins() =~= after_disconnect(start));
        proof {
            law_disconnected_is_open(start);
        }
        Ok(())
    }

    /// Whether a daughterboard is seated: whether the presence pin reads high.
    pub fn daughterboard_is_connected(&self) -> (r: Result<bool, ErrorKind>)
        requires
            self.wf(),
        ensures
            self.bus.responding() ==> r == Ok::<bool, ErrorKind>(self.presence()),
            !self.bus.responding() ==> r == Err::<bool, ErrorKind>(ErrorKind::BusError),
    {
        match self.bus.read_pin(PRESENCE_PIN) {
            Ok(level) => Ok(level.is_high()),
            Err(e) => Err(e),
        }
    }

    /// Whether the pins connect `channel` to `target`.
    pub fn is_routed(&self, channel: TestChannel, target: Target) -> (r: bool)
        requires
            self.wf(),
        ensures
            r == routed(self.bus.pins(), channel, target),
            r == routes(self.bus.pins()).contains((channel, target)),
    {
        let c = self.bus.pin_state(channel_pin(channel));
        let t = self.bus.pin_state(target_pin(target));
        match (c, t) {
            (Some(c), Some(t)) => c.is_asserted() && t.is_asserted(),
            _ => false,
        }
    }

    /// The connection state as a list: every pair that the pins connect,
    /// once, target by target.
    pub fn connections(&self) -> (r: Vec<(TestChannel, Target)>)
        requires
            self.wf(),
        ensures
            r@ == routes_upto(self.bus.pins(), (LINE_COUNT * LINE_COUNT) as nat),
            forall|c: TestChannel, t: Target|
                #[trigger] r@.contains((c, t)) == routed(self.bus.pins(), c, t),
            (r@.len() == 0) == (routes(self.bus.pins()) == Set::<(TestChannel, Target)>::empty()),
    {
        let mut out: Vec<(TestChannel, Target)> = Vec::new();
        let mut i: u8 = 0;
        while i < LINE_COUNT * LINE_COUNT
            invariant
                i <= LINE_COUNT * LINE_COUNT,
                self.wf(),
                out@ == routes_upto(self.bus.pins(), i as nat),
            decreases LINE_COUNT * LINE_COUNT - i,
        {
            match (TestChannel::try_from_index(i % 4), Target::try_from_index(i / 4)) {
                (Ok(channel), Ok(target)) => {
                    assert(channel == channel_numbered(i as int % 4));
                    assert(target == target_numbered(i as int / 4));
                    if self.is_routed(channel, target) {
                        out.push((channel, target));
                    }
                },
                _ => {},
            }
            i = i + 1;
        }
        proof {
            let pins = self.bus.pins();
            assert forall|c: TestChannel, t: Target| #[trigger]
                out@.contains((c, t)) == routed(pins, c, t) by {
                lemma_routes_upto(pins, 16, c, t);
            }
            if out@.len() == 0 {
                assert forall|p: (TestChannel, Target)| !routes(pins).contains(p) by {
                    if routed(pins, p.0, p.1) {
                        assert(out@.contains((p.0, p.1)));
                    }
                }
                assert(routes(pins) =~= Set::<(TestChannel, Target)>::empty());
            } else {
                let first = out@[0];
                assert(out@.contains((first.0, first.1)));
                assert(routes(pins).contains(first));
            }
        }
        out
    }

    /// Asserts the pin of `channel` and the pin of `target`. No other pin
    /// changes: a route that stands is left standing.
    pub fn connect_test_channel_to_target(&mut self, channel: TestChannel, target: Target) -> (r:
        Result<(), ErrorKind>)
        requires
            old(self).wf(),
        ensures
            final(self).wf(),
            final(self).position == old(self).position,
            final(self).bus.responding() == old(self).bus.responding(),
            old(self).bus.responding() ==> r.is_ok(),
            !old(self).bus.responding() ==> r == Err::<(), ErrorKind>(ErrorKind::BusError),
            r.is_ok() ==> final(self).bus.pins() == after_connect(
                old(self).bus.pins(),
                channel,
                target,
            ) && final(self).bus.journal() == old(self).bus.journal() + connect_plan(channel, target),
            r.is_err() ==> final(self).bus.same_as(&old(self).bus),
    {
        if !self.bus.is_responding() {
            return Err(ErrorKind::BusError);
        }
        let ghost log = self.bus.journal();
        let first = self.bus.issue(PinOp::SetHigh(channel_pin(channel)));
        if first.is_err() {
            return first;
        }
        let second = self.bus.issue(PinOp::SetHigh(target_pin(target)));
        if second.is_err() {
            return second;
        }
        assert(self.bus.journal() =~= log + connect_plan(channel, target));
        Ok(())
    }

    /// Connects the channel that `probe` is wired to with `target`.
    pub fn connect_probe_to_target(&mut self, probe: Probe, target: Target) -> (r: Result<
        (),
        ErrorKind,
    >)
        requires
            old(self).wf(),
        ensures
            final(self).wf(),
            final(self).position == old(self).position,
            final(self).bus.responding() == old(self).bus.responding(),
            old(self).bus.responding() ==> r.is_ok(),
            !old(self).bus.responding() ==> r == Err::<(), ErrorKind>(ErrorKind::BusError),
            r.is_ok() ==> final(self).bus.pins() == after_connect(
                old(self).bus.pins(),
                probe_channel(probe),
                target,
            ) && final(self).bus.journal() == old(self).bus.journal() + connect_plan(
                probe_channel(probe),
                target,
            ),
            r.is_err() ==> final(self).bus.same_as(&old(self).bus),
    {
        self.connect_test_channel_to_target(channel_of_probe(probe), target)
    }

    /// Opens the switch of `channel`, which ends every route of that channel.
    pub fn disconnect(&mut self, channel: TestChannel) -> (r: Result<(), ErrorKind>)
        requires
            old(self).wf(),
        ensures
            final(self).wf(),
            final(self).position == old(self).position,
            final(self).bus.responding() == old(self).bus.responding(),
            old(self).bus.responding() ==> r.is_ok(),
            !old(self).bus.responding() ==> r == Err::<(), ErrorKind>(ErrorKind::BusError),
            r.is_ok() ==> final(self).bus.pins() == after_release(old(self).bus.pins(), channel)
                && final(self).bus.journal() == old(self).bus.journal().push(
                PinOp::SetLow(channel_line(channel) as u8),
            ),
            r.is_err() ==> final(self).bus.same_as(&old(self).bus),
    {
        self.bus.issue(PinOp::SetLow(channel_pin(channel)))
    }

    /// Routes channel number `channel` to target number `target`, if that
    /// can be done: a chip that does not answer is a `BusError`; else a
    /// missing daughterboard is `NoDaughterboard`; else a number from 4 on is
    /// `OutOfRange`. On any error no pin has been written.
    pub fn select_route(&mut self, channel: u8, target: u8) -> (r: Result<(), ErrorKind>)
        requires
            old(self).wf(),
        ensures
            final(self).wf(),
            final(self).position == old(self).position,
            final(self).bus.responding() == old(self).bus.responding(),
            r == select_outcome(old(self).bus.responding(), old(self).presence(), channel, target),
            r.is_ok() ==> exists|c: TestChannel, t: Target|
                c.number() == channel && t.number() == target && final(self).bus.pins()
                    == after_connect(old(self).bus.pins(), c, t) && final(self).bus.journal() == old(self).bus.journal() + connect_plan(c, t),
            r.is_err() ==> final(self).bus.same_as(&old(self).bus),
    {
        let seated = match self.daughterboard_is_connected() {
            Ok(seated) => seated,
            Err(e) => {
                return Err(e);
            },
        };
        if !seated {
            return Err(ErrorKind::NoDaughterboard);
        }
        let c = match TestChannel::try_from_index(channel) {
            Ok(c) => c,
            Err(e) => {
                return Err(e);
            },
        };
        let t = match Target::try_from_index(target) {
            Ok(t) => t,
            Err(e) => {
                return Err(e);
            },
        };
        match self.connect_test_channel_to_target(c, t) {
            Ok(()) => Ok(()),
            Err(e) => Err(e),
        }
    }
}

/// What a request for a route by numbers comes to.
pub open spec fn select_outcome(responding: bool, seated: bool, channel: u8, target: u8) -> Result<
    (),
    ErrorKind,
> {
    if !responding {
        Err(ErrorKind::BusError)
    } else if !seated {
        Err(ErrorKind::NoDaughterboard)
    } else if channel >= LINE_COUNT || target >= LINE_COUNT {
        Err(ErrorKind::OutOfRange)
    } else {
        Ok(())
    }
}

/// The pins after the first `n` pins have been initialised.
pub open spec fn after_init_upto(pins: Seq<PinState>, n: int) -> Seq<PinState> {
    Seq::new(
        pins.len(),
        |i: int|
            if i < n {
                initial_state(pins[i], i)
            } else {
                pins[i]
            },
    )
}

/// The pins after the first `n` switch pins have been deasserted.
pub open spec fn after_disconnect_upto(pins: Seq<PinState>, n: int) -> Seq<PinState> {
    Seq::new(
        pins.len(),
        |i: int|
            if i < n {
                PinState { latch: Level::Low, ..pins[i] }
            } else {
                pins[i]
            },
    )
}

proof fn lemma_replay_init_upto(pins: Seq<PinState>, n: nat)
    requires
        pins.len() == PIN_COUNT,
        n <= PIN_COUNT,
    ensures
        apply_ops(pins, init_plan(n)) == after_init_upto(pins, n as int),
    decreases n,
{
    if n == 0 {
        assert(after_init_upto(pins, 0) =~= pins);
    } else {
        let k = (n - 1) as nat;
        let index = k as u8;
        lemma_replay_init_upto(pins, k);
        lemma_apply_ops_concat(pins, init_plan(k), init_ops(index));
        let mid = after_init_upto(pins, k as int);
        if index < SWITCH_PIN_COUNT {
            let low = seq![PinOp::SetLow(index)];
            let out = seq![PinOp::IntoOutput(index)];
            assert(init_ops(index) =~= low + out);
            lemma_apply_ops_concat(mid, low, out);
            lemma_apply_ops_one(mid, PinOp::SetLow(index));
            lemma_apply_ops_one(apply_op(mid, PinOp::SetLow(index)), PinOp::IntoOutput(index));
        } else {
            lemma_apply_ops_one(mid, PinOp::IntoInput(index));
        }
        assert(apply_ops(mid, init_ops(index)) =~= after_init_upto(pins, n as int));
    }
}

proof fn lemma_replay_disconnect_upto(pins: Seq<PinState>, n: nat)
    requires
        pins.len() == PIN_COUNT,
        n <= SWITCH_PIN_COUNT,
    ensures
        apply_ops(pins, disconnect_plan(n)) == after_disconnect_upto(pins, n as int),
    decreases n,
{
    if n == 0 {
        assert(after_disconnect_upto(pins, 0) =~= pins);
    } else {
        let k = (n - 1) as nat;
        lemma_replay_disconnect_upto(pins, k);
        assert(disconnect_plan(n).drop_last() =~= disconnect_plan(k));
        assert(disconnect_plan(n).last() == PinOp::SetLow(k as u8));
        assert(apply_op(after_disconnect_upto(pins, k as int), PinOp::SetLow(k as u8))
            =~= after_disconnect_upto(pins, n as int));
    }
}

/// The journal tells the whole story: the operations that initialisation,
/// a full disconnect and a connection add to it, applied in order to the
/// pins as they were, give the pins as the controller then holds them. So a
/// chip that carries out the journal ends in the state that the controller
/// knows.
pub proof fn law_journal_replays(pins: Seq<PinState>, channel: TestChannel, target: Target)
    requires
        pins.len() == PIN_COUNT,
    ensures
        apply_ops(pins, init_plan(PIN_COUNT as nat)) == after_init(pins),
        apply_ops(pins, disconnect_plan(SWITCH_PIN_COUNT as nat)) == after_disconnect(pins),
        apply_ops(pins, connect_plan(channel, target)) == after_connect(pins, channel, target),
{
    lemma_replay_init_upto(pins, PIN_COUNT as nat);
    assert(after_init_upto(pins, PIN_COUNT as int) =~= after_init(pins));
    lemma_replay_disconnect_upto(pins, SWITCH_PIN_COUNT as nat);
    assert(after_disconnect_upto(pins, SWITCH_PIN_COUNT as int) =~= after_disconnect(pins));
    let first = PinOp::SetHigh(channel_line(channel) as u8);
    let second = PinOp::SetHigh(target_line(target) as u8);
    assert(connect_plan(channel, target) =~= seq![first] + seq![second]);
    lemma_apply_ops_concat(pins, seq![first], seq![second]);
    lemma_apply_ops_one(pins, first);
    lemma_apply_ops_one(apply_op(pins, first), second);
}

proof fn lemma_push_contains(s: Seq<(TestChannel, Target)>, p: (TestChannel, Target), x: (
    TestChannel,
    Target,
))
    ensures
        s.push(p).contains(x) == (s.contains(x) || x == p),
{
    if s.contains(x) {
        let i = choose|i: int| 0 <= i < s.len() && s[i] == x;
        assert(s.push(p)[i] == x);
    }
    if x == p {
        assert(s.push(p)[s.len() as int] == x);
    }
    if s.push(p).contains(x) {
        let i = choose|i: int| 0 <= i < s.push(p).len() && s.push(p)[i] == x;
        if i < s.len() {
            assert(s[i] == x);
        }
    }
}

/// The list of routes among the first `n` pairs holds a pair exactly if
/// the pair is among them and the pins connect it.
pub proof fn lemma_routes_upto(pins: Seq<PinState>, n: nat, channel: TestChannel, target: Target)
    requires
        n <= LINE_COUNT * LINE_COUNT,
    ensures
        routes_upto(pins, n).contains((channel, target)) == (4 * target.number() + channel.number()
            < n && routed(pins, channel, target)),
    decreases n,
{
    if n > 0 {
        let k = (n - 1) as nat;
        lemma_routes_upto(pins, k, channel, target);
        let c = channel_numbered(k as int % 4);
        let t = target_numbered(k as int / 4);
        assert(((c, t) == (channel, target)) == (4 * target.number() + channel.number() == k));
        if routed(pins, c, t) {
            lemma_push_contains(routes_upto(pins, k), (c, t), (channel, target));
        }
    }
}

/// Once every switch pin is deasserted, no channel is connected to any target.
pub proof fn law_disconnected_is_open(pins: Seq<PinState>)
    requires
        pins.len() == PIN_COUNT,
    ensures
        routes(after_disconnect(pins)) == Set::<(TestChannel, Target)>::empty(),
        forall|i: int| 0 <= i < SWITCH_PIN_COUNT ==> !(#[trigger] after_disconnect(pins)[i]).asserted(),
{
    assert(routes(after_disconnect(pins)) =~= Set::<(TestChannel, Target)>::empty());
}

/// Initialisation followed by a full disconnect, from any state of the pins
/// and so at every board position, leaves the connection state empty and
/// every switch pin an output that is driven low.
pub proof fn law_init_then_disconnect_is_open(pins: Seq<PinState>)
    requires
        pins.len() == PIN_COUNT,
    ensures
        routes(after_disconnect(after_init(pins))) == Set::<(TestChannel, Target)>::empty(),
        forall|i: int|
            0 <= i < SWITCH_PIN_COUNT ==> {
                let s = #[trigger] after_disconnect(after_init(pins))[i];
                s.direction == Direction::Output && s.level() == Level::Low
            },
        after_disconnect(after_init(pins)) == after_init(pins),
{
    law_disconnected_is_open(after_init(pins));
    assert(after_disconnect(after_init(pins)) =~= after_init(pins));
}

/// Initialisation is idempotent: a second run changes no pin.
pub proof fn law_init_is_idempotent(pins: Seq<PinState>)
    requires
        pins.len() == PIN_COUNT,
    ensures
        after_init(after_init(pins)) == after_init(pins),
{
    assert(after_init(after_init(pins)) =~= after_init(pins));
}

/// Connecting a channel to a target drives the latch of that channel's pin
/// and of that target's pin high and changes nothing else. Where the two
/// pins are outputs, as they are once the pins have been initialised, the
/// pair is then connected. A pair that shares neither the channel nor the
/// target is connected afterwards exactly if it was before, and no route
/// that stood is cleared.
pub proof fn law_connect_touches_only_its_pair(
    pins: Seq<PinState>,
    channel: TestChannel,
    target: Target,
)
    requires
        pins.len() == PIN_COUNT,
    ensures
        after_connect(pins, channel, target).len() == pins.len(),
        after_connect(pins, channel, target)[channel_line(channel)] == (PinState {
            latch: Level::High,
            ..pins[channel_line(channel)]
        }),
        after_connect(pins, channel, target)[target_line(target)] == (PinState {
            latch: Level::High,
            ..pins[target_line(target)]
        }),
        pins[channel_line(channel)].direction == Direction::Output && pins[target_line(
            target,
        )].direction == Direction::Output ==> routed(
            after_connect(pins, channel, target),
            channel,
            target,
        ),
        switches_configured(pins) ==> routed(after_connect(pins, channel, target), channel, target),
        forall|i: int|
            0 <= i < PIN_COUNT && i != channel_line(channel) && i != target_line(target)
                ==> #[trigger] after_connect(pins, channel, target)[i] == pins[i],
        forall|c: TestChannel, t: Target|
            c != channel && t != target ==> #[trigger] routed(after_connect(pins, channel, target), c, t)
                == routed(pins, c, t),
        forall|c: TestChannel, t: Target|
            routed(pins, c, t) ==> #[trigger] routed(after_connect(pins, channel, target), c, t),
{
    let after = after_connect(pins, channel, target);
    if switches_configured(pins) {
        assert(pins[channel_line(channel)].direction == Direction::Output);
        assert(pins[target_line(target)].direction == Direction::Output);
    }
    assert forall|c: TestChannel, t: Target| c != channel && t != target implies #[trigger] routed(
        after,
        c,
        t,
    ) == routed(pins, c, t) by {
        assert(channel_line(c) != channel_line(channel));
        assert(target_line(t) != target_line(target));
    }
}

/// Opening every switch and then connecting one pair routes that pair
/// exactly if its two switch pins are outputs, and changes the direction of
/// no pin.
pub proof fn law_fresh_route(pins: Seq<PinState>, channel: TestChannel, target: Target)
    requires
        pins.len() == PIN_COUNT,
    ensures
        after_connect(after_disconnect(pins), channel, target).len() == pins.len(),
        routed(after_connect(after_disconnect(pins), channel, target), channel, target) == (
        pins[channel_line(channel)].direction == Direction::Output && pins[target_line(
            target,
        )].direction == Direction::Output),
        forall|i: int|
            0 <= i < PIN_COUNT ==> (#[trigger] after_connect(
                after_disconnect(pins),
                channel,
                target,
            )[i]).direction == pins[i].direction,
        forall|c: TestChannel, t: Target|
            routed(after_connect(after_disconnect(pins), channel, target), c, t) ==> c == channel
                && t == target,
{
    let after = after_connect(after_disconnect(pins), channel, target);
    assert forall|c: TestChannel, t: Target| routed(after, c, t) implies c == channel && t
        == target by {
        if c != channel {
            assert(channel_line(c) != channel_line(channel));
            assert(!after[channel_line(c)].asserted());
        }
        if t != target {
            assert(target_line(t) != target_line(target));
            assert(!after[target_line(t)].asserted());
        }
    }
}

/// Whether a daughterboard is reported depends on the presence pin alone:
/// two controllers whose presence pins agree report the same, whatever
/// routes either of them holds, and the report is `true` exactly if the
/// pin reads high.
pub proof fn law_presence_ignores_routes(a: RoutingController, b: RoutingController)
    requires
        a.wf(),
        b.wf(),
        a.bus.pins()[PRESENCE_PIN as int] == b.bus.pins()[PRESENCE_PIN as int],
    ensures
        a.presence() == b.presence(),
        a.presence() == (a.bus.pins()[PRESENCE_PIN as int].level() == Level::High),
{
}

/// Neither connecting nor a full disconnect changes what the presence pin reads.
pub proof fn law_routing_keeps_presence(pins: Seq<PinState>, channel: TestChannel, target: Target)
    requires
        pins.len() == PIN_COUNT,
    ensures
        after_connect(pins, channel, target)[PRESENCE_PIN as int] == pins[PRESENCE_PIN as int],
        after_disconnect(pins)[PRESENCE_PIN as int] == pins[PRESENCE_PIN as int],
{
}

} // verus!
