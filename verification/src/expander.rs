//! A sixteen-pin I/O expander as the controller sees it: for every pin a
//! direction, an output latch and the level that the outside world puts on
//! the line, together with a journal of the operations issued to the chip.

use vstd::prelude::*;
use crate::error::ErrorKind;
use crate::signal::Level;

verus! {

/// How many pins an expander has.
pub const PIN_COUNT: u8 = 16;

#[derive(Clone, Copy, Debug, PartialEq, Eq, Structural)]
pub enum Direction {
    Input,
    Output,
}

/// What is known of one pin.
#[derive(Clone, Copy, Debug, PartialEq, Eq, Structural)]
pub struct PinState {
    pub direction: Direction,
    /// The level last written; it drives the line only while the pin is an output.
    pub latch: Level,
    /// The level that the outside puts on the line; it is read while the pin is an input.
    pub line: Level,
}

impl PinState {
    /// A pin after power-on: an input, with the latch high.
    pub open spec fn power_on() -> PinState {
        PinState { direction: Direction::Input, latch: Level::High, line: Level::Low }
    }

    /// The level that a read of the pin returns.
    pub open spec fn level(self) -> Level {
        if self.direction == Direction::Output {
            self.latch
        } else {
            self.line
        }
    }

    /// Whether the pin drives its line high.
    pub open spec fn asserted(self) -> bool {
        self.direction == Direction::Output && self.latch == Level::High
    }

    pub fn read(&self) -> (r: Level)
        ensures
            r == self.level(),
    {
        match self.direction {
            Direction::Output => self.latch,
            Direction::Input => self.line,
        }
    }

    pub fn is_asserted(&self) -> (r: bool)
        ensures
            r == self.asserted(),
    {
        match (self.direction, self.latch) {
            (Direction::Output, Level::High) => true,
            _ => false,
        }
    }
}

/// One operation on one pin of the chip.
#[derive(Clone, Copy, Debug, PartialEq, Eq, Structural)]
pub enum PinOp {
    IntoInput(u8),
    IntoOutput(u8),
    SetHigh(u8),
    SetLow(u8),
}

impl PinOp {
    /// The pin that the operation is about.
    pub open spec fn pin(self) -> u8 {
        match self {
            PinOp::IntoInput(p) => p,
            PinOp::IntoOutput(p) => p,
            PinOp::SetHigh(p) => p,
            PinOp::SetLow(p) => p,
        }
    }

    /// What the operation makes of the state of its pin.
    pub open spec fn effect(self, s: PinState) -> PinState {
        match self {
            PinOp::IntoInput(_) => PinState { direction: Direction::Input, ..s },
            PinOp::IntoOutput(_) => PinState { direction: Direction::Output, ..s },
            PinOp::SetHigh(_) => PinState { latch: Level::High, ..s },
            PinOp::SetLow(_) => PinState { latch: Level::Low, ..s },
        }
    }

    /// The operation that writes `level` to the latch of pin `index`.
    pub open spec fn write(index: u8, level: Level) -> PinOp {
        if level.high() {
            PinOp::SetHigh(index)
        } else {
            PinOp::SetLow(index)
        }
    }

    /// The operation that gives pin `index` the direction `direction`.
    pub open spec fn configure(index: u8, direction: Direction) -> PinOp {
        if direction == Direction::Output {
            PinOp::IntoOutput(index)
        } else {
            PinOp::IntoInput(index)
        }
    }

    pub fn target_pin(&self) -> (r: u8)
        ensures
            r == self.pin(),
    {
        match self {
            PinOp::IntoInput(p) => *p,
            PinOp::IntoOutput(p) => *p,
            PinOp::SetHigh(p) => *p,
            PinOp::SetLow(p) => *p,
        }
    }

    pub fn apply_to(&self, s: PinState) -> (r: PinState)
        ensures
            r == self.effect(s),
    {
        match self {
            PinOp::IntoInput(_) => PinState { direction: Direction::Input, latch: s.latch, line: s.line },
            PinOp::IntoOutput(_) => PinState { direction: Direction::Output, latch: s.latch, line: s.line },
            PinOp::SetHigh(_) => PinState { direction: s.direction, latch: Level::High, line: s.line },
            PinOp::SetLow(_) => PinState { direction: s.direction, latch: Level::Low, line: s.line },
        }
    }
}

/// The pins after one operation: only the pin that the operation names changes.
pub open spec fn apply_op(pins: Seq<PinState>, op: PinOp) -> Seq<PinState> {
    if (op.pin() as int) < pins.len() {
        pins.update(op.pin() as int, op.effect(pins[op.pin() as int]))
    } else {
        pins
    }
}

/// The pins after a sequence of operations, first to last.
pub open spec fn apply_ops(pins: Seq<PinState>, ops: Seq<PinOp>) -> Seq<PinState>
    decreases ops.len(),
{
    if ops.len() == 0 {
        pins
    } else {
        apply_op(apply_ops(pins, ops.drop_last()), ops.last())
    }
}

/// Applying `a` and then `b` is applying their concatenation.
pub proof fn lemma_apply_ops_concat(pins: Seq<PinState>, a: Seq<PinOp>, b: Seq<PinOp>)
    ensures
        apply_ops(pins, a + b) == apply_ops(apply_ops(pins, a), b),
    decreases b.len(),
{
    if b.len() == 0 {
        assert(a + b =~= a);
    } else {
        assert((a + b).drop_last() =~= a + b.drop_last());
        assert((a + b).last() == b.last());
        lemma_apply_ops_concat(pins, a, b.drop_last());
    }
}

/// Applying a sequence of one operation is applying that operation.
pub proof fn lemma_apply_ops_one(pins: Seq<PinState>, op: PinOp)
    ensures
        apply_ops(pins, seq![op]) == apply_op(pins, op),
{
    assert(seq![op].drop_last() =~= Seq::<PinOp>::empty());
    assert(seq![op].last() == op);
    reveal_with_fuel(apply_ops, 2);
}

/// Whether bit `index` of `word` is set.
pub open spec fn bit_of(word: u16, index: u8) -> bool {
    (word >> index) & 1u16 == 1u16
}

/// The pins after a batch write: each pin that `mask` selects takes the
/// level that `levels` gives it, every other pin stays.
pub open spec fn after_batch(pins: Seq<PinState>, mask: u16, levels: u16) -> Seq<PinState> {
    Seq::new(
        pins.len(),
        |i: int|
            if bit_of(mask, i as u8) {
                PinState { latch: Level::of(bit_of(levels, i as u8)), ..pins[i] }
            } else {
                pins[i]
            },
    )
}

/// The operations of a batch write on the first `n` pins, lowest pin first.
pub open spec fn batch_plan(mask: u16, levels: u16, n: nat) -> Seq<PinOp>
    decreases n,
{
    if n == 0 {
        Seq::empty()
    } else if bit_of(mask, (n - 1) as u8) {
        batch_plan(mask, levels, (n - 1) as nat).push(
            PinOp::write((n - 1) as u8, Level::of(bit_of(levels, (n - 1) as u8))),
        )
    } else {
        batch_plan(mask, levels, (n - 1) as nat)
    }
}

/// One of the two banks of eight pins that the chip is made of.
#[derive(Clone, Copy, Debug, PartialEq, Eq, Structural)]
pub enum Bank {
    Bank0,
    Bank1,
}

impl Bank {
    /// The index of the first pin of the bank.
    pub open spec fn first_pin(self) -> int {
        match self {
            Bank::Bank0 => 0,
            Bank::Bank1 => 8,
        }
    }
}

/// The bank that holds pin `index` and the place of the pin in it, from 0
/// to 7; `None` from 16 on.
pub fn locate(index: u8) -> (r: Option<(Bank, u8)>)
    ensures
        index >= PIN_COUNT ==> r.is_none(),
        index < PIN_COUNT ==> (r matches Some(place) && place.1 < 8 && place.0.first_pin() + place.1
            == index),
{
    if index < 8 {
        Some((Bank::Bank0, index))
    } else if index < PIN_COUNT {
        Some((Bank::Bank1, index - 8))
    } else {
        None
    }
}

/// The expander of one board position.
pub struct ExpanderBus {
    pins: Vec<PinState>,
    journal: Vec<PinOp>,
    responding: bool,
}

impl ExpanderBus {
    /// The state of the sixteen pins.
    pub closed spec fn pins(&self) -> Seq<PinState> {
        self.pins@
    }

    /// The operations issued so far and not yet taken out, oldest first.
    pub closed spec fn journal(&self) -> Seq<PinOp> {
        self.journal@
    }

    /// Whether the chip answers at its address.
    pub closed spec fn responding(&self) -> bool {
        self.responding
    }

    pub open spec fn wf(&self) -> bool {
        self.pins().len() == PIN_COUNT
    }

    /// Whether two expanders agree in everything that can be observed.
    pub open spec fn same_as(&self, other: &ExpanderBus) -> bool {
        &&& self.pins() == other.pins()
        &&& self.journal() == other.journal()
        &&& self.responding() == other.responding()
    }

    /// An expander after power-on, answering, with an empty journal.
    pub fn new() -> (r: ExpanderBus)
        ensures
            r.wf(),
            r.responding(),
            r.journal() == Seq::<PinOp>::empty(),
            forall|i: int| 0 <= i < PIN_COUNT ==> r.pins()[i] == PinState::power_on(),
    {
        let mut pins: Vec<PinState> = Vec::new();
        let mut i: u8 = 0;
        while i < PIN_COUNT
            invariant
                i <= PIN_COUNT,
                pins@.len() == i,
                forall|j: int| 0 <= j < i ==> pins@[j] == PinState::power_on(),
            decreases PIN_COUNT - i,
        {
            pins.push(PinState { direction: Direction::Input, latch: Level::High, line: Level::Low });
            i = i + 1;
        }
        ExpanderBus { pins, journal: Vec::new(), responding: true }
    }

    /// Makes the chip answer, or stop answering, from now on.
    pub fn set_responding(&mut self, responding: bool)
        ensures
            final(self).responding() == responding,
            final(self).pins() == old(self).pins(),
            final(self).journal() == old(self).journal(),
    {
        self.responding = responding;
    }

    pub fn is_responding(&self) -> (r: bool)
        ensures
            r == self.responding(),
    {
        self.responding
    }

    /// Puts `level` on the line of pin `index` from outside, as a seated
    /// module or a probe would. Nothing is sent to the chip. An index from 16
    /// on names no line, and nothing changes.
    pub fn drive_line(&mut self, index: u8, level: Level)
        requires
            old(self).wf(),
        ensures
            final(self).wf(),
            final(self).journal() == old(self).journal(),
            final(self).responding() == old(self).responding(),
            index < PIN_COUNT ==> final(self).pins() == old(self).pins().update(
                index as int,
                (PinState { line: level, ..old(self).pins()[index as int] }),
            ),
            index >= PIN_COUNT ==> final(self).pins() == old(self).pins(),
    {
        if index < PIN_COUNT {
            let s = self.pins[index as usize];
            self.pins.set(index as usize, PinState { direction: s.direction, latch: s.latch, line: level });
        }
    }

    /// Issues one operation to the chip. A pin from 16 on is `OutOfRange`;
    /// a chip that does not answer is a `BusError`; in both cases nothing
    /// changes. Otherwise the pin changes as the operation says and the
    /// operation is added to the journal.
    pub fn issue(&mut self, op: PinOp) -> (r: Result<(), ErrorKind>)
        requires
            old(self).wf(),
        ensures
            final(self).wf(),
            final(self).responding() == old(self).responding(),
            op.pin() >= PIN_COUNT ==> r == Err::<(), ErrorKind>(ErrorKind::OutOfRange),
            op.pin() < PIN_COUNT && !old(self).responding() ==> r == Err::<(), ErrorKind>(
                ErrorKind::BusError,
            ),
            op.pin() < PIN_COUNT && old(self).responding() ==> r.is_ok(),
            r.is_ok() ==> final(self).pins() == apply_op(old(self).pins(), op)
                && final(self).journal() == old(self).journal().push(op),
            r.is_err() ==> final(self).same_as(old(self)),
    {
        let index = op.target_pin();
        if index >= PIN_COUNT {
            return Err(ErrorKind::OutOfRange);
        }
        if !self.responding {
            return Err(ErrorKind::BusError);
        }
        let s = self.pins[index as usize];
        self.pins.set(index as usize, op.apply_to(s));
        self.journal.push(op);
        Ok(())
    }

    /// Writes `level` to the latch of pin `index`.
    pub fn write_pin(&mut self, index: u8, level: Level) -> (r: Result<(), ErrorKind>)
        requires
            old(self).wf(),
        ensures
            final(self).wf(),
            final(self).responding() == old(self).responding(),
            index >= PIN_COUNT ==> r == Err::<(), ErrorKind>(ErrorKind::OutOfRange),
            index < PIN_COUNT && !old(self).responding() ==> r == Err::<(), ErrorKind>(
                ErrorKind::BusError,
            ),
            index < PIN_COUNT && old(self).responding() ==> r.is_ok(),
            r.is_ok() ==> final(self).pins() == apply_op(old(self).pins(), PinOp::write(index, level))
                && final(self).journal() == old(self).journal().push(PinOp::write(index, level)),
            r.is_err() ==> final(self).same_as(old(self)),
    {
        match level {
            Level::High => self.issue(PinOp::SetHigh(index)),
            Level::Low => self.issue(PinOp::SetLow(index)),
        }
    }

    /// Writes several latches at once: bit `i` of `mask` selects pin `i`,
    /// and bit `i` of `levels` is the level that it takes, 1 for high.
    pub fn write_pins(&mut self, mask: u16, levels: u16) -> (r: Result<(), ErrorKind>)
        requires
            old(self).wf(),
        ensures
            final(self).wf(),
            final(self).responding() == old(self).responding(),
            old(self).responding() ==> r.is_ok(),
            !old(self).responding() ==> r == Err::<(), ErrorKind>(ErrorKind::BusError),
            r.is_ok() ==> final(self).pins() == after_batch(old(self).pins(), mask, levels)
                && final(self).journal() == old(self).journal() + batch_plan(
                mask,
                levels,
                PIN_COUNT as nat,
            ),
            r.is_err() ==> final(self).same_as(old(self)),
    {
        if !self.responding {
            return Err(ErrorKind::BusError);
        }
        let ghost start = self.pins();
        let ghost log = self.journal();
        let mut i: u8 = 0;
        while i < PIN_COUNT
            invariant
                i <= PIN_COUNT,
                self.wf(),
                self.responding(),
                start.len() == PIN_COUNT,
                forall|j: int| 0 <= j < i ==> self.pins()[j] == after_batch(start, mask, levels)[j],
                forall|j: int| i <= j < PIN_COUNT ==> self.pins()[j] == start[j],
                self.journal() == log + batch_plan(mask, levels, i as nat),
            decreases PIN_COUNT - i,
        {
            if (mask >> i) & 1u16 == 1u16 {
                let level = Level::from_bool((levels >> i) & 1u16 == 1u16);
                let wrote = self.write_pin(i, level);
                if wrote.is_err() {
                    return wrote;
                }
            }
            assert(self.journal() =~= log + batch_plan(mask, levels, (i + 1) as nat));
            i = i + 1;
        }
        assert(self.pins() =~= after_batch(start, mask, levels));
        Ok(())
    }

    /// Gives pin `index` the direction `direction`.
    pub fn configure_pin(&mut self, index: u8, direction: Direction) -> (r: Result<(), ErrorKind>)
        requires
            old(self).wf(),
        ensures
            final(self).wf(),
            final(self).responding() == old(self).responding(),
            index >= PIN_COUNT ==> r == Err::<(), ErrorKind>(ErrorKind::OutOfRange),
            index < PIN_COUNT && !old(self).responding() ==> r == Err::<(), ErrorKind>(
                ErrorKind::BusError,
            ),
            index < PIN_COUNT && old(self).responding() ==> r.is_ok(),
            r.is_ok() ==> final(self).pins() == apply_op(
                old(self).pins(),
                PinOp::configure(index, direction),
            ) && final(self).journal() == old(self).journal().push(
                PinOp::configure(index, direction),
            ),
            r.is_err() ==> final(self).same_as(old(self)),
    {
        match direction {
            Direction::Output => self.issue(PinOp::IntoOutput(index)),
            Direction::Input => self.issue(PinOp::IntoInput(index)),
        }
    }

    /// Reads pin `index`: the latch of an output, the line of an input. The
    /// level is read anew each time; nothing is cached.
    pub fn read_pin(&self, index: u8) -> (r: Result<Level, ErrorKind>)
        requires
            self.wf(),
        ensures
            index >= PIN_COUNT ==> r == Err::<Level, ErrorKind>(ErrorKind::OutOfRange),
            index < PIN_COUNT && !self.responding() ==> r == Err::<Level, ErrorKind>(
                ErrorKind::BusError,
            ),
            index < PIN_COUNT && self.responding() ==> r == Ok::<Level, ErrorKind>(
                self.pins()[index as int].level(),
            ),
    {
        if index >= PIN_COUNT {
            return Err(ErrorKind::OutOfRange);
        }
        if !self.responding {
            return Err(ErrorKind::BusError);
        }
        Ok(self.pins[index as usize].read())
    }

    /// What is known of pin `index`, or `None` from 16 on.
    pub fn pin_state(&self, index: u8) -> (r: Option<PinState>)
        requires
            self.wf(),
        ensures
            index < PIN_COUNT ==> r == Some(self.pins()[index as int]),
            index >= PIN_COUNT ==> r.is_none(),
    {
        if index < PIN_COUNT {
            Some(self.pins[index as usize])
        } else {
            None
        }
    }

    /// How many operations the journal holds.
    pub fn journal_len(&self) -> (r: usize)
        ensures
            r == self.journal().len(),
    {
        self.journal.len()
    }

    /// Hands out the journal and leaves it empty, so that the operations can
    /// be carried out on the chip itself.
    pub fn take_journal(&mut self) -> (r: Vec<PinOp>)
        ensures
            r@ == old(self).journal(),
            final(self).journal() == Seq::<PinOp>::empty(),
            final(self).pins() == old(self).pins(),
            final(self).responding() == old(self).responding(),
    {
        let mut out: Vec<PinOp> = Vec::new();
        std::mem::swap(&mut self.journal, &mut out);
        out
    }
}

} // verus!
