//! The decode as a state machine. The machine names the next operation on
//! the line or the delay source; its driver carries the operation out and
//! reports back, until the machine says that the decode has ended.

use vstd::prelude::*;
use crate::bits::{packed, BitBuffer, FRAME_BITS};
use crate::frame::{checksum_matches, outcome_bytes, validate, verdict, DecodeError, RawFrame};
use crate::line::{Action, Event, LineMode};
use crate::timing::{
    bit_of, bits_packed_after, carries_bit, classify, data_transitions_before,
    is_data_transition, MAX_TRANSITIONS, POWER_UP_MILLIS, RELEASE_MICROS, START_PULSE_MILLIS,
    TICK_CAP, TICK_MICROS,
};

verus! {

/// A bound on the number of operations that a decode asks of its driver.
pub const MAX_REPORTS: u32 = 43528;

/// Where a decode stands. Each phase has one pending action.
#[derive(Clone, Copy, Debug, PartialEq, Eq, Structural)]
pub enum Phase {
    /// About to drive the line high, its idle level.
    Idle,
    /// Holding the line high while the sensor settles.
    PowerUp,
    /// About to drive the line low.
    StartPulse,
    /// Holding the line low: the start pulse.
    StartHold,
    /// About to drive the line high again.
    Release,
    /// Holding the line high for a moment before listening.
    ReleaseHold,
    /// About to switch the line to input.
    Listen,
    /// Sampling the line for a level other than the last one.
    Watch,
    /// Letting one tick pass after a sample that showed no change.
    Tick,
    /// Sampling the line once more after a wait: this level is the one the
    /// next wait compares against.
    Settle,
    /// About to switch the line back to output.
    Restore,
    /// The decode has ended.
    Finished,
}

/// The state of a decode, as its contracts speak of it.
pub struct Machine {
    pub phase: Phase,
    /// The level that the current wait compares samples against.
    pub last: bool,
    /// Ticks counted in the current wait. The cap marks a wait given up.
    pub ticks: nat,
    /// Level changes seen so far.
    pub transitions: nat,
    /// Bits packed so far, in capture order.
    pub bits: Seq<bool>,
}

impl Machine {
    /// The state in which every decode starts.
    pub open spec fn initial() -> Machine {
        Machine { phase: Phase::Idle, last: true, ticks: 0, transitions: 0, bits: Seq::empty() }
    }

    /// The operation that the driver has to carry out next.
    pub open spec fn pending(self) -> Action {
        match self.phase {
            Phase::Idle => Action::DriveHigh,
            Phase::PowerUp => Action::DelayMillis(POWER_UP_MILLIS),
            Phase::StartPulse => Action::DriveLow,
            Phase::StartHold => Action::DelayMillis(START_PULSE_MILLIS),
            Phase::Release => Action::DriveHigh,
            Phase::ReleaseHold => Action::DelayMicros(RELEASE_MICROS),
            Phase::Listen => Action::Listen,
            Phase::Watch => Action::Sample,
            Phase::Tick => Action::DelayMicros(TICK_MICROS),
            Phase::Settle => Action::Sample,
            Phase::Restore => Action::Reclaim,
            Phase::Finished => Action::Finish,
        }
    }

    /// The mode that the line is in, given the operations carried out so
    /// far: input from the moment it was switched to listen until it is
    /// switched back, output before and after.
    pub open spec fn line_mode(self) -> LineMode {
        match self.phase {
            Phase::Watch | Phase::Tick | Phase::Settle | Phase::Restore => LineMode::Input,
            _ => LineMode::Output,
        }
    }

    /// Whether a wait for a level change was given up.
    pub open spec fn timed_out(self) -> bool {
        self.ticks >= TICK_CAP
    }

    /// Whether the decode has ended.
    pub open spec fn finished(self) -> bool {
        self.phase == Phase::Finished
    }

    /// The bits after a transition that took `self.ticks` ticks: a data
    /// transition adds its bit while the frame is not full.
    pub open spec fn bits_after_transition(self) -> Seq<bool> {
        if carries_bit(self.transitions) && self.bits.len() < FRAME_BITS {
            self.bits.push(bit_of(self.ticks))
        } else {
            self.bits
        }
    }

    /// The state after the driver has reported `event`. A report that does
    /// not answer the pending action leaves the state as it is.
    pub open spec fn next(self, event: Event) -> Machine {
        match (self.phase, event) {
            (Phase::Idle, Event::Done) => Machine { phase: Phase::PowerUp, ..self },
            (Phase::PowerUp, Event::Done) => Machine { phase: Phase::StartPulse, ..self },
            (Phase::StartPulse, Event::Done) => Machine { phase: Phase::StartHold, ..self },
            (Phase::StartHold, Event::Done) => Machine { phase: Phase::Release, ..self },
            (Phase::Release, Event::Done) => Machine { phase: Phase::ReleaseHold, ..self },
            (Phase::ReleaseHold, Event::Done) => Machine { phase: Phase::Listen, ..self },
            (Phase::Listen, Event::Done) => Machine { phase: Phase::Watch, ..self },
            (Phase::Watch, Event::Level(level)) => if level != self.last {
                Machine { phase: Phase::Settle, ..self }
            } else {
                Machine { phase: Phase::Tick, ticks: self.ticks + 1, ..self }
            },
            (Phase::Tick, Event::Done) => if self.timed_out() {
                Machine { phase: Phase::Settle, ..self }
            } else {
                Machine { phase: Phase::Watch, ..self }
            },
            (Phase::Settle, Event::Level(level)) => if self.timed_out() {
                Machine { phase: Phase::Restore, last: level, ..self }
            } else {
                Machine {
                    phase: if self.transitions + 1 < MAX_TRANSITIONS {
                        Phase::Watch
                    } else {
                        Phase::Restore
                    },
                    last: level,
                    ticks: 0,
                    transitions: self.transitions + 1,
                    bits: self.bits_after_transition(),
                }
            },
            (Phase::Restore, Event::Done) => Machine { phase: Phase::Finished, ..self },
            _ => self,
        }
    }

    /// What the decode returns: nothing before it has ended, then the
    /// verdict on the bits that were packed.
    pub open spec fn outcome(self) -> Option<Result<Seq<u8>, DecodeError>> {
        if self.finished() {
            Some(verdict(self.bits, self.timed_out()))
        } else {
            None
        }
    }

    /// The state after the driver has reported each of `events` in turn.
    pub open spec fn run(self, events: Seq<Event>) -> Machine
        decreases events.len(),
    {
        if events.len() == 0 {
            self
        } else {
            self.run(events.drop_last()).next(events.last())
        }
    }

    /// The mode of a line that was in `mode` when the machine was in this
    /// state, after the driver has carried out the operations that `events`
    /// report on. A report that does not answer the pending action stands
    /// for no operation.
    pub open spec fn line_after(self, mode: LineMode, events: Seq<Event>) -> LineMode
        decreases events.len(),
    {
        if events.len() == 0 {
            mode
        } else {
            let before = self.run(events.drop_last());
            let mode_before = self.line_after(mode, events.drop_last());
            if before.pending().answered_by(events.last()) {
                before.pending().effect(mode_before)
            } else {
                mode_before
            }
        }
    }

    /// Whether each of `events`, reported in turn from this state on, answers
    /// the action that is pending when it comes.
    pub open spec fn answers_all(self, events: Seq<Event>) -> bool
        decreases events.len(),
    {
        events.len() == 0 || (self.answers_all(events.drop_last()) && self.run(
            events.drop_last(),
        ).pending().answered_by(events.last()))
    }

    /// An upper bound on the number of reports that the machine still takes
    /// before the decode has ended.
    pub open spec fn remaining(self) -> nat {
        let per_transition = 2 * TICK_CAP + 2;
        let capture = (MAX_TRANSITIONS - self.transitions) * per_transition;
        let reports = match self.phase {
            Phase::Idle => capture + 8,
            Phase::PowerUp => capture + 7,
            Phase::StartPulse => capture + 6,
            Phase::StartHold => capture + 5,
            Phase::Release => capture + 4,
            Phase::ReleaseHold => capture + 3,
            Phase::Listen => capture + 2,
            Phase::Watch => capture + 1 - 2 * self.ticks,
            Phase::Tick => capture + 2 - 2 * self.ticks,
            Phase::Settle => capture + 2 - per_transition,
            Phase::Restore => 1,
            Phase::Finished => 0,
        };
        reports as nat
    }

    /// What holds of every state that a decode passes through.
    pub open spec fn wf(self) -> bool {
        &&& self.ticks <= TICK_CAP
        &&& self.transitions <= MAX_TRANSITIONS
        &&& self.bits.len() == bits_packed_after(self.transitions)
        &&& match self.phase {
            Phase::Watch => self.ticks < TICK_CAP && self.transitions < MAX_TRANSITIONS,
            Phase::Tick => 1 <= self.ticks && self.transitions < MAX_TRANSITIONS,
            Phase::Settle => self.transitions < MAX_TRANSITIONS,
            Phase::Restore | Phase::Finished => self.timed_out() || self.transitions
                == MAX_TRANSITIONS,
            _ => self.last && self.ticks == 0 && self.transitions == 0,
        }
    }
}

/// Every report leads from a state that a decode can be in to another such
/// state.
pub proof fn lemma_next_keeps_wf(machine: Machine, event: Event)
    requires
        machine.wf(),
    ensures
        machine.next(event).wf(),
{
}

/// Whatever the driver reports, in whatever order, the machine stays in a
/// state that a decode can be in.
pub proof fn lemma_run_keeps_wf(machine: Machine, events: Seq<Event>)
    requires
        machine.wf(),
    ensures
        machine.run(events).wf(),
    decreases events.len(),
{
    if events.len() > 0 {
        lemma_run_keeps_wf(machine, events.drop_last());
        lemma_next_keeps_wf(machine.run(events.drop_last()), events.last());
    }
}

/// The machine asks the line only for what its mode admits, and knows the
/// mode that the line is in afterwards. A report that does not answer the
/// pending action changes nothing.
pub proof fn lemma_actions_fit_line_mode(machine: Machine, event: Event)
    requires
        machine.wf(),
    ensures
        machine.pending().permitted(machine.line_mode()),
        machine.pending().answered_by(event) ==> machine.next(event).line_mode()
            == machine.pending().effect(machine.line_mode()),
        !machine.pending().answered_by(event) ==> machine.next(event) == machine,
{
}

/// The line is left in output mode after every decode, whether it succeeded
/// or failed: for a line that is an output when the decode starts, and
/// whatever the driver reports, every operation that the machine asks for is
/// admitted by the mode that the line is then in, and once the decode has
/// ended the line is an output again.
pub proof fn lemma_line_restored(events: Seq<Event>)
    ensures
        Machine::initial().line_after(LineMode::Output, events) == Machine::initial().run(
            events,
        ).line_mode(),
        Machine::initial().run(events).pending().permitted(
            Machine::initial().line_after(LineMode::Output, events),
        ),
        Machine::initial().run(events).finished() ==> Machine::initial().line_after(
            LineMode::Output,
            events,
        ) == LineMode::Output,
    decreases events.len(),
{
    let start = Machine::initial();
    lemma_run_keeps_wf(start, events);
    if events.len() > 0 {
        lemma_line_restored(events.drop_last());
        lemma_run_keeps_wf(start, events.drop_last());
        lemma_actions_fit_line_mode(start.run(events.drop_last()), events.last());
    }
    lemma_actions_fit_line_mode(start.run(events), Event::Done);
}

/// A wait that is given up ends the packing of bits for the whole capture.
/// Where that happens before the transitions that carry the forty bits have
/// all been seen, no later report adds a bit, and the decode fails with a
/// timeout.
pub proof fn lemma_timeout_aborts(machine: Machine, events: Seq<Event>)
    requires
        machine.wf(),
        machine.timed_out(),
        data_transitions_before(machine.transitions) < FRAME_BITS,
    ensures
        machine.run(events).timed_out(),
        machine.run(events).transitions == machine.transitions,
        machine.run(events).bits == machine.bits,
        machine.run(events).bits.len() < FRAME_BITS,
        machine.run(events).finished() ==> machine.run(events).outcome() == Some(
            Err::<Seq<u8>, DecodeError>(DecodeError::Timeout),
        ),
    decreases events.len(),
{
    if events.len() > 0 {
        lemma_timeout_aborts(machine, events.drop_last());
        lemma_run_keeps_wf(machine, events.drop_last());
    }
}

/// Every report that answers the pending action brings the end of the decode
/// nearer.
pub proof fn lemma_step_makes_progress(machine: Machine, event: Event)
    requires
        machine.wf(),
        machine.pending().answered_by(event),
    ensures
        machine.next(event).remaining() < machine.remaining(),
        machine.remaining() == 0 <==> machine.finished(),
{
}

/// A decode comes to its end: a driver that answers each action has used up
/// a part of the bound on the reports with every report, so it is never asked
/// for more than `Machine::initial().remaining()` operations.
pub proof fn lemma_decode_ends(machine: Machine, events: Seq<Event>)
    requires
        machine.wf(),
        machine.answers_all(events),
    ensures
        machine.run(events).remaining() + events.len() <= machine.remaining(),
        Machine::initial().remaining() == MAX_REPORTS,
    decreases events.len(),
{
    if events.len() > 0 {
        lemma_decode_ends(machine, events.drop_last());
        lemma_run_keeps_wf(machine, events.drop_last());
        lemma_step_makes_progress(machine.run(events.drop_last()), events.last());
    }
}

/// A decode in progress.
///
/// The driver asks for the pending action, carries it out on the line or the
/// delay source, and reports back with `step`, which names the next action.
/// It does so until the action is `Finish`; `outcome` then holds the frame or
/// the reason why there is none.
#[derive(Clone, Copy, Debug, PartialEq, Eq)]
pub struct Decoder {
    phase: Phase,
    last: bool,
    ticks: u8,
    transitions: u8,
    bits: BitBuffer,
}

impl View for Decoder {
    type V = Machine;

    closed spec fn view(&self) -> Machine {
        Machine {
            phase: self.phase,
            last: self.last,
            ticks: self.ticks as nat,
            transitions: self.transitions as nat,
            bits: self.bits@,
        }
    }
}

impl Decoder {
    #[verifier::type_invariant]
    spec fn well_formed(self) -> bool {
        self@.wf()
    }

    /// A decode that has not begun. The line is expected in output mode.
    pub fn new() -> (decoder: Decoder)
        ensures
            decoder@ == Machine::initial(),
    {
        Decoder { phase: Phase::Idle, last: true, ticks: 0, transitions: 0, bits: BitBuffer::new() }
    }

    /// The operation that the driver has to carry out next.
    pub fn pending(&self) -> (action: Action)
        ensures
            action == self@.pending(),
            self@.wf(),
    {
        proof {
            use_type_invariant(self);
        }
        match self.phase {
            Phase::Idle => Action::DriveHigh,
            Phase::PowerUp => Action::DelayMillis(POWER_UP_MILLIS),
            Phase::StartPulse => Action::DriveLow,
            Phase::StartHold => Action::DelayMillis(START_PULSE_MILLIS),
            Phase::Release => Action::DriveHigh,
            Phase::ReleaseHold => Action::DelayMicros(RELEASE_MICROS),
            Phase::Listen => Action::Listen,
            Phase::Watch => Action::Sample,
            Phase::Tick => Action::DelayMicros(TICK_MICROS),
            Phase::Settle => Action::Sample,
            Phase::Restore => Action::Reclaim,
            Phase::Finished => Action::Finish,
        }
    }

    /// Takes the driver's report on the pending action and returns the
    /// action that is pending then.
    pub fn step(&mut self, event: Event) -> (action: Action)
        ensures
            final(self)@ == old(self)@.next(event),
            action == final(self)@.pending(),
            final(self)@.wf(),
    {
        proof {
            use_type_invariant(&*self);
        }
        let mut phase = self.phase;
        let mut last = self.last;
        let mut ticks = self.ticks;
        let mut transitions = self.transitions;
        let mut bits = self.bits;
        match (self.phase, event) {
            (Phase::Idle, Event::Done) => {
                phase = Phase::PowerUp;
            },
            (Phase::PowerUp, Event::Done) => {
                phase = Phase::StartPulse;
            },
            (Phase::StartPulse, Event::Done) => {
                phase = Phase::StartHold;
            },
            (Phase::StartHold, Event::Done) => {
                phase = Phase::Release;
            },
            (Phase::Release, Event::Done) => {
                phase = Phase::ReleaseHold;
            },
            (Phase::ReleaseHold, Event::Done) => {
                phase = Phase::Listen;
            },
            (Phase::Listen, Event::Done) => {
                phase = Phase::Watch;
            },
            (Phase::Watch, Event::Level(level)) => {
                if level != last {
                    phase = Phase::Settle;
                } else {
                    ticks = ticks + 1;
                    phase = Phase::Tick;
                }
            },
            (Phase::Tick, Event::Done) => {
                if ticks == TICK_CAP {
                    phase = Phase::Settle;
                } else {
                    phase = Phase::Watch;
                }
            },
            (Phase::Settle, Event::Level(level)) => {
                last = level;
                if ticks == TICK_CAP {
                    phase = Phase::Restore;
                } else {
                    if is_data_transition(transitions) {
                        bits.push(classify(ticks));
                    }
                    transitions = transitions + 1;
                    ticks = 0;
                    if transitions < MAX_TRANSITIONS {
                        phase = Phase::Watch;
                    } else {
                        phase = Phase::Restore;
                    }
                }
            },
            (Phase::Restore, Event::Done) => {
                phase = Phase::Finished;
            },
            _ => {},
        }
        *self = Decoder { phase, last, ticks, transitions, bits };
        self.pending()
    }

    /// Whether the decode has ended.
    pub fn is_finished(&self) -> (finished: bool)
        ensures
            finished == self@.finished(),
    {
        self.phase == Phase::Finished
    }

    /// The mode that the line is in, given the operations carried out so far.
    pub fn line_mode(&self) -> (mode: LineMode)
        ensures
            mode == self@.line_mode(),
    {
        match self.phase {
            Phase::Watch | Phase::Tick | Phase::Settle | Phase::Restore => LineMode::Input,
            _ => LineMode::Output,
        }
    }

    /// The number of bits packed so far.
    pub fn bit_count(&self) -> (count: u8)
        ensures
            count == self@.bits.len(),
            count <= FRAME_BITS,
    {
        self.bits.len()
    }

    /// The number of level changes seen so far.
    pub fn transition_count(&self) -> (count: u8)
        ensures
            count == self@.transitions,
    {
        self.transitions
    }

    /// Whether a wait for a level change was given up.
    pub fn timed_out(&self) -> (timed_out: bool)
        ensures
            timed_out == self@.timed_out(),
    {
        self.ticks == TICK_CAP
    }

    /// What the decode returns: nothing before it has ended, then the frame
    /// or the reason why there is none.
    pub fn outcome(&self) -> (outcome: Option<Result<RawFrame, DecodeError>>)
        ensures
            match outcome {
                Some(result) => self@.outcome() == Some(outcome_bytes(result)),
                None => self@.outcome() is None,
            },
            outcome is Some <==> self@.finished(),
            outcome matches Some(Ok(frame)) ==> self@.bits.len() == FRAME_BITS && frame@ == packed(
                self@.bits,
            ) && checksum_matches(frame@),
    {
        if self.is_finished() {
            Some(validate(&self.bits, self.timed_out()))
        } else {
            None
        }
    }
}

} // verus!
