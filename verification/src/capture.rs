//! The capture as a function of the levels that the line shows, and a driver
//! that runs a decode against a scripted line.

use vstd::prelude::*;
use crate::bits::FRAME_BITS;
use crate::decoder::{lemma_step_makes_progress, Decoder, Machine, Phase};
use crate::frame::{verdict, DecodeError};
use crate::line::{Action, Event, LineMode};
use crate::timing::{
    bit_of, bits_packed_after, carries_bit, data_transitions_before, MAX_TRANSITIONS, TICK_CAP,
};

verus! {

/// What a capture has gathered when it ends.
pub struct Capture {
    /// The bits that were packed, in capture order.
    pub bits: Seq<bool>,
    /// Whether the capture ended because a wait was given up.
    pub timed_out: bool,
    /// The number of level changes that were seen.
    pub transitions: nat,
}

/// The level that a scripted line shows at its sample number `index`: the
/// script while it lasts, the idle level from then on.
pub open spec fn level_at(script: Seq<bool>, idle: bool, index: int) -> bool {
    if 0 <= index < script.len() {
        script[index]
    } else {
        idle
    }
}

/// The ticks counted by a wait that begins at sample `from`, compares against
/// `last` and has counted `counted` ticks already: one for each further
/// sample that shows `last`, up to the first sample that differs or to the
/// cap.
pub open spec fn wait_ticks(script: Seq<bool>, idle: bool, from: int, last: bool, counted: nat) -> nat
    decreases TICK_CAP - counted,
{
    if counted >= TICK_CAP {
        TICK_CAP as nat
    } else if level_at(script, idle, from + counted) != last {
        counted
    } else {
        wait_ticks(script, idle, from, last, counted + 1)
    }
}

/// The bits after a transition with index `transition` that took `ticks`
/// ticks: a data transition adds its bit while the frame is not full.
pub open spec fn bits_after(bits: Seq<bool>, transition: nat, ticks: nat) -> Seq<bool> {
    if carries_bit(transition) && bits.len() < FRAME_BITS {
        bits.push(bit_of(ticks))
    } else {
        bits
    }
}

/// The rest of a capture whose next wait begins at sample `from` and compares
/// against `last`, after `transition` level changes and with `bits` packed.
///
/// A wait that reaches the cap ends the capture. Any other wait takes one
/// sample per tick and one that shows the change; the sample after that is
/// the level that the next wait compares against.
pub open spec fn capture_from(
    script: Seq<bool>,
    idle: bool,
    from: int,
    last: bool,
    transition: nat,
    bits: Seq<bool>,
) -> Capture
    decreases MAX_TRANSITIONS - transition,
{
    if transition >= MAX_TRANSITIONS {
        Capture { bits, timed_out: false, transitions: transition }
    } else {
        let ticks = wait_ticks(script, idle, from, last, 0);
        if ticks >= TICK_CAP {
            Capture { bits, timed_out: true, transitions: transition }
        } else {
            capture_from(
                script,
                idle,
                from + ticks + 2,
                level_at(script, idle, from + ticks + 1),
                transition + 1,
                bits_after(bits, transition, ticks),
            )
        }
    }
}

/// The capture that a scripted line yields. The first wait compares against
/// a high level.
pub open spec fn capture(script: Seq<bool>, idle: bool) -> Capture {
    capture_from(script, idle, 0, true, 0, Seq::empty())
}

/// What a decode against a scripted line returns.
pub open spec fn decoded(script: Seq<bool>, idle: bool) -> Result<Seq<u8>, DecodeError> {
    verdict(capture(script, idle).bits, capture(script, idle).timed_out)
}

/// A wait during which the line shows nothing but the level it compares
/// against, up to the cap, is given up.
pub proof fn lemma_wait_reaches_cap(
    script: Seq<bool>,
    idle: bool,
    from: int,
    last: bool,
    counted: nat,
)
    requires
        forall|k: int|
            from + counted <= k < from + TICK_CAP ==> #[trigger] level_at(script, idle, k) == last,
    ensures
        wait_ticks(script, idle, from, last, counted) == TICK_CAP,
    decreases TICK_CAP - counted,
{
    if counted < TICK_CAP {
        lemma_wait_reaches_cap(script, idle, from, last, counted + 1);
    }
}

/// What the rest of a capture adds up to: it ends after at most the maximum
/// number of transitions, by a wait given up exactly where it ends earlier,
/// with one bit packed for each data transition seen while the frame was not
/// full.
pub proof fn lemma_capture_from_shape(
    script: Seq<bool>,
    idle: bool,
    from: int,
    last: bool,
    transition: nat,
    bits: Seq<bool>,
)
    requires
        transition <= MAX_TRANSITIONS,
        bits.len() == bits_packed_after(transition),
    ensures
        transition <= capture_from(script, idle, from, last, transition, bits).transitions
            <= MAX_TRANSITIONS,
        capture_from(script, idle, from, last, transition, bits).timed_out <==> capture_from(
            script,
            idle,
            from,
            last,
            transition,
            bits,
        ).transitions < MAX_TRANSITIONS,
        capture_from(script, idle, from, last, transition, bits).bits.len() == bits_packed_after(
            capture_from(script, idle, from, last, transition, bits).transitions,
        ),
    decreases MAX_TRANSITIONS - transition,
{
    if transition < MAX_TRANSITIONS {
        let ticks = wait_ticks(script, idle, from, last, 0);
        if ticks < TICK_CAP {
            lemma_capture_from_shape(
                script,
                idle,
                from + ticks + 2,
                level_at(script, idle, from + ticks + 1),
                transition + 1,
                bits_after(bits, transition, ticks),
            );
        }
    }
}

/// A capture that ends without a timeout has packed a whole frame, so no
/// decode against a line ends as incomplete.
pub proof fn lemma_capture_is_never_short(script: Seq<bool>, idle: bool)
    ensures
        !capture(script, idle).timed_out ==> capture(script, idle).bits.len() == FRAME_BITS,
        decoded(script, idle) != Err::<Seq<u8>, DecodeError>(DecodeError::Incomplete),
{
    lemma_capture_from_shape(script, idle, 0, true, 0, Seq::empty());
}

/// A wait given up before the transitions that carry the forty bits have all
/// been seen leaves fewer than forty bits packed, and the decode fails with a
/// timeout, however many bits were packed before.
pub proof fn lemma_early_timeout_fails(script: Seq<bool>, idle: bool)
    requires
        capture(script, idle).timed_out,
        data_transitions_before(capture(script, idle).transitions) < FRAME_BITS,
    ensures
        capture(script, idle).bits.len() < FRAME_BITS,
        decoded(script, idle) == Err::<Seq<u8>, DecodeError>(DecodeError::Timeout),
{
    lemma_capture_from_shape(script, idle, 0, true, 0, Seq::empty());
}

/// A line that stays high for the whole of the first wait yields no bit: the
/// capture ends at once, and the decode fails with a timeout.
pub proof fn lemma_silent_line_times_out(script: Seq<bool>, idle: bool)
    requires
        forall|k: int| 0 <= k < TICK_CAP ==> #[trigger] level_at(script, idle, k),
    ensures
        capture(script, idle) == (Capture {
            bits: Seq::empty(),
            timed_out: true,
            transitions: 0,
        }),
        decoded(script, idle) == Err::<Seq<u8>, DecodeError>(DecodeError::Timeout),
{
    lemma_wait_reaches_cap(script, idle, 0, true, 0);
}

/// Whether a machine in state `machine` is on its way to the capture that the
/// scripted line yields, with its current wait begun at sample `start` and
/// `position` samples taken.
spec fn on_course(machine: Machine, script: Seq<bool>, idle: bool, start: int, position: int) -> bool {
    let goal = capture(script, idle);
    &&& machine.wf()
    &&& 0 <= start <= position <= start + TICK_CAP + 1
    &&& start <= (TICK_CAP + 1) * machine.transitions
    &&& match machine.phase {
        Phase::Watch | Phase::Tick => {
            &&& position == start + machine.ticks
            &&& wait_ticks(script, idle, start, machine.last, machine.ticks) == wait_ticks(
                script,
                idle,
                start,
                machine.last,
                0,
            )
            &&& capture_from(
                script,
                idle,
                start,
                machine.last,
                machine.transitions,
                machine.bits,
            ) == goal
        },
        Phase::Settle => {
            &&& position == start + machine.ticks + if machine.timed_out() {
                0int
            } else {
                1int
            }
            &&& wait_ticks(script, idle, start, machine.last, 0) == machine.ticks
            &&& capture_from(
                script,
                idle,
                start,
                machine.last,
                machine.transitions,
                machine.bits,
            ) == goal
        },
        Phase::Restore | Phase::Finished => {
            &&& machine.bits == goal.bits
            &&& machine.timed_out() == goal.timed_out
            &&& machine.transitions == goal.transitions
        },
        _ => start == 0 && position == 0,
    }
}

/// The report of a driver that serves the machine from the scripted line.
spec fn report(machine: Machine, script: Seq<bool>, idle: bool, position: int) -> Event {
    if machine.pending() == Action::Sample {
        Event::Level(level_at(script, idle, position))
    } else {
        Event::Done
    }
}

proof fn lemma_stays_on_course(
    machine: Machine,
    script: Seq<bool>,
    idle: bool,
    start: int,
    position: int,
)
    requires
        on_course(machine, script, idle, start, position),
        !machine.finished(),
    ensures
        on_course(
            machine.next(report(machine, script, idle, position)),
            script,
            idle,
            if machine.phase == Phase::Settle && !machine.timed_out() {
                position + 1
            } else {
                start
            },
            if machine.pending() == Action::Sample {
                position + 1
            } else {
                position
            },
        ),
{
    let after = machine.next(report(machine, script, idle, position));
    match machine.phase {
        Phase::Listen => {
            assert(machine.bits =~= Seq::<bool>::empty());
        },
        Phase::Settle => {
            if !machine.timed_out() {
                assert(after.bits == bits_after(machine.bits, machine.transitions, machine.ticks));
                assert(capture_from(
                    script,
                    idle,
                    position + 1,
                    after.last,
                    after.transitions,
                    after.bits,
                ) == capture(script, idle));
                if after.phase == Phase::Restore {
                    assert(capture(script, idle) == Capture {
                        bits: after.bits,
                        timed_out: false,
                        transitions: after.transitions,
                    });
                }
            }
        },
        _ => {},
    }
}

/// Runs a decode against a scripted line: each sample that the decode takes
/// reads the next level of `script`, and the idle level once the script is
/// used up.
///
/// The decode runs to its end. What it has gathered then, and what it
/// returns, is what the levels of the line determine; the line is an output
/// again.
pub fn decode_script(script: &[bool], idle: bool) -> (decoder: Decoder)
    ensures
        decoder@.finished(),
        decoder@.line_mode() == LineMode::Output,
        decoder@.bits == capture(script@, idle).bits,
        decoder@.timed_out() == capture(script@, idle).timed_out,
        decoder@.transitions == capture(script@, idle).transitions,
        decoder@.outcome() == Some(decoded(script@, idle)),
{
    let mut decoder = Decoder::new();
    let mut action = decoder.pending();
    let mut position: usize = 0;
    let ghost mut start: int = 0;
    while action != Action::Finish
        invariant
            on_course(decoder@, script@, idle, start, position as int),
            action == decoder@.pending(),
        decreases decoder@.remaining(),
    {
        let ghost before = decoder@;
        let ghost taken = position as int;
        let event = match action {
            Action::Sample => {
                let level = if position < script.len() {
                    script[position]
                } else {
                    idle
                };
                position = position + 1;
                Event::Level(level)
            },
            _ => Event::Done,
        };
        proof {
            assert(event == report(before, script@, idle, taken));
            lemma_stays_on_course(before, script@, idle, start, taken);
            lemma_step_makes_progress(before, event);
            if before.phase == Phase::Settle && !before.timed_out() {
                start = taken + 1;
            }
        }
        action = decoder.step(event);
    }
    decoder
}

} // verus!
