//! The protocol's timing constants and the reading of a transition's
//! duration as a bit.

use vstd::prelude::*;
use crate::bits::FRAME_BITS;

verus! {

/// Milliseconds for which the line is held high before the start pulse.
pub const POWER_UP_MILLIS: u32 = 250;

/// Milliseconds for which the line is driven low to start the sensor.
pub const START_PULSE_MILLIS: u32 = 20;

/// Microseconds for which the line is driven high again before the host
/// starts to listen.
pub const RELEASE_MICROS: u32 = 40;

/// Microseconds between two samples of the line during a wait.
pub const TICK_MICROS: u32 = 1;

/// Ticks after which a wait for a level change is given up. A count that
/// reaches the cap is no duration: it ends the capture.
pub const TICK_CAP: u8 = 255;

/// Level changes that a capture waits for at most.
pub const MAX_TRANSITIONS: u8 = 85;

/// Leading level changes that belong to the sensor's preamble.
pub const PREAMBLE_TRANSITIONS: u8 = 4;

/// A data transition that took more ticks than this is a 1, any other a 0.
/// The value is calibrated for a host clock of 80 MHz.
pub const BIT_THRESHOLD: u8 = 22;

/// Whether the transition with this index encodes a data bit: after the
/// preamble, every other transition does, starting with the first; the ones
/// between are separators.
pub open spec fn carries_bit(transition: nat) -> bool {
    transition >= PREAMBLE_TRANSITIONS && transition % 2 == 0
}

/// The bit that a data transition of `ticks` ticks encodes.
pub open spec fn bit_of(ticks: nat) -> bool {
    ticks > BIT_THRESHOLD
}

/// How many of the transitions below `transition` encode a data bit.
pub open spec fn data_transitions_before(transition: nat) -> nat {
    if transition <= PREAMBLE_TRANSITIONS {
        0
    } else {
        ((transition - PREAMBLE_TRANSITIONS + 1) / 2) as nat
    }
}

/// How many bits are packed once `transitions` level changes have been seen:
/// one for each data transition among them, and no more than a frame holds.
pub open spec fn bits_packed_after(transitions: nat) -> nat {
    if data_transitions_before(transitions) < FRAME_BITS {
        data_transitions_before(transitions)
    } else {
        FRAME_BITS as nat
    }
}

/// Whether the transition with this index encodes a data bit.
pub fn is_data_transition(transition: u8) -> (carries: bool)
    ensures
        carries == carries_bit(transition as nat),
{
    transition >= PREAMBLE_TRANSITIONS && transition % 2 == 0
}

/// Reads the duration of a data transition as a bit.
pub fn classify(ticks: u8) -> (bit: bool)
    ensures
        bit == bit_of(ticks as nat),
{
    ticks > BIT_THRESHOLD
}

} // verus!
