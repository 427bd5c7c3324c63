//! The five-byte frame that the sensor sends, and its checksum.

use vstd::prelude::*;
use crate::bits::{packed, BitBuffer, FRAME_BITS};

verus! {

/// Number of bytes in a frame.
pub const FRAME_BYTES: usize = 5;

/// Why a capture did not yield a frame.
#[derive(Clone, Copy, Debug, PartialEq, Eq, Structural)]
pub enum DecodeError {
    /// A wait for the next level change reached the tick cap before the
    /// frame was complete.
    Timeout,
    /// The capture ended without a timeout and with fewer bits than a frame
    /// holds.
    Incomplete,
    /// All bits were captured, but the checksum byte does not match.
    Checksum,
}

/// The checksum that belongs to four data bytes: their sum, truncated to
/// eight bits.
pub open spec fn checksum_of(b0: u8, b1: u8, b2: u8, b3: u8) -> int {
    (b0 + b1 + b2 + b3) % 256
}

/// Whether `bytes` is a frame whose fifth byte is the checksum of the first
/// four.
pub open spec fn checksum_matches(bytes: Seq<u8>) -> bool {
    &&& bytes.len() == FRAME_BYTES
    &&& bytes[4] == checksum_of(bytes[0], bytes[1], bytes[2], bytes[3])
}

/// Computes the checksum of four data bytes.
pub fn checksum(b0: u8, b1: u8, b2: u8, b3: u8) -> (sum: u8)
    ensures
        sum == checksum_of(b0, b1, b2, b3),
{
    let total: u16 = b0 as u16 + b1 as u16 + b2 as u16 + b3 as u16;
    (total % 256) as u8
}

/// A frame whose checksum has been verified.
///
/// Byte 0 is the integral humidity, byte 1 the humidity fraction, byte 2 the
/// integral temperature, byte 3 the temperature fraction with the sign flag
/// in its high bit, byte 4 the checksum. A value of this type always has a
/// matching checksum: `new` is the only way to make one.
#[derive(Clone, Copy, Debug, PartialEq, Eq)]
pub struct RawFrame {
    bytes: [u8; 5],
}

impl View for RawFrame {
    type V = Seq<u8>;

    closed spec fn view(&self) -> Seq<u8> {
        self.bytes@
    }
}

impl RawFrame {
    #[verifier::type_invariant]
    spec fn checksum_holds(self) -> bool {
        checksum_matches(self@)
    }

    /// Validates five received bytes. The frame is accepted exactly when the
    /// fifth byte is the checksum of the other four.
    pub fn new(bytes: [u8; 5]) -> (result: Result<RawFrame, DecodeError>)
        ensures
            checksum_matches(bytes@) ==> result is Ok && result->Ok_0@ == bytes@,
            !checksum_matches(bytes@) ==> result == Err::<RawFrame, DecodeError>(
                DecodeError::Checksum,
            ),
    {
        if bytes[4] == checksum(bytes[0], bytes[1], bytes[2], bytes[3]) {
            Ok(RawFrame { bytes })
        } else {
            Err(DecodeError::Checksum)
        }
    }

    /// The five bytes of the frame. Their checksum matches.
    pub fn bytes(&self) -> (bytes: [u8; 5])
        ensures
            bytes@ == self@,
            checksum_matches(self@),
    {
        proof {
            use_type_invariant(self);
        }
        self.bytes
    }
}

/// The outcome that a capture deserves: a frame only where exactly forty bits
/// were packed and their checksum matches. Fewer bits are a timeout where a
/// wait was given up, and an incomplete capture otherwise.
pub open spec fn verdict(bits: Seq<bool>, timed_out: bool) -> Result<Seq<u8>, DecodeError> {
    if bits.len() != FRAME_BITS {
        if timed_out {
            Err(DecodeError::Timeout)
        } else {
            Err(DecodeError::Incomplete)
        }
    } else if checksum_matches(packed(bits)) {
        Ok(packed(bits))
    } else {
        Err(DecodeError::Checksum)
    }
}

/// No capture yields a frame unless forty bits were packed and the fifth
/// byte they spell is the checksum of the other four; every capture that
/// meets both yields the bytes they spell.
pub proof fn lemma_frame_needs_checksum(bits: Seq<bool>, timed_out: bool)
    ensures
        verdict(bits, timed_out) is Ok <==> bits.len() == FRAME_BITS && checksum_matches(
            packed(bits),
        ),
        verdict(bits, timed_out) matches Ok(bytes) ==> bytes == packed(bits) && checksum_matches(
            bytes,
        ),
{
}

/// An outcome with the frame, if there is one, taken by its bytes.
pub open spec fn outcome_bytes(outcome: Result<RawFrame, DecodeError>) -> Result<
    Seq<u8>,
    DecodeError,
> {
    match outcome {
        Ok(frame) => Ok(frame@),
        Err(error) => Err(error),
    }
}

/// Validates what a capture has packed. `timed_out` says whether the capture
/// ended because a wait for a level change was given up.
pub fn validate(bits: &BitBuffer, timed_out: bool) -> (outcome: Result<RawFrame, DecodeError>)
    ensures
        outcome_bytes(outcome) == verdict(bits@, timed_out),
        outcome is Ok <==> bits@.len() == FRAME_BITS && checksum_matches(packed(bits@)),
{
    if !bits.is_full() {
        if timed_out {
            Err(DecodeError::Timeout)
        } else {
            Err(DecodeError::Incomplete)
        }
    } else {
        RawFrame::new(bits.bytes())
    }
}

} // verus!
