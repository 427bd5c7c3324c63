//! The signal line as the decoder sees it: its two modes, the operations the
//! decoder asks of its driver, and what the driver reports back.

use vstd::prelude::*;

verus! {

/// The mode of the bidirectional signal line. Exactly one is active at a
/// time.
#[derive(Clone, Copy, Debug, PartialEq, Eq, Structural)]
pub enum LineMode {
    /// The host drives the level.
    Output,
    /// The host samples the level, with a pull-up bias on the line.
    Input,
}

/// One operation on the line or the delay source, to be carried out by the
/// driver.
#[derive(Clone, Copy, Debug, PartialEq, Eq, Structural)]
pub enum Action {
    /// Drive the line high.
    DriveHigh,
    /// Drive the line low.
    DriveLow,
    /// Busy-wait for the given number of milliseconds.
    DelayMillis(u32),
    /// Busy-wait for the given number of microseconds.
    DelayMicros(u32),
    /// Switch the line to sampled input with a pull-up bias.
    Listen,
    /// Read the level of the line and report it.
    Sample,
    /// Switch the line back to driven output.
    Reclaim,
    /// Nothing is left to do: the decode has ended.
    Finish,
}

/// What the driver reports after carrying out an action.
#[derive(Clone, Copy, Debug, PartialEq, Eq, Structural)]
pub enum Event {
    /// The action was carried out; it yields no value.
    Done,
    /// The line was sampled; `true` is high.
    Level(bool),
}

impl Action {
    /// Whether the line may be asked for this action while in `mode`: it is
    /// driven and switched to input only as an output, sampled and switched
    /// back only as an input.
    pub open spec fn permitted(self, mode: LineMode) -> bool {
        match self {
            Action::DriveHigh | Action::DriveLow | Action::Listen => mode == LineMode::Output,
            Action::Sample | Action::Reclaim => mode == LineMode::Input,
            Action::DelayMillis(_) | Action::DelayMicros(_) | Action::Finish => true,
        }
    }

    /// The mode of the line after this action, carried out in `mode`.
    pub open spec fn effect(self, mode: LineMode) -> LineMode {
        match self {
            Action::Listen => LineMode::Input,
            Action::Reclaim => LineMode::Output,
            _ => mode,
        }
    }

    /// Whether `event` is the report that this action calls for: a level for
    /// a sample, a plain acknowledgement for every other operation, and
    /// nothing for `Finish`.
    pub open spec fn answered_by(self, event: Event) -> bool {
        match self {
            Action::Sample => event is Level,
            Action::Finish => false,
            _ => event is Done,
        }
    }
}

impl LineMode {
    /// The mode after `action`, or `None` where the line does not admit the
    /// action in this mode.
    pub fn perform(self, action: Action) -> (after: Option<LineMode>)
        ensures
            action.permitted(self) ==> after == Some(action.effect(self)),
            !action.permitted(self) ==> after is None,
    {
        match (action, self) {
            (Action::DriveHigh, LineMode::Output) | (Action::DriveLow, LineMode::Output) => Some(
                LineMode::Output,
            ),
            (Action::Listen, LineMode::Output) => Some(LineMode::Input),
            (Action::Sample, LineMode::Input) => Some(LineMode::Input),
            (Action::Reclaim, LineMode::Input) => Some(LineMode::Output),
            (Action::DelayMillis(_), _) | (Action::DelayMicros(_), _) | (Action::Finish, _) => Some(
                self,
            ),
            _ => None,
        }
    }
}

} // verus!
