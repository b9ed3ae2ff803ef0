//! One directional sweep against an end-stop.
//!
//! The sweep drives the actuator at calibration speed and polls its status
//! until the drive current rises above the stall threshold. It then halts,
//! backs off, approaches again at low speed until the current rises above
//! twice that threshold, halts, reads the boundary position, and backs off
//! once more so that the actuator is left clear of the stop.
//!
//! Cancellation is looked at before every poll and nowhere else: a bus
//! operation that is under way is always finished first. A cancelled sweep
//! commands zero speed and ends. Nothing bounds the number of polls.

use crate::bus::{
    Action, Direction, Event, Notice, BACKOFF_PULSE_MS, CALIBRATION_SPEED,
    CONTACT_THRESHOLD_MA, FINE_SPEED, MAX_POSITION, POLL_INTERVAL_MS, SETTLE_MS,
    STALL_THRESHOLD_MA,
};
use vstd::prelude::*;

verus! {

/// Number of steps in [`relief_script`].
pub const RELIEF_STEPS: u8 = 6;

/// Number of steps in [`locate_script`].
pub const LOCATE_STEPS: u8 = 3;

/// Number of steps in [`backoff_script`].
pub const BACKOFF_STEPS: u8 = 4;

/// What a finished sweep reports.
#[derive(Clone, Copy, Debug, PartialEq, Eq)]
pub struct SweepResult {
    pub direction: Direction,
    /// Encoder reading at the end-stop, taken at rest after the slow
    /// re-approach and before the final back-off.
    pub boundary_position: u16,
}

/// Where a sweep stands. Each phase has one action outstanding, given by
/// [`SweepPhase::command`].
#[derive(Clone, Copy, Debug, PartialEq, Eq)]
pub enum SweepPhase {
    /// Calibration speed has been commanded.
    Drive,
    /// A status poll of the coarse sweep is outstanding.
    CoarseRead,
    /// Waiting out the interval between two coarse polls.
    CoarsePause,
    /// The stall was seen at `stall`; step `index` of [`relief_script`] is
    /// outstanding.
    Relieve { index: u8, stall: u16 },
    /// Fine speed has been commanded.
    Approach,
    /// A status poll of the slow re-approach is outstanding.
    FineRead,
    /// Waiting out the interval after a fine poll; `contact` tells whether
    /// that poll showed more than twice the stall threshold.
    FinePause { contact: bool },
    /// Step `index` of [`locate_script`] is outstanding.
    Locate { index: u8 },
    /// The boundary was read as `boundary`; step `index` of the final
    /// [`backoff_script`] is outstanding.
    Clear { index: u8, boundary: u16 },
    /// Cancellation was seen; zero speed has been commanded.
    Halt,
}

/// What one step of a sweep leads to.
#[derive(Clone, Copy, Debug, PartialEq, Eq)]
pub enum SweepStep {
    /// The sweep goes on in the given phase.
    Continue(SweepPhase),
    /// The sweep is complete.
    Found(SweepResult),
    /// The sweep was cancelled and the actuator has been told to halt.
    Cancelled,
    /// A bus operation failed.
    Failed,
}

/// The back-off pattern: a pulse at calibration speed away from the stop,
/// then halt and let the actuator settle.
pub open spec fn backoff_script(direction: Direction) -> Seq<Action> {
    seq![
        Action::SetSpeed { speed: CALIBRATION_SPEED, direction: direction.reversed() },
        Action::Sleep { millis: BACKOFF_PULSE_MS },
        Action::SetSpeed { speed: 0, direction: direction.reversed() },
        Action::Sleep { millis: SETTLE_MS },
    ]
}

/// What follows a stall: halt, let the current decay, then back off.
pub open spec fn relief_script(direction: Direction) -> Seq<Action> {
    seq![
        Action::SetSpeed { speed: 0, direction },
        Action::Sleep { millis: SETTLE_MS },
    ] + backoff_script(direction)
}

/// What follows renewed contact: halt, settle, read the position at rest.
pub open spec fn locate_script(direction: Direction) -> Seq<Action> {
    seq![
        Action::SetSpeed { speed: 0, direction },
        Action::Sleep { millis: SETTLE_MS },
        Action::ReadStatus,
    ]
}

/// The phase before a poll: the poll itself while the run may go on, the
/// halt once cancellation has been requested.
pub open spec fn poll_unless_cancelled(poll: SweepPhase, running: bool) -> SweepPhase {
    if running {
        poll
    } else {
        SweepPhase::Halt
    }
}

impl SweepPhase {
    /// A phase is well formed when its step index lies within its script
    /// and the position it carries is an encoder reading.
    pub open spec fn wf(self) -> bool {
        match self {
            SweepPhase::Relieve { index, stall } => index < RELIEF_STEPS && stall <= MAX_POSITION,
            SweepPhase::Locate { index } => index < LOCATE_STEPS,
            SweepPhase::Clear { index, boundary } => index < BACKOFF_STEPS && boundary
                <= MAX_POSITION,
            _ => true,
        }
    }

    /// The phase in which every sweep begins.
    pub open spec fn initial() -> SweepPhase {
        SweepPhase::Drive
    }

    /// The action that is outstanding in this phase of a sweep in
    /// `direction`.
    pub open spec fn command(self, direction: Direction) -> Action {
        match self {
            SweepPhase::Drive => Action::SetSpeed { speed: CALIBRATION_SPEED, direction },
            SweepPhase::CoarseRead => Action::ReadStatus,
            SweepPhase::CoarsePause => Action::Sleep { millis: POLL_INTERVAL_MS },
            SweepPhase::Relieve { index, .. } => relief_script(direction)[index as int],
            SweepPhase::Approach => Action::SetSpeed { speed: FINE_SPEED, direction },
            SweepPhase::FineRead => Action::ReadStatus,
            SweepPhase::FinePause { .. } => Action::Sleep { millis: POLL_INTERVAL_MS },
            SweepPhase::Locate { index } => locate_script(direction)[index as int],
            SweepPhase::Clear { index, .. } => backoff_script(direction)[index as int],
            SweepPhase::Halt => Action::SetSpeed { speed: 0, direction: Direction::Forward },
        }
    }

    /// The progress message that is due on entering this phase, if any.
    pub open spec fn announcement(self, direction: Direction) -> Option<Notice> {
        match self {
            SweepPhase::Drive => Some(Notice::SweepStarted { direction }),
            SweepPhase::Relieve { index, stall } => if index == 0 {
                Some(Notice::StallDetected { position: stall })
            } else if index == 2 {
                Some(Notice::BackingOff)
            } else {
                None
            },
            SweepPhase::Approach => Some(Notice::BackedOff),
            SweepPhase::Clear { index, boundary } => if index == 0 {
                Some(Notice::BoundaryFound { position: boundary })
            } else {
                None
            },
            SweepPhase::Halt => Some(Notice::Interrupted),
            _ => None,
        }
    }

    /// Whether cancellation is looked at when this phase's action has been
    /// answered: the phases from which the next poll is issued.
    pub open spec fn checks_cancellation(self) -> bool {
        match self {
            SweepPhase::Drive | SweepPhase::CoarsePause | SweepPhase::Approach => true,
            SweepPhase::FinePause { contact } => !contact,
            _ => false,
        }
    }

    /// Where a sweep in `direction` goes from this phase when `event`
    /// answers the outstanding action and the cancellation flag reads
    /// `running`.
    ///
    /// An event that is not the successful answer to the outstanding action
    /// fails the sweep. Otherwise the scripts are walked step by step, and:
    /// a coarse poll above the stall threshold starts the relief, one at or
    /// below it leads to the next poll; a fine poll above twice the
    /// threshold starts the locating, one at or below it leads to the next
    /// poll; a poll is replaced by the halt when `running` is false.
    pub open spec fn next(self, direction: Direction, event: Event, running: bool) -> SweepStep {
        if !event.answers(self.command(direction)) {
            SweepStep::Failed
        } else {
            match self {
                SweepPhase::Drive | SweepPhase::CoarsePause => SweepStep::Continue(
                    poll_unless_cancelled(SweepPhase::CoarseRead, running),
                ),
                SweepPhase::CoarseRead => {
                    let sample = event->Status_0;
                    if sample.exceeds(STALL_THRESHOLD_MA) {
                        SweepStep::Continue(SweepPhase::Relieve { index: 0, stall: sample.position })
                    } else {
                        SweepStep::Continue(SweepPhase::CoarsePause)
                    }
                },
                SweepPhase::Relieve { index, stall } => if index + 1 < RELIEF_STEPS {
                    SweepStep::Continue(SweepPhase::Relieve { index: (index + 1) as u8, stall })
                } else {
                    SweepStep::Continue(SweepPhase::Approach)
                },
                SweepPhase::Approach => SweepStep::Continue(
                    poll_unless_cancelled(SweepPhase::FineRead, running),
                ),
                SweepPhase::FineRead => SweepStep::Continue(
                    SweepPhase::FinePause {
                        contact: event->Status_0.exceeds(CONTACT_THRESHOLD_MA),
                    },
                ),
                SweepPhase::FinePause { contact } => if contact {
                    SweepStep::Continue(SweepPhase::Locate { index: 0 })
                } else {
                    SweepStep::Continue(poll_unless_cancelled(SweepPhase::FineRead, running))
                },
                SweepPhase::Locate { index } => if index + 1 < LOCATE_STEPS {
                    SweepStep::Continue(SweepPhase::Locate { index: (index + 1) as u8 })
                } else {
                    SweepStep::Continue(
                        SweepPhase::Clear { index: 0, boundary: event->Status_0.position },
                    )
                },
                SweepPhase::Clear { index, boundary } => if index + 1 < BACKOFF_STEPS {
                    SweepStep::Continue(SweepPhase::Clear { index: (index + 1) as u8, boundary })
                } else {
                    SweepStep::Found(SweepResult { direction, boundary_position: boundary })
                },
                SweepPhase::Halt => SweepStep::Cancelled,
            }
        }
    }

    /// The phase in which every sweep begins: calibration speed is the
    /// first command.
    pub fn begin() -> (phase: SweepPhase)
        ensures
            phase == SweepPhase::initial(),
            phase.wf(),
    {
        SweepPhase::Drive
    }

    /// Whether the phase is well formed.
    pub fn is_valid(&self) -> (ok: bool)
        ensures
            ok == self.wf(),
    {
        match *self {
            SweepPhase::Relieve { index, stall } => index < RELIEF_STEPS && stall <= MAX_POSITION,
            SweepPhase::Locate { index } => index < LOCATE_STEPS,
            SweepPhase::Clear { index, boundary } => index < BACKOFF_STEPS && boundary
                <= MAX_POSITION,
            _ => true,
        }
    }

    /// The action that is outstanding in this phase of a sweep in
    /// `direction`.
    pub fn action(&self, direction: Direction) -> (a: Action)
        requires
            self.wf(),
        ensures
            a == self.command(direction),
    {
        match *self {
            SweepPhase::Drive => Action::SetSpeed { speed: CALIBRATION_SPEED, direction },
            SweepPhase::CoarseRead | SweepPhase::FineRead => Action::ReadStatus,
            SweepPhase::CoarsePause | SweepPhase::FinePause { .. } => Action::Sleep {
                millis: POLL_INTERVAL_MS,
            },
            SweepPhase::Relieve { index, .. } => {
                if index == 0 {
                    Action::SetSpeed { speed: 0, direction }
                } else if index == 1 {
                    Action::Sleep { millis: SETTLE_MS }
                } else {
                    backoff_action(direction, index - 2)
                }
            },
            SweepPhase::Approach => Action::SetSpeed { speed: FINE_SPEED, direction },
            SweepPhase::Locate { index } => {
                if index == 0 {
                    Action::SetSpeed { speed: 0, direction }
                } else if index == 1 {
                    Action::Sleep { millis: SETTLE_MS }
                } else {
                    Action::ReadStatus
                }
            },
            SweepPhase::Clear { index, .. } => backoff_action(direction, index),
            SweepPhase::Halt => Action::SetSpeed { speed: 0, direction: Direction::Forward },
        }
    }

    /// The progress message that is due on entering this phase, if any.
    pub fn notice(&self, direction: Direction) -> (n: Option<Notice>)
        ensures
            n == self.announcement(direction),
    {
        match *self {
            SweepPhase::Drive => Some(Notice::SweepStarted { direction }),
            SweepPhase::Relieve { index, stall } => {
                if index == 0 {
                    Some(Notice::StallDetected { position: stall })
                } else if index == 2 {
                    Some(Notice::BackingOff)
                } else {
                    None
                }
            },
            SweepPhase::Approach => Some(Notice::BackedOff),
            SweepPhase::Clear { index, boundary } => {
                if index == 0 {
                    Some(Notice::BoundaryFound { position: boundary })
                } else {
                    None
                }
            },
            SweepPhase::Halt => Some(Notice::Interrupted),
            _ => None,
        }
    }

    /// Takes the answer to the outstanding action and the cancellation
    /// flag, and says where the sweep goes.
    pub fn step(self, direction: Direction, event: Event, running: bool) -> (r: SweepStep)
        requires
            self.wf(),
            event.wf(),
        ensures
            r == self.next(direction, event, running),
            r matches SweepStep::Continue(phase) ==> phase.wf(),
            r matches SweepStep::Found(result) ==> result.direction == direction
                && result.boundary_position <= MAX_POSITION,
    {
        let pending = self.action(direction);
        match (pending, event) {
            (Action::ReadStatus, Event::Status(sample)) => match self {
                SweepPhase::CoarseRead => {
                    if sample.stalled() {
                        SweepStep::Continue(SweepPhase::Relieve { index: 0, stall: sample.position })
                    } else {
                        SweepStep::Continue(SweepPhase::CoarsePause)
                    }
                },
                SweepPhase::FineRead => SweepStep::Continue(
                    SweepPhase::FinePause { contact: sample.in_contact() },
                ),
                _ => SweepStep::Continue(SweepPhase::Clear { index: 0, boundary: sample.position }),
            },
            (Action::ReadStatus, _) => SweepStep::Failed,
            (_, Event::Ack) => match self {
                SweepPhase::Drive | SweepPhase::CoarsePause => SweepStep::Continue(
                    poll_or_halt(SweepPhase::CoarseRead, running),
                ),
                SweepPhase::Relieve { index, stall } => {
                    if index + 1 < RELIEF_STEPS {
                        SweepStep::Continue(SweepPhase::Relieve { index: index + 1, stall })
                    } else {
                        SweepStep::Continue(SweepPhase::Approach)
                    }
                },
                SweepPhase::Approach => SweepStep::Continue(
                    poll_or_halt(SweepPhase::FineRead, running),
                ),
                SweepPhase::FinePause { contact } => {
                    if contact {
                        SweepStep::Continue(SweepPhase::Locate { index: 0 })
                    } else {
                        SweepStep::Continue(poll_or_halt(SweepPhase::FineRead, running))
                    }
                },
                SweepPhase::Locate { index } => SweepStep::Continue(
                    SweepPhase::Locate { index: index + 1 },
                ),
                SweepPhase::Clear { index, boundary } => {
                    if index + 1 < BACKOFF_STEPS {
                        SweepStep::Continue(SweepPhase::Clear { index: index + 1, boundary })
                    } else {
                        SweepStep::Found(SweepResult { direction, boundary_position: boundary })
                    }
                },
                _ => SweepStep::Cancelled,
            },
            _ => SweepStep::Failed,
        }
    }
}

/// Step `index` of the back-off pattern for a sweep in `direction`.
pub fn backoff_action(direction: Direction, index: u8) -> (a: Action)
    requires
        index < BACKOFF_STEPS,
    ensures
        a == backoff_script(direction)[index as int],
        a == relief_script(direction)[index + 2],
{
    if index == 0 {
        Action::SetSpeed { speed: CALIBRATION_SPEED, direction: direction.opposite() }
    } else if index == 1 {
        Action::Sleep { millis: BACKOFF_PULSE_MS }
    } else if index == 2 {
        Action::SetSpeed { speed: 0, direction: direction.opposite() }
    } else {
        Action::Sleep { millis: SETTLE_MS }
    }
}

/// The phase before a poll: the poll itself while the run may go on, the
/// halt once cancellation has been requested.
pub fn poll_or_halt(poll: SweepPhase, running: bool) -> (phase: SweepPhase)
    ensures
        phase == poll_unless_cancelled(poll, running),
{
    if running {
        poll
    } else {
        SweepPhase::Halt
    }
}

/// The scripts have the lengths that the step counts name, and the relief
/// is a halt and a settle followed by the back-off pattern.
pub proof fn lemma_script_lengths(direction: Direction)
    ensures
        backoff_script(direction).len() == BACKOFF_STEPS,
        relief_script(direction).len() == RELIEF_STEPS,
        locate_script(direction).len() == LOCATE_STEPS,
        relief_script(direction) =~= seq![
            Action::SetSpeed { speed: 0, direction },
            Action::Sleep { millis: SETTLE_MS },
            Action::SetSpeed { speed: CALIBRATION_SPEED, direction: direction.reversed() },
            Action::Sleep { millis: BACKOFF_PULSE_MS },
            Action::SetSpeed { speed: 0, direction: direction.reversed() },
            Action::Sleep { millis: SETTLE_MS },
        ],
{
}

} // verus!
