//! The whole calibration run.
//!
//! The run switches the periodic status broadcast off and puts the actuator
//! into continuous rotation, sweeps forward and then backward against the
//! end-stops, gives the actuator a last short settling motion, computes the
//! travel range from the two boundaries and stores it.
//!
//! A cancelled sweep ends the run without a single write to the actuator's
//! memory: the actuator is halted, the status broadcast is switched back
//! on, and the run ends as [`Outcome::Cancelled`]. A failed bus operation
//! ends the run as [`Outcome::Failed`] after one last attempt to halt the
//! actuator, whose own answer is not looked at.
//!
//! [`Calibration`] is the state of the run. In every state but the finished
//! ones exactly one action is outstanding; the driver performs it and hands
//! the answer, with the cancellation flag as it reads at that moment, to
//! [`Calibration::step`].

use crate::bus::{
    Action, Direction, Event, Notice, CALIBRATION_SPEED, MAX_POSITION, MODE_CONTINUOUS,
    REVERSAL_PAUSE_MS, SETTLE_MS,
};
use crate::eeprom::{Persist, PersistStep, PERSIST_STEPS};
use crate::range::{compute_range, range_of, CalibrationRange};
use crate::sweep::{SweepPhase, SweepStep};
use vstd::prelude::*;

verus! {

/// Number of steps in [`prepare_script`].
pub const PREPARE_STEPS: u8 = 2;

/// Number of steps in [`settle_script`].
pub const SETTLE_STEPS: u8 = 3;

/// Number of steps in [`abort_script`].
pub const ABORT_STEPS: u8 = 2;

/// How a run ended.
#[derive(Clone, Copy, Debug, PartialEq, Eq)]
pub enum Outcome {
    /// Both boundaries were found and the calibration is stored.
    /// `torque_released` tells whether the final release of torque
    /// succeeded as well.
    Completed { range: CalibrationRange, offset: i16, torque_released: bool },
    /// Cancellation was requested; nothing was written.
    Cancelled,
    /// A bus operation failed.
    Failed,
}

/// The state of a calibration run.
#[derive(Clone, Copy, Debug, PartialEq, Eq)]
pub enum Calibration {
    /// Step `index` of [`prepare_script`] is outstanding.
    Prepare { index: u8 },
    /// The forward sweep is under way.
    SweepForward { phase: SweepPhase },
    /// The forward boundary is known; the pause before the backward sweep
    /// is outstanding.
    Reverse { forward: u16 },
    /// The backward sweep is under way.
    SweepBackward { forward: u16, phase: SweepPhase },
    /// Both boundaries are known; step `index` of [`settle_script`] is
    /// outstanding.
    Settle { index: u8, forward: u16, backward: u16 },
    /// The calibration is being stored.
    Store { persist: Persist },
    /// A sweep was cancelled; step `index` of [`abort_script`] is
    /// outstanding.
    Abort { index: u8 },
    /// A bus operation failed; the last halt is outstanding.
    Fail,
    /// The run is over.
    Finished(Outcome),
}

/// Before the sweeps: no periodic status broadcast, continuous rotation.
pub open spec fn prepare_script() -> Seq<Action> {
    seq![Action::DisableReadout, Action::SetMode { mode: MODE_CONTINUOUS }]
}

/// After the sweeps: a short forward motion at calibration speed, then
/// halt.
pub open spec fn settle_script() -> Seq<Action> {
    seq![
        Action::SetSpeed { speed: CALIBRATION_SPEED, direction: Direction::Forward },
        Action::Sleep { millis: SETTLE_MS },
        Action::SetSpeed { speed: 0, direction: Direction::Forward },
    ]
}

/// After a cancelled sweep: halt, and switch the status broadcast back on.
pub open spec fn abort_script() -> Seq<Action> {
    seq![
        Action::SetSpeed { speed: 0, direction: Direction::Forward },
        Action::EnableReadout,
    ]
}

/// The last attempt to halt the actuator after a failure.
pub open spec fn emergency_halt() -> Action {
    Action::SetSpeed { speed: 0, direction: Direction::Forward }
}

/// The store of the range between two boundaries, at its first step.
pub open spec fn store_of(forward: u16, backward: u16) -> Persist {
    let range = range_of(forward, backward);
    Persist::initial(range, range.offset_code() as u16)
}

impl Calibration {
    /// A state is well formed when its step index lies within its script,
    /// the boundaries it carries are encoder readings, and what it stores
    /// or reports is the range of two such readings with that range's own
    /// offset.
    pub open spec fn wf(self) -> bool {
        match self {
            Calibration::Prepare { index } => index < PREPARE_STEPS,
            Calibration::SweepForward { phase } => phase.wf(),
            Calibration::Reverse { forward } => forward <= MAX_POSITION,
            Calibration::SweepBackward { forward, phase } => forward <= MAX_POSITION
                && phase.wf(),
            Calibration::Settle { index, forward, backward } => index < SETTLE_STEPS && forward
                <= MAX_POSITION && backward <= MAX_POSITION,
            Calibration::Store { persist } => persist.wf() && persist.range.wf()
                && persist.offset_code == persist.range.offset_code(),
            Calibration::Abort { index } => index < ABORT_STEPS,
            Calibration::Fail => true,
            Calibration::Finished(Outcome::Completed { range, offset, .. }) => range.wf()
                && offset == range.center_offset(),
            Calibration::Finished(_) => true,
        }
    }

    /// The state in which every run begins.
    pub open spec fn initial() -> Calibration {
        Calibration::Prepare { index: 0 }
    }

    /// The action that is outstanding, `None` once the run is over.
    pub open spec fn pending(self) -> Option<Action> {
        match self {
            Calibration::Prepare { index } => Some(prepare_script()[index as int]),
            Calibration::SweepForward { phase } => Some(phase.command(Direction::Forward)),
            Calibration::Reverse { .. } => Some(Action::Sleep { millis: REVERSAL_PAUSE_MS }),
            Calibration::SweepBackward { phase, .. } => Some(phase.command(Direction::Backward)),
            Calibration::Settle { index, .. } => Some(settle_script()[index as int]),
            Calibration::Store { persist } => Some(persist.command()),
            Calibration::Abort { index } => Some(abort_script()[index as int]),
            Calibration::Fail => Some(emergency_halt()),
            Calibration::Finished(_) => None,
        }
    }

    /// How the run ended, `None` while it is under way.
    pub open spec fn result(self) -> Option<Outcome> {
        match self {
            Calibration::Finished(outcome) => Some(outcome),
            _ => None,
        }
    }

    /// The progress message that is due on entering this state, if any.
    pub open spec fn announcement(self) -> Option<Notice> {
        match self {
            Calibration::SweepForward { phase } => phase.announcement(Direction::Forward),
            Calibration::Reverse { forward } => Some(
                Notice::SweepFinished { direction: Direction::Forward, boundary: forward },
            ),
            Calibration::SweepBackward { phase, .. } => phase.announcement(Direction::Backward),
            Calibration::Settle { index, backward, .. } => if index == 0 {
                Some(Notice::SweepFinished { direction: Direction::Backward, boundary: backward })
            } else {
                None
            },
            Calibration::Store { persist } => if persist.index == 0 {
                Some(
                    Notice::Storing {
                        min_angle: persist.range.min_angle,
                        max_angle: persist.range.max_angle,
                        offset: persist.range.center_offset() as i16,
                    },
                )
            } else if persist.index == 11 {
                Some(Notice::Stored)
            } else if persist.index == 13 {
                Some(Notice::Centering)
            } else {
                None
            },
            Calibration::Abort { index } => if index == 0 {
                Some(Notice::CleaningUp)
            } else {
                None
            },
            Calibration::Fail => Some(Notice::Stopping),
            _ => None,
        }
    }

    /// The direction and phase of the sweep that is under way, if one is.
    pub open spec fn sweep(self) -> Option<(Direction, SweepPhase)> {
        match self {
            Calibration::SweepForward { phase } => Some((Direction::Forward, phase)),
            Calibration::SweepBackward { phase, .. } => Some((Direction::Backward, phase)),
            _ => None,
        }
    }

    /// The same sweep in another phase; any other state as it is.
    pub open spec fn at_phase(self, phase: SweepPhase) -> Calibration {
        match self {
            Calibration::SweepForward { .. } => Calibration::SweepForward { phase },
            Calibration::SweepBackward { forward, .. } => Calibration::SweepBackward {
                forward,
                phase,
            },
            _ => self,
        }
    }

    /// Whether the state has left the road to a stored calibration for
    /// good: a sweep is being halted after cancellation, the run is being
    /// wound up after cancellation or failure, or it has ended without a
    /// calibration.
    pub open spec fn abandoned(self) -> bool {
        match self {
            Calibration::SweepForward { phase } => phase is Halt,
            Calibration::SweepBackward { phase, .. } => phase is Halt,
            Calibration::Abort { .. } => true,
            Calibration::Fail => true,
            Calibration::Finished(outcome) => !(outcome is Completed),
            _ => false,
        }
    }

    /// The state that follows when `event` answers the outstanding action
    /// and the cancellation flag reads `running`.
    ///
    /// * A finished run stays as it is.
    /// * After the last halt the run has failed, whatever the answer.
    /// * A sweep and the store each follow their own rules; a sweep that
    ///   was cancelled leads to the abort script, a failure of either to
    ///   the last halt, the forward boundary to the pause before the
    ///   backward sweep, the backward boundary to the settling motion, and
    ///   the end of the store to the end of the run.
    /// * Everywhere else an event that is not the successful answer to the
    ///   outstanding action leads to the last halt, and a successful one to
    ///   the next step of the script or, at its end, to what comes after
    ///   it: the forward sweep after the preparation, the backward sweep
    ///   after the pause, the store of the range of the two boundaries
    ///   after the settling motion, the cancelled end after the abort
    ///   script.
    pub open spec fn next(self, event: Event, running: bool) -> Calibration {
        match self {
            Calibration::Finished(_) => self,
            Calibration::Fail => Calibration::Finished(Outcome::Failed),
            Calibration::SweepForward { phase } => match phase.next(
                Direction::Forward,
                event,
                running,
            ) {
                SweepStep::Continue(phase) => Calibration::SweepForward { phase },
                SweepStep::Found(found) => Calibration::Reverse {
                    forward: found.boundary_position,
                },
                SweepStep::Cancelled => Calibration::Abort { index: 0 },
                SweepStep::Failed => Calibration::Fail,
            },
            Calibration::SweepBackward { forward, phase } => match phase.next(
                Direction::Backward,
                event,
                running,
            ) {
                SweepStep::Continue(phase) => Calibration::SweepBackward { forward, phase },
                SweepStep::Found(found) => Calibration::Settle {
                    index: 0,
                    forward,
                    backward: found.boundary_position,
                },
                SweepStep::Cancelled => Calibration::Abort { index: 0 },
                SweepStep::Failed => Calibration::Fail,
            },
            Calibration::Store { persist } => match persist.next(event) {
                PersistStep::Continue(persist) => Calibration::Store { persist },
                PersistStep::Done { torque_released } => Calibration::Finished(
                    Outcome::Completed {
                        range: persist.range,
                        offset: persist.range.center_offset() as i16,
                        torque_released,
                    },
                ),
                PersistStep::Failed => Calibration::Fail,
            },
            _ => if !event.answers(self.pending()->0) {
                Calibration::Fail
            } else {
                match self {
                    Calibration::Prepare { index } => if index + 1 < PREPARE_STEPS {
                        Calibration::Prepare { index: (index + 1) as u8 }
                    } else {
                        Calibration::SweepForward { phase: SweepPhase::initial() }
                    },
                    Calibration::Reverse { forward } => Calibration::SweepBackward {
                        forward,
                        phase: SweepPhase::initial(),
                    },
                    Calibration::Settle { index, forward, backward } => if index + 1
                        < SETTLE_STEPS {
                        Calibration::Settle { index: (index + 1) as u8, forward, backward }
                    } else {
                        Calibration::Store { persist: store_of(forward, backward) }
                    },
                    Calibration::Abort { index } => if index + 1 < ABORT_STEPS {
                        Calibration::Abort { index: (index + 1) as u8 }
                    } else {
                        Calibration::Finished(Outcome::Cancelled)
                    },
                    _ => self,
                }
            },
        }
    }

    /// The state in which every run begins: switching the status broadcast
    /// off is the first action.
    pub fn start() -> (c: Calibration)
        ensures
            c == Calibration::initial(),
            c.wf(),
            c.pending() == Some(Action::DisableReadout),
    {
        Calibration::Prepare { index: 0 }
    }

    /// Whether the state is well formed. Every state that [`Calibration::start`]
    /// and [`Calibration::step`] hand out is.
    pub fn is_valid(&self) -> (ok: bool)
        ensures
            ok == self.wf(),
    {
        match *self {
            Calibration::Prepare { index } => index < PREPARE_STEPS,
            Calibration::SweepForward { phase } => phase.is_valid(),
            Calibration::Reverse { forward } => forward <= MAX_POSITION,
            Calibration::SweepBackward { forward, phase } => forward <= MAX_POSITION
                && phase.is_valid(),
            Calibration::Settle { index, forward, backward } => index < SETTLE_STEPS && forward
                <= MAX_POSITION && backward <= MAX_POSITION,
            Calibration::Store { persist } => persist.index < PERSIST_STEPS
                && persist.range.is_valid() && persist.offset_code
                == persist.range.encoded_offset(),
            Calibration::Abort { index } => index < ABORT_STEPS,
            Calibration::Fail => true,
            Calibration::Finished(Outcome::Completed { range, offset, .. }) => range.is_valid()
                && offset == range.offset(),
            Calibration::Finished(_) => true,
        }
    }

    /// The action that the driver is to perform now, `None` once the run is
    /// over.
    pub fn action(&self) -> (a: Option<Action>)
        requires
            self.wf(),
        ensures
            a == self.pending(),
            a is None <==> *self is Finished,
    {
        match *self {
            Calibration::Prepare { index } => {
                if index == 0 {
                    Some(Action::DisableReadout)
                } else {
                    Some(Action::SetMode { mode: MODE_CONTINUOUS })
                }
            },
            Calibration::SweepForward { phase } => Some(phase.action(Direction::Forward)),
            Calibration::Reverse { .. } => Some(Action::Sleep { millis: REVERSAL_PAUSE_MS }),
            Calibration::SweepBackward { phase, .. } => Some(phase.action(Direction::Backward)),
            Calibration::Settle { index, .. } => {
                if index == 0 {
                    Some(
                        Action::SetSpeed { speed: CALIBRATION_SPEED, direction: Direction::Forward },
                    )
                } else if index == 1 {
                    Some(Action::Sleep { millis: SETTLE_MS })
                } else {
                    Some(Action::SetSpeed { speed: 0, direction: Direction::Forward })
                }
            },
            Calibration::Store { persist } => Some(persist.action()),
            Calibration::Abort { index } => {
                if index == 0 {
                    Some(Action::SetSpeed { speed: 0, direction: Direction::Forward })
                } else {
                    Some(Action::EnableReadout)
                }
            },
            Calibration::Fail => Some(Action::SetSpeed { speed: 0, direction: Direction::Forward }),
            Calibration::Finished(_) => None,
        }
    }

    /// How the run ended, `None` while it is under way.
    pub fn outcome(&self) -> (o: Option<Outcome>)
        ensures
            o == self.result(),
            o is Some <==> *self is Finished,
    {
        match *self {
            Calibration::Finished(outcome) => Some(outcome),
            _ => None,
        }
    }

    /// The progress message that is due on entering this state, if any.
    pub fn notice(&self) -> (n: Option<Notice>)
        requires
            self.wf(),
        ensures
            n == self.announcement(),
    {
        match *self {
            Calibration::SweepForward { phase } => phase.notice(Direction::Forward),
            Calibration::Reverse { forward } => Some(
                Notice::SweepFinished { direction: Direction::Forward, boundary: forward },
            ),
            Calibration::SweepBackward { phase, .. } => phase.notice(Direction::Backward),
            Calibration::Settle { index, backward, .. } => {
                if index == 0 {
                    Some(
                        Notice::SweepFinished { direction: Direction::Backward, boundary: backward },
                    )
                } else {
                    None
                }
            },
            Calibration::Store { persist } => {
                if persist.index == 0 {
                    Some(
                        Notice::Storing {
                            min_angle: persist.range.min_angle,
                            max_angle: persist.range.max_angle,
                            offset: persist.range.offset(),
                        },
                    )
                } else if persist.index == 11 {
                    Some(Notice::Stored)
                } else if persist.index == 13 {
                    Some(Notice::Centering)
                } else {
                    None
                }
            },
            Calibration::Abort { index } => {
                if index == 0 {
                    Some(Notice::CleaningUp)
                } else {
                    None
                }
            },
            Calibration::Fail => Some(Notice::Stopping),
            _ => None,
        }
    }

    /// Takes the answer to the outstanding action, and the cancellation
    /// flag as it reads now, and yields the state that follows.
    pub fn step(self, event: Event, running: bool) -> (n: Calibration)
        requires
            self.wf(),
            event.wf(),
        ensures
            n == self.next(event, running),
            n.wf(),
    {
        match self {
            Calibration::Finished(_) => self,
            Calibration::Fail => Calibration::Finished(Outcome::Failed),
            Calibration::SweepForward { phase } => {
                match phase.step(Direction::Forward, event, running) {
                    SweepStep::Continue(phase) => Calibration::SweepForward { phase },
                    SweepStep::Found(found) => Calibration::Reverse {
                        forward: found.boundary_position,
                    },
                    SweepStep::Cancelled => Calibration::Abort { index: 0 },
                    SweepStep::Failed => Calibration::Fail,
                }
            },
            Calibration::SweepBackward { forward, phase } => {
                match phase.step(Direction::Backward, event, running) {
                    SweepStep::Continue(phase) => Calibration::SweepBackward { forward, phase },
                    SweepStep::Found(found) => Calibration::Settle {
                        index: 0,
                        forward,
                        backward: found.boundary_position,
                    },
                    SweepStep::Cancelled => Calibration::Abort { index: 0 },
                    SweepStep::Failed => Calibration::Fail,
                }
            },
            Calibration::Store { persist } => {
                match persist.step(event) {
                    PersistStep::Continue(persist) => Calibration::Store { persist },
                    PersistStep::Done { torque_released } => Calibration::Finished(
                        Outcome::Completed {
                            range: persist.range,
                            offset: persist.range.offset(),
                            torque_released,
                        },
                    ),
                    PersistStep::Failed => Calibration::Fail,
                }
            },
            Calibration::Prepare { index } => match event {
                Event::Ack => {
                    if index + 1 < PREPARE_STEPS {
                        Calibration::Prepare { index: index + 1 }
                    } else {
                        Calibration::SweepForward { phase: SweepPhase::begin() }
                    }
                },
                _ => Calibration::Fail,
            },
            Calibration::Reverse { forward } => match event {
                Event::Ack => Calibration::SweepBackward { forward, phase: SweepPhase::begin() },
                _ => Calibration::Fail,
            },
            Calibration::Settle { index, forward, backward } => match event {
                Event::Ack => {
                    if index + 1 < SETTLE_STEPS {
                        Calibration::Settle { index: index + 1, forward, backward }
                    } else {
                        let range = compute_range(forward, backward);
                        let offset_code = range.encoded_offset();
                        Calibration::Store { persist: Persist::begin(range, offset_code) }
                    }
                },
                _ => Calibration::Fail,
            },
            Calibration::Abort { index } => match event {
                Event::Ack => {
                    if index + 1 < ABORT_STEPS {
                        Calibration::Abort { index: index + 1 }
                    } else {
                        Calibration::Finished(Outcome::Cancelled)
                    }
                },
                _ => Calibration::Fail,
            },
        }
    }
}

} // verus!
