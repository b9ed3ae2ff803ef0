//! Runs of the calibration machine over whole sequences of answers, and
//! what holds of every such run.

use crate::bus::{
    Action, Direction, Event, Input, StatusSample, CONTACT_THRESHOLD_MA, POLL_INTERVAL_MS,
    STALL_THRESHOLD_MA,
};
use crate::controller::{emergency_halt, Calibration, Outcome};
use crate::eeprom::TORQUE_RELEASE_STEP;
use crate::sweep::SweepPhase;
use vstd::prelude::*;

verus! {

/// The state that a run reaches from `start` when the driver hands over
/// `inputs` one after the other.
pub open spec fn run(start: Calibration, inputs: Seq<Input>) -> Calibration
    decreases inputs.len(),
{
    if inputs.len() == 0 {
        start
    } else {
        run(start.next(inputs[0].event, inputs[0].running), inputs.skip(1))
    }
}

/// The actions that the driver is asked for while it hands over `inputs`
/// from `start`: the outstanding action of each state that takes an input.
/// Inputs handed to a finished run ask for nothing.
pub open spec fn commands(start: Calibration, inputs: Seq<Input>) -> Seq<Action>
    decreases inputs.len(),
{
    if inputs.len() == 0 {
        Seq::empty()
    } else {
        let rest = commands(start.next(inputs[0].event, inputs[0].running), inputs.skip(1));
        match start.pending() {
            Some(action) => seq![action] + rest,
            None => rest,
        }
    }
}

/// Whether every input carries a well-formed event.
pub open spec fn inputs_wf(inputs: Seq<Input>) -> bool {
    forall|i: int| 0 <= i < inputs.len() ==> (#[trigger] inputs[i]).event.wf()
}

/// Whether `inputs` are the answers to a stretch of coarse polling in which
/// no poll shows a stall and nobody cancels: inputs at even places are
/// status samples at or below the stall threshold, inputs at odd places
/// acknowledge the pause that follows, with the cancellation flag still
/// reading `running`.
pub open spec fn quiet_polling(inputs: Seq<Input>) -> bool {
    forall|i: int|
        0 <= i < inputs.len() ==> if i % 2 == 0 {
            (#[trigger] inputs[i]).event matches Event::Status(sample) && !sample.exceeds(
                STALL_THRESHOLD_MA,
            )
        } else {
            inputs[i].event is Ack && inputs[i].running
        }
}

/// Running over two sequences of inputs one after the other is running
/// over the first and then, from where that ends, over the second.
pub proof fn lemma_run_concat(start: Calibration, first: Seq<Input>, second: Seq<Input>)
    ensures
        run(start, first + second) == run(run(start, first), second),
    decreases first.len(),
{
    if first.len() == 0 {
        assert(first + second =~= second);
    } else {
        assert((first + second)[0] == first[0]);
        assert((first + second).skip(1) =~= first.skip(1) + second);
        lemma_run_concat(start.next(first[0].event, first[0].running), first.skip(1), second);
    }
}

/// A step from a well-formed state on a well-formed event leads to a
/// well-formed state.
pub proof fn lemma_next_wf(state: Calibration, event: Event, running: bool)
    requires
        state.wf(),
        event.wf(),
    ensures
        state.next(event, running).wf(),
{
}

/// Every state of a run that starts well formed and is fed well-formed
/// events is well formed; in particular every state of a run from the
/// initial state.
pub proof fn lemma_run_wf(start: Calibration, inputs: Seq<Input>)
    requires
        start.wf(),
        inputs_wf(inputs),
    ensures
        run(start, inputs).wf(),
        run(Calibration::initial(), inputs).wf(),
    decreases inputs.len(),
{
    if inputs.len() > 0 {
        let first = inputs[0];
        assert(first.event.wf());
        lemma_next_wf(start, first.event, first.running);
        lemma_next_wf(Calibration::initial(), first.event, first.running);
        assert(inputs_wf(inputs.skip(1))) by {
            assert forall|i: int| 0 <= i < inputs.skip(1).len() implies (#[trigger] inputs.skip(
                1,
            )[i]).event.wf() by {
                assert(inputs.skip(1)[i] == inputs[i + 1]);
            }
        }
        lemma_run_wf(start.next(first.event, first.running), inputs.skip(1));
        lemma_run_wf(Calibration::initial().next(first.event, first.running), inputs.skip(1));
    }
}

/// A finished run takes no notice of further inputs and asks for nothing.
pub proof fn lemma_finished_is_final(outcome: Outcome, inputs: Seq<Input>)
    ensures
        run(Calibration::Finished(outcome), inputs) == Calibration::Finished(outcome),
        commands(Calibration::Finished(outcome), inputs) == Seq::<Action>::empty(),
    decreases inputs.len(),
{
    if inputs.len() > 0 {
        lemma_finished_is_final(outcome, inputs.skip(1));
    }
}

/// Whatever fails, the next action is one attempt to halt the actuator,
/// and whatever answers it, the run then ends as failed. The one exception
/// is the release of torque at the end of the store, whose failure is
/// passed over because the calibration is already stored.
pub proof fn lemma_failure_halts_then_fails(
    state: Calibration,
    running: bool,
    answer: Event,
    flag: bool,
)
    requires
        state.wf(),
        !(state is Finished),
        !(state is Fail),
    ensures
        state.next(Event::Failed, running) == (if state is Store && state->persist.index
            == TORQUE_RELEASE_STEP {
            Calibration::Finished(
                Outcome::Completed {
                    range: state->persist.range,
                    offset: state->persist.range.center_offset() as i16,
                    torque_released: false,
                },
            )
        } else {
            Calibration::Fail
        }),
        Calibration::Fail.pending() == Some(
            Action::SetSpeed { speed: 0, direction: Direction::Forward },
        ),
        Calibration::Fail.next(answer, flag) == Calibration::Finished(Outcome::Failed),
{
}

/// Once a run is abandoned it stays abandoned: from then on it asks for
/// nothing but halts and the switching on of the status broadcast, so it
/// writes to no register, and it cannot end as completed.
pub proof fn lemma_abandoned_is_final(start: Calibration, inputs: Seq<Input>)
    requires
        start.wf(),
        start.abandoned(),
    ensures
        run(start, inputs).wf(),
        run(start, inputs).abandoned(),
        !(run(start, inputs).result() matches Some(Outcome::Completed { .. })),
        forall|i: int|
            0 <= i < commands(start, inputs).len() ==> {
                let action = #[trigger] commands(start, inputs)[i];
                action == emergency_halt() || action == Action::EnableReadout
            },
    decreases inputs.len(),
{
    if inputs.len() > 0 {
        let after = start.next(inputs[0].event, inputs[0].running);
        assert(after.wf() && after.abandoned());
        lemma_abandoned_is_final(after, inputs.skip(1));
        let rest = commands(after, inputs.skip(1));
        match start.pending() {
            Some(action) => {
                assert(action == emergency_halt() || action == Action::EnableReadout);
                assert forall|i: int| 0 <= i < commands(start, inputs).len() implies {
                    let a = #[trigger] commands(start, inputs)[i];
                    a == emergency_halt() || a == Action::EnableReadout
                } by {
                    if i > 0 {
                        assert(commands(start, inputs)[i] == rest[i - 1]);
                    }
                }
            },
            None => {},
        }
    }
}

/// Cancellation seen before a poll, in the coarse sweep or in the slow
/// re-approach, makes a halt the very next action. After it nothing is
/// written, whatever the driver answers, and the run cannot end as
/// completed. If the driver's next three answers are acknowledgements, the
/// run has halted the actuator once more, has switched the status
/// broadcast back on, and has ended as cancelled, which is no failure.
pub proof fn lemma_cancellation_halts_without_writing(state: Calibration, rest: Seq<Input>)
    requires
        state.wf(),
        state.sweep() matches Some((_, phase)) && phase.checks_cancellation(),
    ensures
        ({
            let halted = state.next(Event::Ack, false);
            &&& halted == state.at_phase(SweepPhase::Halt)
            &&& halted.pending() == Some(
                Action::SetSpeed { speed: 0, direction: Direction::Forward },
            )
            &&& forall|i: int|
                0 <= i < commands(halted, rest).len() ==> !(#[trigger] commands(halted, rest)[i]
                    is WriteRegister)
            &&& !(run(halted, rest).result() matches Some(Outcome::Completed { .. }))
            &&& (rest.len() >= 3 && rest[0].event is Ack && rest[1].event is Ack
                && rest[2].event is Ack) ==> {
                &&& run(halted, rest) == Calibration::Finished(Outcome::Cancelled)
                &&& commands(halted, rest) == seq![
                    Action::SetSpeed { speed: 0, direction: Direction::Forward },
                    Action::SetSpeed { speed: 0, direction: Direction::Forward },
                    Action::EnableReadout,
                ]
            }
        }),
{
    let halted = state.next(Event::Ack, false);
    assert(halted == state.at_phase(SweepPhase::Halt));
    lemma_abandoned_is_final(halted, rest);
    assert forall|i: int| 0 <= i < commands(halted, rest).len() implies !(#[trigger] commands(
        halted,
        rest,
    )[i] is WriteRegister) by {
        let action = commands(halted, rest)[i];
        assert(action == emergency_halt() || action == Action::EnableReadout);
    }
    if rest.len() >= 3 && rest[0].event is Ack && rest[1].event is Ack && rest[2].event is Ack {
        let s1 = halted.next(rest[0].event, rest[0].running);
        let r1 = rest.skip(1);
        let s2 = s1.next(r1[0].event, r1[0].running);
        let r2 = r1.skip(1);
        let s3 = s2.next(r2[0].event, r2[0].running);
        let r3 = r2.skip(1);
        assert(s1 == Calibration::Abort { index: 0 });
        assert(s2 == Calibration::Abort { index: 1 });
        assert(s3 == Calibration::Finished(Outcome::Cancelled));
        lemma_finished_is_final(Outcome::Cancelled, r3);
        assert(run(halted, rest) == run(s1, r1));
        assert(run(s1, r1) == run(s2, r2));
        assert(run(s2, r2) == run(s3, r3));
        assert(commands(s2, r2) =~= seq![Action::EnableReadout]);
        assert(commands(s1, r1) =~= seq![
            Action::SetSpeed { speed: 0, direction: Direction::Forward },
            Action::EnableReadout,
        ]);
        assert(commands(halted, rest) =~= seq![
            Action::SetSpeed { speed: 0, direction: Direction::Forward },
            Action::SetSpeed { speed: 0, direction: Direction::Forward },
            Action::EnableReadout,
        ]);
    }
}

/// While every poll of the coarse sweep shows a current at or below the
/// stall threshold and nobody cancels, the sweep goes on polling, however
/// long that lasts: after any number of such answers it is about to poll
/// again or to wait out the interval before the next poll, and all it has
/// asked for are polls and pauses.
pub proof fn lemma_quiet_polling_never_ends(state: Calibration, inputs: Seq<Input>)
    requires
        state.sweep() matches Some((_, phase)) && phase is CoarseRead,
        quiet_polling(inputs),
    ensures
        run(state, inputs) == (if inputs.len() % 2 == 0 {
            state
        } else {
            state.at_phase(SweepPhase::CoarsePause)
        }),
        run(state, inputs).pending() == Some(
            if inputs.len() % 2 == 0 {
                Action::ReadStatus
            } else {
                Action::Sleep { millis: POLL_INTERVAL_MS }
            },
        ),
        commands(state, inputs).len() == inputs.len(),
        forall|i: int|
            0 <= i < inputs.len() ==> #[trigger] commands(state, inputs)[i] == (if i % 2 == 0 {
                Action::ReadStatus
            } else {
                Action::Sleep { millis: POLL_INTERVAL_MS }
            }),
    decreases inputs.len(),
{
    if inputs.len() == 1 {
        assert(inputs[0].event is Status);
        let paused = state.next(inputs[0].event, inputs[0].running);
        assert(paused == state.at_phase(SweepPhase::CoarsePause));
        assert(run(paused, inputs.skip(1)) == paused);
        assert(commands(paused, inputs.skip(1)) =~= Seq::<Action>::empty());
        assert(commands(state, inputs) =~= seq![Action::ReadStatus]);
    } else if inputs.len() >= 2 {
        assert(inputs[0].event is Status);
        let paused = state.next(inputs[0].event, inputs[0].running);
        assert(paused == state.at_phase(SweepPhase::CoarsePause));
        let tail = inputs.skip(1);
        assert(tail[0] == inputs[1]);
        assert(inputs[1].event is Ack && inputs[1].running);
        let polling = paused.next(tail[0].event, tail[0].running);
        assert(polling == state);
        let rest = tail.skip(1);
        assert(rest =~= inputs.skip(2));
        assert(quiet_polling(rest)) by {
            assert forall|i: int| 0 <= i < rest.len() implies if i % 2 == 0 {
                (#[trigger] rest[i]).event matches Event::Status(sample) && !sample.exceeds(
                    STALL_THRESHOLD_MA,
                )
            } else {
                rest[i].event is Ack && rest[i].running
            } by {
                assert(rest[i] == inputs[i + 2]);
            }
        }
        lemma_quiet_polling_never_ends(state, rest);
        assert(run(state, inputs) == run(paused, tail));
        assert(run(paused, tail) == run(polling, rest));
        let inner = commands(state, rest);
        assert(commands(paused, tail) =~= seq![
            Action::Sleep { millis: POLL_INTERVAL_MS },
        ] + inner);
        assert(commands(state, inputs) =~= seq![Action::ReadStatus] + commands(paused, tail));
        assert forall|i: int| 0 <= i < inputs.len() implies #[trigger] commands(state, inputs)[i]
            == (if i % 2 == 0 {
            Action::ReadStatus
        } else {
            Action::Sleep { millis: POLL_INTERVAL_MS }
        }) by {
            if i >= 2 {
                assert(commands(state, inputs)[i] == inner[i - 2]);
            }
        }
    } else {
        assert(commands(state, inputs) =~= Seq::<Action>::empty());
    }
}

/// The slow re-approach ends on a current strictly above twice the stall
/// threshold and on nothing less. A poll that shows more than 1000 mA is
/// followed, after the pause, by the halt at the boundary; any other poll
/// is followed by the next poll, or by the halt of a cancelled sweep. The
/// coarse sweep differs: there a poll above 500 mA already ends the
/// polling.
pub proof fn lemma_contact_threshold_is_strict(
    state: Calibration,
    direction: Direction,
    sample: StatusSample,
    flag: bool,
    running: bool,
)
    requires
        state.sweep() matches Some((sense, _)) && sense == direction,
    ensures
        ({
            let fine = state.at_phase(SweepPhase::FineRead);
            let coarse = state.at_phase(SweepPhase::CoarseRead);
            let after_fine = fine.next(Event::Status(sample), flag).next(Event::Ack, running);
            let after_coarse = coarse.next(Event::Status(sample), flag);
            &&& sample.exceeds(CONTACT_THRESHOLD_MA) <==> sample.current_raw * 65 > 1_000_000
            &&& sample.exceeds(STALL_THRESHOLD_MA) <==> sample.current_raw * 65 > 500_000
            &&& fine.next(Event::Status(sample), flag).pending() == Some(
                Action::Sleep { millis: POLL_INTERVAL_MS },
            )
            &&& sample.exceeds(CONTACT_THRESHOLD_MA) ==> after_fine == state.at_phase(
                SweepPhase::Locate { index: 0 },
            ) && after_fine.pending() == Some(Action::SetSpeed { speed: 0, direction })
            &&& !sample.exceeds(CONTACT_THRESHOLD_MA) && running ==> after_fine == fine
                && after_fine.pending() == Some(Action::ReadStatus)
            &&& !sample.exceeds(CONTACT_THRESHOLD_MA) && !running ==> after_fine == state.at_phase(
                SweepPhase::Halt,
            )
            &&& sample.exceeds(STALL_THRESHOLD_MA) ==> after_coarse == state.at_phase(
                SweepPhase::Relieve { index: 0, stall: sample.position },
            ) && after_coarse.pending() == Some(Action::SetSpeed { speed: 0, direction })
            &&& !sample.exceeds(STALL_THRESHOLD_MA) ==> after_coarse == state.at_phase(
                SweepPhase::CoarsePause,
            )
        }),
{
}

} // verus!
