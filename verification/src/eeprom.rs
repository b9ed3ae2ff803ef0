//! Storing a calibration in the actuator's non-volatile memory.
//!
//! The memory is unlocked, the actuator is put into position mode, the
//! offset code and the two travel limits are written, and the memory is
//! locked again. The actuator is then sent to the midpoint and given time
//! to get there, the periodic status broadcast is switched back on, and
//! torque is released. Every step is parted from the next by a pause, of
//! the device's write cycle at the least.
//!
//! Nothing is rolled back: the device cannot commit several registers at
//! once, so a write that fails leaves behind whatever was written before
//! it. Only the release of torque at the very end may fail without failing
//! the whole, since by then the calibration is stored.

use crate::bus::{
    Action, Event, Payload, ADDR_EEPROM_LOCK, ADDR_MAX_ANGLE, ADDR_MIN_ANGLE,
    ADDR_OPERATION_MODE, ADDR_POSITION_CORRECTION, ADDR_TARGET_POSITION, ADDR_TORQUE_ENABLE,
    MIDPOINT, MODE_POSITION, RECENTER_DELAY_MS, RECENTER_TRAVEL_MS, WRITE_SETTLE_MS,
};
use crate::range::CalibrationRange;
use vstd::prelude::*;

verus! {

/// Number of steps in [`persist_script`].
pub const PERSIST_STEPS: u8 = 17;

/// Index of the last step, the release of torque.
pub const TORQUE_RELEASE_STEP: u8 = 16;

/// The write of a 16-bit value to a register: two bytes, low byte first.
pub open spec fn word_write(address: u8, value: u16) -> Action {
    Action::WriteRegister { address, data: Payload::word(value) }
}

/// The write of a single byte to a register.
pub open spec fn byte_write(address: u8, value: u8) -> Action {
    Action::WriteRegister { address, data: Payload::Byte(value) }
}

/// The whole sequence that stores `range` and `offset_code`, in order.
pub open spec fn persist_script(range: CalibrationRange, offset_code: u16) -> Seq<Action> {
    seq![
        byte_write(ADDR_EEPROM_LOCK, 0),
        Action::Sleep { millis: WRITE_SETTLE_MS },
        byte_write(ADDR_OPERATION_MODE, MODE_POSITION),
        Action::Sleep { millis: WRITE_SETTLE_MS },
        word_write(ADDR_POSITION_CORRECTION, offset_code),
        Action::Sleep { millis: WRITE_SETTLE_MS },
        word_write(ADDR_MIN_ANGLE, range.min_angle),
        Action::Sleep { millis: WRITE_SETTLE_MS },
        word_write(ADDR_MAX_ANGLE, range.max_angle),
        Action::Sleep { millis: WRITE_SETTLE_MS },
        byte_write(ADDR_EEPROM_LOCK, 1),
        Action::Sleep { millis: RECENTER_DELAY_MS },
        word_write(ADDR_TARGET_POSITION, MIDPOINT),
        Action::Sleep { millis: RECENTER_TRAVEL_MS },
        Action::EnableReadout,
        Action::Sleep { millis: WRITE_SETTLE_MS },
        byte_write(ADDR_TORQUE_ENABLE, 0),
    ]
}

/// The request to write a 16-bit value to a register of the actuator's
/// memory, as two bytes with the low byte first.
pub fn write_servo_memory(address: u8, value: u16) -> (a: Action)
    ensures
        a == word_write(address, value),
        a matches Action::WriteRegister { address: to, data } && to == address && data@ == seq![
            (value % 256) as u8,
            (value / 256) as u8,
        ] && data.value() == value,
{
    Action::WriteRegister { address, data: Payload::from_word(value) }
}

/// A store under way: what is being stored, and which step of
/// [`persist_script`] is outstanding.
#[derive(Clone, Copy, Debug, PartialEq, Eq)]
pub struct Persist {
    pub range: CalibrationRange,
    pub offset_code: u16,
    pub index: u8,
}

/// What one step of a store leads to.
#[derive(Clone, Copy, Debug, PartialEq, Eq)]
pub enum PersistStep {
    /// The store goes on.
    Continue(Persist),
    /// Everything is stored. `torque_released` tells whether the final
    /// release of torque succeeded as well.
    Done { torque_released: bool },
    /// A bus operation failed; what was written before it stays written.
    Failed,
}

impl Persist {
    /// A store is well formed when its step index lies within the script.
    pub open spec fn wf(self) -> bool {
        self.index < PERSIST_STEPS
    }

    /// The store of `range` and `offset_code` at its first step.
    pub open spec fn initial(range: CalibrationRange, offset_code: u16) -> Persist {
        Persist { range, offset_code, index: 0 }
    }

    /// The action that is outstanding.
    pub open spec fn command(self) -> Action {
        persist_script(self.range, self.offset_code)[self.index as int]
    }

    /// Where the store goes when `event` answers the outstanding action.
    ///
    /// Whatever answers the release of torque ends the store: torque counts
    /// as released when the answer is an acknowledgement. Before that, an
    /// event that is not the successful answer to the outstanding action
    /// fails the store, and a successful one leads to the next step.
    pub open spec fn next(self, event: Event) -> PersistStep {
        if self.index == TORQUE_RELEASE_STEP {
            PersistStep::Done { torque_released: event is Ack }
        } else if !event.answers(self.command()) {
            PersistStep::Failed
        } else {
            PersistStep::Continue(Persist { index: (self.index + 1) as u8, ..self })
        }
    }

    /// The store of `range` and `offset_code` at its first step, the
    /// unlocking of the memory.
    pub fn begin(range: CalibrationRange, offset_code: u16) -> (p: Persist)
        ensures
            p == Persist::initial(range, offset_code),
            p.wf(),
    {
        Persist { range, offset_code, index: 0 }
    }

    /// The action that is outstanding.
    pub fn action(&self) -> (a: Action)
        requires
            self.wf(),
        ensures
            a == self.command(),
    {
        let index: u8 = self.index;
        if index == 0 {
            Action::WriteRegister { address: ADDR_EEPROM_LOCK, data: Payload::Byte(0) }
        } else if index == 2 {
            Action::WriteRegister { address: ADDR_OPERATION_MODE, data: Payload::Byte(MODE_POSITION) }
        } else if index == 4 {
            write_servo_memory(ADDR_POSITION_CORRECTION, self.offset_code)
        } else if index == 6 {
            write_servo_memory(ADDR_MIN_ANGLE, self.range.min_angle)
        } else if index == 8 {
            write_servo_memory(ADDR_MAX_ANGLE, self.range.max_angle)
        } else if index == 10 {
            Action::WriteRegister { address: ADDR_EEPROM_LOCK, data: Payload::Byte(1) }
        } else if index == 11 {
            Action::Sleep { millis: RECENTER_DELAY_MS }
        } else if index == 12 {
            write_servo_memory(ADDR_TARGET_POSITION, MIDPOINT)
        } else if index == 13 {
            Action::Sleep { millis: RECENTER_TRAVEL_MS }
        } else if index == 14 {
            Action::EnableReadout
        } else if index == 16 {
            Action::WriteRegister { address: ADDR_TORQUE_ENABLE, data: Payload::Byte(0) }
        } else {
            Action::Sleep { millis: WRITE_SETTLE_MS }
        }
    }

    /// Takes the answer to the outstanding action and says where the store
    /// goes.
    pub fn step(self, event: Event) -> (r: PersistStep)
        requires
            self.wf(),
        ensures
            r == self.next(event),
            r matches PersistStep::Continue(p) ==> p.wf() && p.range == self.range
                && p.offset_code == self.offset_code,
    {
        if self.index == TORQUE_RELEASE_STEP {
            let torque_released: bool = match event {
                Event::Ack => true,
                _ => false,
            };
            PersistStep::Done { torque_released }
        } else {
            match event {
                Event::Ack => PersistStep::Continue(
                    Persist {
                        range: self.range,
                        offset_code: self.offset_code,
                        index: self.index + 1,
                    },
                ),
                _ => PersistStep::Failed,
            }
        }
    }
}

/// The script has the length that the step count names, it writes to no
/// register of the non-volatile memory before the unlock or after the
/// lock, and its last step is the release of torque.
pub proof fn lemma_persist_script_shape(range: CalibrationRange, offset_code: u16)
    ensures
        persist_script(range, offset_code).len() == PERSIST_STEPS,
        persist_script(range, offset_code)[0] == byte_write(ADDR_EEPROM_LOCK, 0),
        persist_script(range, offset_code)[10] == byte_write(ADDR_EEPROM_LOCK, 1),
        persist_script(range, offset_code)[TORQUE_RELEASE_STEP as int] == byte_write(
            ADDR_TORQUE_ENABLE,
            0,
        ),
        forall|i: int|
            0 <= i < PERSIST_STEPS ==> !(#[trigger] persist_script(range, offset_code)[i]
                is ReadStatus),
{
}

} // verus!
