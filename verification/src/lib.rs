//! End-stop calibration of a geared position-feedback actuator.
//!
//! The actuator sits on a register-addressed bus. Calibration drives it
//! against each mechanical end-stop, recognises the stop by the spike in
//! drive current, pins the boundary down at low speed, and stores the
//! resulting travel limits and centre correction in the actuator's
//! non-volatile memory.
//!
//! The library holds every decision of that procedure and none of its
//! input or output. [`controller::Calibration`] is a state machine: each
//! state names the one bus operation or pause that is due next, and
//! [`controller::Calibration::step`] takes the answer to it and yields the
//! following state. A driver performs the operations, reads the
//! cancellation flag and feeds the answers back.
//!
//! * [`bus`]: the vocabulary shared with the driver (operations, answers,
//!   status samples, register map).
//! * [`range`]: travel range, centre offset and its sign-magnitude encoding.
//! * [`sweep`]: one directional sweep against an end-stop.
//! * [`eeprom`]: the write sequence that stores a calibration.
//! * [`controller`]: the whole run, two sweeps and the store.
//! * [`trace`]: runs of the machine over sequences of answers, and what
//!   holds of them.

pub mod bus;
pub mod range;
pub mod sweep;
pub mod eeprom;
pub mod controller;
pub mod trace;
