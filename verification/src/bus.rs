//! The vocabulary between the calibration logic and the driver that owns
//! the bus: what the driver is asked to do, and what it reports back.

use vstd::prelude::*;

verus! {

/// Highest reading of the 12-bit absolute encoder.
pub const MAX_POSITION: u16 = 4095;

/// Encoder counts in one full revolution.
pub const REVOLUTION: u16 = 4096;

/// Encoder reading at the middle of the scale.
pub const MIDPOINT: u16 = 2048;

/// Drive current above which the actuator counts as stalled, in milliamps.
pub const STALL_THRESHOLD_MA: u32 = 500;

/// Drive current above which the slow re-approach counts as having touched
/// the end-stop again, in milliamps: twice the stall threshold.
pub const CONTACT_THRESHOLD_MA: u32 = 1000;

/// Speed of the coarse sweep and of every back-off pulse.
pub const CALIBRATION_SPEED: u16 = 250;

/// Speed of the slow re-approach.
pub const FINE_SPEED: u16 = 10;

/// Pause between two status polls, in milliseconds.
pub const POLL_INTERVAL_MS: u64 = 10;

/// Pause that lets drive current and mechanics come to rest after a speed
/// command, in milliseconds.
pub const SETTLE_MS: u64 = 100;

/// Length of a back-off pulse, in milliseconds.
pub const BACKOFF_PULSE_MS: u64 = 100;

/// Pause between the forward and the backward sweep, in milliseconds.
pub const REVERSAL_PAUSE_MS: u64 = 500;

/// Pause after each write to non-volatile memory, in milliseconds.
pub const WRITE_SETTLE_MS: u64 = 10;

/// Pause between locking the memory and commanding the midpoint, in
/// milliseconds.
pub const RECENTER_DELAY_MS: u64 = 100;

/// Time allowed for the move to the midpoint, in milliseconds.
pub const RECENTER_TRAVEL_MS: u64 = 1000;

/// Register: lower travel limit, two bytes.
pub const ADDR_MIN_ANGLE: u8 = 0x09;

/// Register: upper travel limit, two bytes.
pub const ADDR_MAX_ANGLE: u8 = 0x0B;

/// Register: position correction, two bytes, sign-magnitude.
pub const ADDR_POSITION_CORRECTION: u8 = 0x1F;

/// Register: operating mode.
pub const ADDR_OPERATION_MODE: u8 = 0x21;

/// Register: torque enable.
pub const ADDR_TORQUE_ENABLE: u8 = 0x28;

/// Register: target position, two bytes.
pub const ADDR_TARGET_POSITION: u8 = 0x2A;

/// Register: lock of the non-volatile memory (0 unlocks, 1 locks).
pub const ADDR_EEPROM_LOCK: u8 = 0x37;

/// Operating mode in which the actuator takes absolute target positions.
pub const MODE_POSITION: u8 = 0;

/// Operating mode in which the actuator takes speed and direction.
pub const MODE_CONTINUOUS: u8 = 1;

/// Sense of rotation.
#[derive(Clone, Copy, Debug, PartialEq, Eq)]
pub enum Direction {
    Forward,
    Backward,
}

impl Direction {
    /// The other sense of rotation.
    pub open spec fn reversed(self) -> Direction {
        match self {
            Direction::Forward => Direction::Backward,
            Direction::Backward => Direction::Forward,
        }
    }

    /// The number by which the bus names this direction: `+1` forward,
    /// `-1` backward.
    pub open spec fn signum(self) -> int {
        match self {
            Direction::Forward => 1,
            Direction::Backward => -1,
        }
    }

    /// The other sense of rotation.
    pub fn opposite(self) -> (r: Direction)
        ensures
            r == self.reversed(),
            r != self,
            r.reversed() == self,
    {
        match self {
            Direction::Forward => Direction::Backward,
            Direction::Backward => Direction::Forward,
        }
    }

    /// The number by which the bus names this direction.
    pub fn sign(self) -> (s: i32)
        ensures
            s == self.signum(),
            s == 1 || s == -1,
    {
        match self {
            Direction::Forward => 1,
            Direction::Backward => -1,
        }
    }
}

/// One reading of the actuator's live state.
#[derive(Clone, Copy, Debug, PartialEq, Eq)]
pub struct StatusSample {
    /// Encoder reading, `0..=4095`.
    pub position: u16,
    /// Drive current as the bus reports it; 100 counts are 6.5 mA.
    pub current_raw: u16,
}

/// Drive current of a raw reading in microamps. One count is 6.5/100 mA,
/// that is 65 uA, so the scale is exact in integers.
pub open spec fn current_microamps(current_raw: u16) -> int {
    current_raw * 65
}

/// Whether a raw current reading lies strictly above `threshold_ma`
/// milliamps.
pub open spec fn current_exceeds(current_raw: u16, threshold_ma: u32) -> bool {
    current_microamps(current_raw) > threshold_ma * 1000
}

impl StatusSample {
    /// A sample is well formed when its position is a reading the 12-bit
    /// encoder can give.
    pub open spec fn wf(self) -> bool {
        self.position <= MAX_POSITION
    }

    /// Whether the sample's drive current lies strictly above
    /// `threshold_ma` milliamps.
    pub open spec fn exceeds(self, threshold_ma: u32) -> bool {
        current_exceeds(self.current_raw, threshold_ma)
    }

    /// Builds a sample from a raw reading; `None` when the position is not
    /// one the encoder can give.
    pub fn new(position: u16, current_raw: u16) -> (r: Option<StatusSample>)
        ensures
            r is Some <==> position <= MAX_POSITION,
            r is Some ==> r->0 == (StatusSample { position, current_raw }) && r->0.wf(),
    {
        if position <= MAX_POSITION {
            Some(StatusSample { position, current_raw })
        } else {
            None
        }
    }

    /// Whether the sample's drive current lies strictly above
    /// `threshold_ma` milliamps.
    pub fn current_above(&self, threshold_ma: u32) -> (r: bool)
        ensures
            r == self.exceeds(threshold_ma),
            r <==> self.current_raw * 65 > threshold_ma * 1000,
    {
        let microamps: u64 = (self.current_raw as u64) * 65;
        let limit: u64 = (threshold_ma as u64) * 1000;
        microamps > limit
    }

    /// Whether the sample shows a stall: more than 500 mA.
    pub fn stalled(&self) -> (r: bool)
        ensures
            r == self.exceeds(STALL_THRESHOLD_MA),
            r <==> self.current_raw >= 7693,
    {
        self.current_above(STALL_THRESHOLD_MA)
    }

    /// Whether the sample shows renewed contact with the end-stop: more
    /// than 1000 mA.
    pub fn in_contact(&self) -> (r: bool)
        ensures
            r == self.exceeds(CONTACT_THRESHOLD_MA),
            r <==> self.current_raw >= 15385,
    {
        self.current_above(CONTACT_THRESHOLD_MA)
    }
}

/// Bytes of one register write.
#[derive(Clone, Copy, Debug, PartialEq, Eq)]
pub enum Payload {
    /// A single byte.
    Byte(u8),
    /// A 16-bit value, low byte first.
    Word { low: u8, high: u8 },
}

impl View for Payload {
    type V = Seq<u8>;

    /// The bytes in the order in which they go onto the bus.
    open spec fn view(&self) -> Seq<u8> {
        match *self {
            Payload::Byte(b) => seq![b],
            Payload::Word { low, high } => seq![low, high],
        }
    }
}

impl Payload {
    /// The little-endian payload of a 16-bit value.
    pub open spec fn word(value: u16) -> Payload {
        Payload::Word { low: (value % 256) as u8, high: (value / 256) as u8 }
    }

    /// The 16-bit value that a payload carries.
    pub open spec fn value(self) -> int {
        match self {
            Payload::Byte(b) => b as int,
            Payload::Word { low, high } => low + 256 * high,
        }
    }

    /// The little-endian payload of a 16-bit value.
    pub fn from_word(value: u16) -> (p: Payload)
        ensures
            p == Payload::word(value),
            p@ == seq![(value % 256) as u8, (value / 256) as u8],
            p.value() == value,
    {
        let low: u8 = (value & 0xFF) as u8;
        let high: u8 = ((value >> 8) & 0xFF) as u8;
        assert(value & 0xFF == value % 256) by (bit_vector);
        assert((value >> 8) & 0xFF == value / 256) by (bit_vector);
        Payload::Word { low, high }
    }

    /// The bytes in the order in which they go onto the bus.
    pub fn bytes(&self) -> (v: Vec<u8>)
        ensures
            v@ == self@,
    {
        let mut v: Vec<u8> = Vec::new();
        match *self {
            Payload::Byte(b) => {
                v.push(b);
            },
            Payload::Word { low, high } => {
                v.push(low);
                v.push(high);
            },
        }
        v
    }
}

/// What the driver is asked to do next.
#[derive(Clone, Copy, Debug, PartialEq, Eq)]
pub enum Action {
    /// Switch the periodic status broadcast off.
    DisableReadout,
    /// Switch the periodic status broadcast back on.
    EnableReadout,
    /// Put the actuator into an operating mode.
    SetMode { mode: u8 },
    /// Command a speed in a direction; speed 0 halts.
    SetSpeed { speed: u16, direction: Direction },
    /// Read position and drive current.
    ReadStatus,
    /// Write bytes to a register.
    WriteRegister { address: u8, data: Payload },
    /// Wait.
    Sleep { millis: u64 },
}

/// What the driver reports of the action it was asked for.
#[derive(Clone, Copy, Debug, PartialEq, Eq)]
pub enum Event {
    /// The action was carried out; it returns nothing.
    Ack,
    /// The status that was read.
    Status(StatusSample),
    /// The bus operation failed.
    Failed,
}

impl Event {
    /// An event is well formed when the sample it carries, if any, is.
    pub open spec fn wf(self) -> bool {
        self matches Event::Status(sample) ==> sample.wf()
    }

    /// Whether this event is the successful answer to `action`: a status
    /// for a status read, a bare acknowledgement for anything else.
    pub open spec fn answers(self, action: Action) -> bool {
        match action {
            Action::ReadStatus => self is Status,
            _ => self is Ack,
        }
    }
}

/// A progress message that is due when a state is entered. How it is worded
/// is the driver's business.
#[derive(Clone, Copy, Debug, PartialEq, Eq)]
pub enum Notice {
    /// A sweep in the given direction begins.
    SweepStarted { direction: Direction },
    /// The drive current crossed the stall threshold at this position.
    StallDetected { position: u16 },
    /// The actuator is about to back off from the stop.
    BackingOff,
    /// The back-off is over; the slow re-approach begins.
    BackedOff,
    /// The boundary was read at this position.
    BoundaryFound { position: u16 },
    /// The sweep in the given direction is complete.
    SweepFinished { direction: Direction, boundary: u16 },
    /// Cancellation was seen; the actuator is being halted.
    Interrupted,
    /// The run was cancelled; the status broadcast is being restored.
    CleaningUp,
    /// A bus operation failed; a last halt is being attempted.
    Stopping,
    /// The calibration is about to be written.
    Storing { min_angle: u16, max_angle: u16, offset: i16 },
    /// The calibration is stored and locked.
    Stored,
    /// The actuator has been sent to the midpoint.
    Centering,
}

/// The event and the cancellation flag that the driver hands over in one
/// step: `running` is false once cancellation has been requested.
#[derive(Clone, Copy, Debug, PartialEq, Eq)]
pub struct Input {
    pub event: Event,
    pub running: bool,
}

} // verus!
