//! What can go wrong, by the stage at which it is found.

use vstd::prelude::*;

use crate::bus::BusState;
use crate::drive::DriveState;
use crate::image::LayoutMismatch;

verus! {

/// A fault of discovery, device setup, mapping or layout. It is found before
/// any motion and aborts the run.
#[derive(Clone, Copy, Debug, PartialEq, Eq, Structural)]
pub enum ConfigError {
    /// A ramp with a negative step or a negative maximum.
    InvalidRamp { step: i32, max: i32 },
    /// A context was asked for with room for no device.
    NoCapacity,
    /// A context was asked for with room for more devices than the process
    /// image can serve.
    CapacityTooLarge { capacity: usize, most: usize },
    /// A context was asked for on an interface without a name.
    NoInterface,
    /// The probe found more devices than the table has room for.
    TableFull { found: usize, capacity: usize },
    /// The device table cannot change any more: the mapping is final.
    AlreadyMapped,
    /// No device has this address.
    UnknownDevice { device: usize },
    /// The device is not the one that this controller drives.
    UnexpectedDevice { vendor: u32, product: u32 },
    /// The configuration hook of the device has run already.
    HookSpent { device: usize },
    /// The configuration hook of the device was registered and has not run.
    HookPending { device: usize },
    /// The transport mapped regions for another number of devices than the
    /// table holds.
    DeviceCountMismatch { expected: usize, actual: usize },
    /// A region mapped for the device is not as wide as its typed record.
    Layout { device: usize, mismatch: LayoutMismatch },
    /// The probe found no device.
    NoDevices,
    /// The bytes received for the inputs segment are not as many as the
    /// segment is long.
    InputsSegment { mismatch: LayoutMismatch },
    /// The device refused a parameter.
    ParameterRefused { index: u16, subindex: u8 },
    /// The transport could not map the process image.
    MappingFailed,
    /// The transport could not set up the distributed clock.
    ClockFailed,
    /// An event arrived that answers no action that was asked for.
    OutOfTurn,
}

/// Why a run ended in failure.
#[derive(Clone, Copy, Debug, PartialEq, Eq, Structural)]
pub enum RunError {
    Config(ConfigError),
    StateTransition(StateTransitionError),
    Exchange(ExchangeTimeout),
}

/// The bus or the drive did not reach a state within its retry budget.
#[derive(Clone, Copy, Debug, PartialEq, Eq, Structural)]
pub enum StateTransitionError {
    /// The bus did not reach `Op`; `last_observed` is the state that the last
    /// poll reported, after `attempts` polls.
    Bus { last_observed: BusState, attempts: u32 },
    /// The drive did not acknowledge `state`; `status_word` is the last status
    /// word seen, on tick `waited` of the wait.
    Drive { state: DriveState, status_word: u16, waited: u32 },
}

/// Exchange ticks kept falling short of the expected liveness count.
#[derive(Clone, Copy, Debug, PartialEq, Eq, Structural)]
pub struct ExchangeTimeout {
    /// Liveness count of the tick that was one too many.
    pub count: i32,
    /// Liveness count that the tick should have reached.
    pub expected: u32,
    /// Number of short ticks in a row, that tick included.
    pub consecutive: u32,
}

} // verus!
