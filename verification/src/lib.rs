//! Bring-up and cyclic control of a fieldbus motor drive, as verified logic.
//!
//! The library decides; its caller talks to the network. Nothing here sends a
//! frame, reads a clock or sleeps: every function takes plain values and
//! gives plain values back, and says in its contract what they are.
//!
//! - [`words`]: the control and status words of the drive profile.
//! - [`image`]: the typed records of a device and their bytes in the process
//!   image.
//! - [`context`]: the master context, which owns the device table and the
//!   process image.
//! - [`exchange`]: what a tick of the cyclic exchange is worth.
//! - [`bus`]: the network states and the bounded bring-up to `Op`.
//! - [`setup`]: the parameters written to the drive before its data is
//!   mapped.
//! - [`drive`]: the drive's power-state machine and the setpoint ramp.
//! - [`cycle`]: the reaction to one tick.
//! - [`run`]: a whole run, from discovery to shutdown.
//! - [`error`]: what can go wrong.

pub mod bus;
pub mod context;
pub mod cycle;
pub mod drive;
pub mod error;
pub mod exchange;
pub mod image;
pub mod run;
pub mod setup;
pub mod words;
