//! Driver for the DRV2605L haptic motor controller.
//!
//! The chip drives ERM and LRA actuators and is configured over I2C. The
//! driver hides the register map behind a handful of operations: bring the
//! chip up with one of three calibration strategies, select a drive mode,
//! load waveform effects, trigger playback and park the chip in standby.
//!
//! Every bus transaction a handle issues is recorded in a ghost trace, and
//! the contract of each operation states exactly which transactions it adds
//! to that trace for every way the bus may answer.

pub mod bits;
pub mod calibration;
pub mod driver;
pub mod effect;
pub mod error;
pub mod protocol;
pub mod registers;
pub mod transport;

pub use crate::calibration::{Calibration, CalibrationParams, LoadParams};
pub use crate::driver::Drv2605l;
pub use crate::effect::Effect;
pub use crate::error::DrvError;
pub use crate::protocol::DriveMode;
pub use crate::registers::{
    AutoCalibrationCompensationBackEmfReg, AutoCalibrationCompensationReg, BrakeTimeOffsetReg,
    Library, Mode, OverdriveClampReg, OverdriveTimeOffsetReg, RatedVoltageReg, Register,
    SustainTimeOffsetNegativeReg, SustainTimeOffsetPositiveReg,
};
pub use crate::transport::{Transport, ADDRESS};
