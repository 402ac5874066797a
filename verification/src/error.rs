//! The ways an operation of the driver can fail.

use vstd::prelude::*;

verus! {

/// Why an operation failed. No failure is retried or recovered from: the
/// chip is left as the last successful write put it.
#[derive(Debug, Clone, Copy, PartialEq, Eq, Structural)]
pub enum DrvError {
    /// The operation does not apply to the motor type of the handle.
    WrongMotorType,
    /// The chip on the bus is not the expected part.
    WrongDeviceId,
    /// A bus transaction failed.
    ConnectionError,
    /// The diagnostic run found the actuator missing, shorted or out of
    /// range.
    DeviceDiagnosticFailed,
    /// Auto-calibration did not converge.
    CalibrationFailed,
    /// Factory calibration was asked for, but the one-time-programmable
    /// memory of the chip was never written.
    OTPNotProgrammed,
    /// The calibration strategy is not one the driver knows. No operation
    /// returns it: the three strategies there are are all carried out.
    WrongCalibrationEnum,
    /// The chip did not finish within the allowed number of polls.
    Timeout,
}

} // verus!
