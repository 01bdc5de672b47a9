//! Why the controller's work can end.

use vstd::prelude::*;

verus! {

/// Why the runner has ended. Any error of the hardware ends it; there is no
/// other end.
#[derive(Debug)]
pub enum RunError<ResetPinError, InterruptPinError, I2cError> {
    ResetPin(ResetPinError),
    InterruptPin(InterruptPinError),
    I2c(I2cError),
}

/// Why a wait for a change of an input has ended without one.
#[derive(Debug)]
pub enum WaitForChangeError<InterruptPinError, I2cError> {
    InterruptPin(InterruptPinError),
    I2c(I2cError),
}

/// Marks an input whose interrupt is enabled.
pub struct InterruptsEnabled;

} // verus!
