//! The driver's error type.
use vstd::prelude::*;

verus! {

/// Failure of a register operation.
#[derive(Debug, Clone, Copy, PartialEq, Eq, PartialOrd, Ord)]
pub enum Pcal6416aError<E> {
    /// I2C bus error, carried unmodified.
    I2c(E),
}

/// Turns the outcome that the bus reported for a register transaction into
/// the driver's result: success stays success, and a bus error is wrapped
/// as it is. Nothing is retried or interpreted.
pub fn complete<E>(outcome: Result<(), E>) -> (r: Result<(), Pcal6416aError<E>>)
    ensures
        outcome is Ok <==> r is Ok,
        outcome matches Err(e) ==> r == Err::<(), Pcal6416aError<E>>(Pcal6416aError::I2c(e)),
{
    match outcome {
        Ok(()) => Ok(()),
        Err(e) => Err(Pcal6416aError::I2c(e)),
    }
}

} // verus!
