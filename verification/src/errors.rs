//! Error types of the driver.

use vstd::prelude::*;

verus! {

/// Failure of a driver operation.
///
/// Every fallible operation returns one of these two kinds and nothing else;
/// a transport failure is passed through unchanged, never retried.
#[derive(Debug)]
pub enum Error<E> {
    /// The underlying bus transport reported a failure. The payload is the
    /// transport's own error value, carried through untouched.
    I2c(E),
    /// An internal register mapping failed on a port index outside 0..3.
    /// The closed pin and port enumerations make this unreachable; the
    /// variant exists so that an invariant violation still has a
    /// deterministic answer.
    InvalidRegisterOrPin,
}

} // verus!
