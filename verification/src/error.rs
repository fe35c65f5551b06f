//! What can go wrong at the native boundary.

use crate::bindings::fiftyoneDegreesException;
use vstd::prelude::*;

verus! {

/// The failures that this layer reports. Where the engine was called, the
/// error carries the exception record as the engine left it.
#[derive(Debug, PartialEq, Eq)]
pub enum Error {
    /// The path holds a zero byte, so it cannot be handed over as a C string.
    InvalidPath,
    /// The engine did not return the success status, or returned it and left
    /// the manager without an active data set, or wrote to the exception
    /// record. The error carries both codes: the status returned, and the
    /// exception record with its own.
    InitializationFailed { status: u32, exception: fiftyoneDegreesException },
    /// The engine returned no record where it was asked to allocate one.
    ResourceExhausted,
    /// A value query wrote nothing: the property does not exist, or has no
    /// value for the evidence at hand.
    PropertyNotFound { exception: fiftyoneDegreesException },
    /// The engine reported a failure status while processing evidence.
    ProcessingFailed { exception: fiftyoneDegreesException },
}

} // verus!
