//! Decisions about the system properties of the virtual machine.

use vstd::prelude::*;

use crate::errors::Error;
use crate::errors::SupportError;

verus! {

/// Whether a system property may be written, from the outcome of setting it
/// to nothing: success means writable, an unavailable functionality means
/// read-only, and any other error stands.
pub fn property_writable(outcome: Result<(), Error>) -> (res: Result<bool, Error>)
    ensures
        res == (match outcome {
            Ok(()) => Ok(true),
            Err(Error::Support(SupportError::NotAvailable)) => Ok(false),
            Err(e) => Err(e),
        }),
{
    match outcome {
        Ok(()) => Ok(true),
        Err(Error::Support(SupportError::NotAvailable)) => Ok(false),
        Err(err) => Err(err),
    }
}

} // verus!
