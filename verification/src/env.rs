//! Decisions that a JVM TI environment handle makes about its interface version.

use vstd::prelude::*;

use crate::errors::Error;
use crate::errors::SupportError;
use crate::version::JVMTIVersion;

verus! {

/// `Ok` when an environment of version `current` offers what version
/// `version` offers; an unsupported operation otherwise.
pub fn ensure_version(current: JVMTIVersion, version: JVMTIVersion) -> (res: Result<(), Error>)
    ensures
        res == (if current@ < version@ {
            Err(Error::Support(SupportError::OperationUnsupported))
        } else {
            Ok::<(), Error>(())
        }),
{
    if current.raw() < version.raw() {
        Err(Error::Support(SupportError::OperationUnsupported))
    } else {
        Ok(())
    }
}

} // verus!
