//! The outcome of an agent's start, as the virtual machine expects it.

use vstd::prelude::*;

use crate::nonzero::NonZeroI32;

verus! {

broadcast use crate::nonzero::group_nonzero;

/// How an agent's start ended: success, or a non-zero code.
pub type StartResult = Result<(), NonZeroI32>;

/// The start outcome that a JNI status code stands for: zero is success.
pub open spec fn spec_resolve_code(code: i32) -> StartResult {
    if code == 0 {
        Ok(())
    } else {
        Err(NonZeroI32::spec_new(code))
    }
}

/// The status code that the virtual machine receives for a start outcome.
pub open spec fn spec_start_code(res: StartResult) -> i32 {
    match res {
        Ok(()) => 0i32,
        Err(c) => c@,
    }
}

/// What an agent's start function may return.
pub trait IntoStartResult {
    /// The start outcome that the value stands for.
    fn resolve(self) -> StartResult;
}

impl IntoStartResult for () {
    fn resolve(self) -> (res: StartResult)
        ensures
            res is Ok,
    {
        Ok(())
    }
}

impl IntoStartResult for i32 {
    fn resolve(self) -> (res: StartResult)
        ensures
            res == spec_resolve_code(self),
            res is Ok <==> self == 0,
    {
        match NonZeroI32::new(self) {
            Some(code) => Err(code),
            None => Ok(()),
        }
    }
}

impl IntoStartResult for StartResult {
    fn resolve(self) -> (res: StartResult)
        ensures
            res == self,
    {
        self
    }
}

/// The code that the virtual machine receives for a start outcome: zero for
/// success, the error's code otherwise.
pub fn start_code(res: StartResult) -> (code: i32)
    ensures
        code == spec_start_code(res),
        res is Ok <==> code == 0,
{
    match res {
        Ok(()) => 0,
        Err(code) => code.get(),
    }
}

/// A status code that an agent returns reaches the virtual machine
/// unchanged, and a start outcome read from the code that stands for it is
/// the outcome itself.
pub proof fn lemma_start_code_roundtrip(code: i32, res: StartResult)
    requires
        res matches Err(c) ==> c@ != 0,
    ensures
        spec_start_code(spec_resolve_code(code)) == code,
        spec_resolve_code(spec_start_code(res)) == res,
{
    match res {
        Ok(u) => {
            assert(spec_start_code(res) == 0);
            assert(res == Ok::<(), NonZeroI32>(u));
        },
        Err(c) => NonZeroI32::lemma_view_determines(c),
    }
}

} // verus!
