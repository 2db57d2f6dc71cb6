//! Memory that a JVM TI environment hands out.

use core::marker::PhantomData;

use vstd::prelude::*;

verus! {

/// An allocation made by a JVM TI environment that nothing manages yet, by
/// its address.
#[derive(Debug)]
pub struct JPtr<T> {
    addr: usize,
    marker: PhantomData<T>,
}

impl<T> View for JPtr<T> {
    type V = usize;

    closed spec fn view(&self) -> usize {
        self.addr
    }
}

impl<T> JPtr<T> {
    /// Takes over the allocation at `addr`.
    pub fn new(addr: usize) -> (res: Self)
        ensures
            res@ == addr,
    {
        JPtr { addr, marker: PhantomData }
    }

    /// The address of the allocation.
    pub fn raw(self) -> (res: usize)
        ensures
            res == self@,
    {
        self.addr
    }
}

/// The size to ask the environment for when `size` bytes are wanted: none
/// for zero bytes, which need no allocation, and otherwise `size` as a JNI
/// `jlong`.
pub fn allocation_request(size: usize) -> (res: Option<i64>)
    ensures
        res == (if size == 0 {
            None::<i64>
        } else {
            Some(size as i64)
        }),
{
    if size != 0 {
        Some(size as i64)
    } else {
        None
    }
}

} // verus!
