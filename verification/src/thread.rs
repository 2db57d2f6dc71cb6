//! Thread states, priorities and the outcome of operations on lists of threads.

use vstd::prelude::*;

use crate::errors::Error;

verus! {

/// The state of a thread, as reported by `GetThreadState`.
#[derive(Debug, Clone, Copy, PartialEq, Eq, Structural, PartialOrd, Ord, Hash)]
pub struct ThreadState {
    bits: u32,
}

impl View for ThreadState {
    type V = u32;

    closed spec fn view(&self) -> u32 {
        self.bits
    }
}

impl ThreadState {
    #[allow(non_snake_case)]
    pub fn ALIVE() -> (res: Self)
        ensures
            res@ == 0x1u32,
    {
        Self { bits: 0x1u32 }
    }

    #[allow(non_snake_case)]
    pub fn TERMINATED() -> (res: Self)
        ensures
            res@ == 0x2u32,
    {
        Self { bits: 0x2u32 }
    }

    #[allow(non_snake_case)]
    pub fn RUNNABLE() -> (res: Self)
        ensures
            res@ == 0x4u32,
    {
        Self { bits: 0x4u32 }
    }

    #[allow(non_snake_case)]
    pub fn BLOCKED_ON_MONITOR_ENTER() -> (res: Self)
        ensures
            res@ == 0x400u32,
    {
        Self { bits: 0x400u32 }
    }

    #[allow(non_snake_case)]
    pub fn WAITING() -> (res: Self)
        ensures
            res@ == 0x80u32,
    {
        Self { bits: 0x80u32 }
    }

    #[allow(non_snake_case)]
    pub fn WAITING_INDEFINITELY() -> (res: Self)
        ensures
            res@ == 0x10u32,
    {
        Self { bits: 0x10u32 }
    }

    #[allow(non_snake_case)]
    pub fn WAITING_WITH_TIMEOUT() -> (res: Self)
        ensures
            res@ == 0x20u32,
    {
        Self { bits: 0x20u32 }
    }

    #[allow(non_snake_case)]
    pub fn SLEEPING() -> (res: Self)
        ensures
            res@ == 0x40u32,
    {
        Self { bits: 0x40u32 }
    }

    #[allow(non_snake_case)]
    pub fn IN_OBJECT_WAIT() -> (res: Self)
        ensures
            res@ == 0x100u32,
    {
        Self { bits: 0x100u32 }
    }

    #[allow(non_snake_case)]
    pub fn PARKED() -> (res: Self)
        ensures
            res@ == 0x200u32,
    {
        Self { bits: 0x200u32 }
    }

    #[allow(non_snake_case)]
    pub fn SUSPENDED() -> (res: Self)
        ensures
            res@ == 0x100000u32,
    {
        Self { bits: 0x100000u32 }
    }

    #[allow(non_snake_case)]
    pub fn INTERRUPTED() -> (res: Self)
        ensures
            res@ == 0x200000u32,
    {
        Self { bits: 0x200000u32 }
    }

    #[allow(non_snake_case)]
    pub fn IN_NATIVE() -> (res: Self)
        ensures
            res@ == 0x400000u32,
    {
        Self { bits: 0x400000u32 }
    }

    #[allow(non_snake_case)]
    pub fn VENDOR1() -> (res: Self)
        ensures
            res@ == 0x10000000u32,
    {
        Self { bits: 0x10000000u32 }
    }

    #[allow(non_snake_case)]
    pub fn VENDOR2() -> (res: Self)
        ensures
            res@ == 0x20000000u32,
    {
        Self { bits: 0x20000000u32 }
    }

    #[allow(non_snake_case)]
    pub fn VENDOR3() -> (res: Self)
        ensures
            res@ == 0x40000000u32,
    {
        Self { bits: 0x40000000u32 }
    }

    /// The set holding exactly `bits`, as a specification.
    pub closed spec fn spec_from_bits(bits: u32) -> Self {
        Self { bits }
    }

    /// The set built by `spec_from_bits` holds the bits it was given.
    pub broadcast proof fn lemma_spec_from_bits(bits: u32)
        ensures
            #[trigger] Self::spec_from_bits(bits)@ == bits,
    {
    }

    /// A set is determined by its bits.
    pub proof fn lemma_view_determines(a: Self, b: Self)
        ensures
            a@ == b@ ==> a == b,
    {
    }

    /// The set holding exactly the bits of `bits`, known or not.
    pub fn from_bits_retain(bits: u32) -> (res: Self)
        ensures
            res@ == bits,
    {
        Self { bits }
    }

    /// The set holding the bits of `bits`; every bit is a known flag, so this never fails.
    pub fn from_bits(bits: u32) -> (res: Option<Self>)
        ensures
            res matches Some(f) && f@ == bits,
    {
        Some(Self { bits })
    }

    /// The set holding the known bits of `bits`, which are all of them.
    pub fn from_bits_truncate(bits: u32) -> (res: Self)
        ensures
            res@ == bits,
    {
        Self { bits }
    }

    /// The raw bits of the set.
    pub fn bits(&self) -> (res: u32)
        ensures
            res == self@,
    {
        self.bits
    }

    /// The set with no flag.
    pub fn empty() -> (res: Self)
        ensures
            res@ == 0,
    {
        Self { bits: 0 }
    }

    /// The set with every flag.
    pub fn all() -> (res: Self)
        ensures
            res@ == 0xffff_ffffu32,
    {
        Self { bits: 0xffff_ffffu32 }
    }

    /// Whether no flag is set.
    pub fn is_empty(&self) -> (res: bool)
        ensures
            res == (self@ == 0),
    {
        self.bits == 0
    }

    /// Whether every flag is set.
    pub fn is_all(&self) -> (res: bool)
        ensures
            res == (self@ == 0xffff_ffffu32),
    {
        self.bits == 0xffff_ffffu32
    }

    /// Whether every flag of `other` is set in `self`.
    pub fn contains(&self, other: Self) -> (res: bool)
        ensures
            res == (self@ & other@ == other@),
    {
        self.bits & other.bits == other.bits
    }

    /// Whether some flag of `other` is set in `self`.
    pub fn intersects(&self, other: Self) -> (res: bool)
        ensures
            res == (self@ & other@ != 0),
    {
        self.bits & other.bits != 0
    }

    /// The flags set in either.
    pub fn union(self, other: Self) -> (res: Self)
        ensures
            res@ == self@ | other@,
    {
        Self { bits: self.bits | other.bits }
    }

    /// The flags set in both.
    pub fn intersection(self, other: Self) -> (res: Self)
        ensures
            res@ == self@ & other@,
    {
        Self { bits: self.bits & other.bits }
    }

    /// The flags of `self` that are not in `other`.
    pub fn difference(self, other: Self) -> (res: Self)
        ensures
            res@ == self@ & !other@,
    {
        Self { bits: self.bits & !other.bits }
    }

    /// The flags set in exactly one of the two.
    pub fn symmetric_difference(self, other: Self) -> (res: Self)
        ensures
            res@ == self@ ^ other@,
    {
        Self { bits: self.bits ^ other.bits }
    }

    /// The flags not set in `self`.
    pub fn complement(self) -> (res: Self)
        ensures
            res@ == !self@,
    {
        Self { bits: !self.bits }
    }

    /// Sets the flags of `other`.
    pub fn insert(&mut self, other: Self)
        ensures
            final(self)@ == old(self)@ | other@,
    {
        self.bits = self.bits | other.bits;
    }

    /// Clears the flags of `other`.
    pub fn remove(&mut self, other: Self)
        ensures
            final(self)@ == old(self)@ & !other@,
    {
        self.bits = self.bits & !other.bits;
    }

    /// Flips the flags of `other`.
    pub fn toggle(&mut self, other: Self)
        ensures
            final(self)@ == old(self)@ ^ other@,
    {
        self.bits = self.bits ^ other.bits;
    }

    /// Sets the flags of `other` when `value` holds, clears them otherwise.
    pub fn set(&mut self, other: Self, value: bool)
        ensures
            final(self)@ == (if value {
                old(self)@ | other@
            } else {
                old(self)@ & !other@
            }),
    {
        if value {
            self.insert(other);
        } else {
            self.remove(other);
        }
    }
}

/// The lowest thread priority.
pub const THREAD_MIN_PRIORITY: u32 = 1;

/// The priority of a thread that was given none.
pub const THREAD_NORM_PRIORITY: u32 = 5;

/// The highest thread priority.
pub const THREAD_MAX_PRIORITY: u32 = 10;

/// A thread priority, between the lowest and the highest one.
#[derive(Debug, Clone, Copy, PartialEq, Eq, Structural, PartialOrd, Ord, Hash)]
pub struct ThreadPriority(u32);

impl View for ThreadPriority {
    type V = u32;

    closed spec fn view(&self) -> u32 {
        self.0
    }
}

/// The raw values that are thread priorities.
pub open spec fn is_thread_priority(value: u32) -> bool {
    THREAD_MIN_PRIORITY <= value <= THREAD_MAX_PRIORITY
}

impl ThreadPriority {
    #[verifier::type_invariant]
    spec fn inv(self) -> bool {
        is_thread_priority(self.0)
    }

    /// A priority is determined by its raw value.
    pub proof fn lemma_view_determines(a: Self, b: Self)
        ensures
            a@ == b@ ==> a == b,
    {
    }

    /// The lowest priority.
    #[allow(non_snake_case)]
    pub fn MIN() -> (res: Self)
        ensures
            res@ == THREAD_MIN_PRIORITY,
    {
        Self(THREAD_MIN_PRIORITY)
    }

    /// The highest priority.
    #[allow(non_snake_case)]
    pub fn MAX() -> (res: Self)
        ensures
            res@ == THREAD_MAX_PRIORITY,
    {
        Self(THREAD_MAX_PRIORITY)
    }

    /// The normal priority.
    #[allow(non_snake_case)]
    pub fn NORMAL() -> (res: Self)
        ensures
            res@ == THREAD_NORM_PRIORITY,
    {
        Self(THREAD_NORM_PRIORITY)
    }

    /// The priority `value`, if it lies between the lowest and the highest one.
    pub fn new(value: u32) -> (res: Option<Self>)
        ensures
            res is Some <==> is_thread_priority(value),
            res matches Some(p) ==> p@ == value,
    {
        if THREAD_MIN_PRIORITY <= value && value <= THREAD_MAX_PRIORITY {
            Some(Self(value))
        } else {
            None
        }
    }

    /// The priority `value`, which must lie between the lowest and the highest one.
    pub fn new_unchecked(value: u32) -> (res: Self)
        requires
            is_thread_priority(value),
        ensures
            res@ == value,
    {
        Self(value)
    }

    /// The raw priority, always between the lowest and the highest one.
    pub fn raw(self) -> (res: u32)
        ensures
            res == self@,
            is_thread_priority(res),
    {
        proof {
            use_type_invariant(&self);
        }
        self.0
    }
}

impl Default for ThreadPriority {
    fn default() -> (res: Self)
        ensures
            res@ == THREAD_NORM_PRIORITY,
    {
        Self::NORMAL()
    }
}

/// The outcome of an operation on each thread of a list, from the error codes
/// that the operation reported for each of them.
pub fn thread_results(codes: &[u32]) -> (res: Vec<Result<(), Error>>)
    requires
        forall|i: int| 0 <= i < codes@.len() ==> Error::readable_code(#[trigger] codes@[i]),
    ensures
        res@.len() == codes@.len(),
        forall|i: int| 0 <= i < codes@.len() ==> #[trigger] res@[i] == Error::spec_result(codes@[i]),
{
    let mut res: Vec<Result<(), Error>> = Vec::new();
    let mut i: usize = 0;
    while i < codes.len()
        invariant
            i <= codes@.len(),
            res@.len() == i,
            forall|j: int| 0 <= j < codes@.len() ==> Error::readable_code(#[trigger] codes@[j]),
            forall|j: int| 0 <= j < i ==> #[trigger] res@[j] == Error::spec_result(codes@[j]),
        decreases codes@.len() - i,
    {
        res.push(Error::code_to_result(codes[i]));
        i = i + 1;
    }
    res
}

} // verus!
