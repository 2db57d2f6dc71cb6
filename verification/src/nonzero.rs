//! Integers that are known not to be zero.

use vstd::prelude::*;

verus! {

/// A `u8` that is not zero.
#[derive(Debug, Clone, Copy, PartialEq, Eq, Structural, PartialOrd, Ord, Hash)]
pub struct NonZeroU8 {
    value: u8,
}

impl View for NonZeroU8 {
    type V = u8;

    closed spec fn view(&self) -> u8 {
        self.value
    }
}

impl NonZeroU8 {
    #[verifier::type_invariant]
    spec fn inv(self) -> bool {
        self.value != 0
    }

    /// The value holding `value`, as a specification.
    pub closed spec fn spec_new(value: u8) -> Self {
        NonZeroU8 { value }
    }

    /// The value built by `spec_new` holds what it was given.
    pub broadcast proof fn lemma_spec_new(value: u8)
        ensures
            #[trigger] Self::spec_new(value)@ == value,
    {
    }

    /// A value is the one that `spec_new` builds from what it holds.
    pub broadcast proof fn lemma_view_determines(n: Self)
        ensures
            #[trigger] Self::spec_new(n@) == n,
    {
    }

    /// `value`, if it is not zero.
    pub fn new(value: u8) -> (res: Option<Self>)
        ensures
            res is Some <==> value != 0,
            res matches Some(n) ==> n == Self::spec_new(value),
    {
        if value != 0 {
            Some(NonZeroU8 { value })
        } else {
            None
        }
    }

    /// `value`, which must not be zero.
    pub fn new_unchecked(value: u8) -> (res: Self)
        requires
            value != 0,
        ensures
            res == Self::spec_new(value),
    {
        NonZeroU8 { value }
    }

    /// The value held, which is never zero.
    pub fn get(self) -> (res: u8)
        ensures
            res == self@,
            res != 0,
    {
        proof {
            use_type_invariant(&self);
        }
        self.value
    }
}

/// An `i32` that is not zero.
#[derive(Debug, Clone, Copy, PartialEq, Eq, Structural, PartialOrd, Ord, Hash)]
pub struct NonZeroI32 {
    value: i32,
}

impl View for NonZeroI32 {
    type V = i32;

    closed spec fn view(&self) -> i32 {
        self.value
    }
}

impl NonZeroI32 {
    #[verifier::type_invariant]
    spec fn inv(self) -> bool {
        self.value != 0
    }

    /// The value holding `value`, as a specification.
    pub closed spec fn spec_new(value: i32) -> Self {
        NonZeroI32 { value }
    }

    /// The value built by `spec_new` holds what it was given.
    pub broadcast proof fn lemma_spec_new(value: i32)
        ensures
            #[trigger] Self::spec_new(value)@ == value,
    {
    }

    /// A value is the one that `spec_new` builds from what it holds.
    pub broadcast proof fn lemma_view_determines(n: Self)
        ensures
            #[trigger] Self::spec_new(n@) == n,
    {
    }

    /// `value`, if it is not zero.
    pub fn new(value: i32) -> (res: Option<Self>)
        ensures
            res is Some <==> value != 0,
            res matches Some(n) ==> n == Self::spec_new(value),
    {
        if value != 0 {
            Some(NonZeroI32 { value })
        } else {
            None
        }
    }

    /// The value held, which is never zero.
    pub fn get(self) -> (res: i32)
        ensures
            res == self@,
            res != 0,
    {
        proof {
            use_type_invariant(&self);
        }
        self.value
    }
}

/// An `i64` that is not zero.
#[derive(Debug, Clone, Copy, PartialEq, Eq, Structural, PartialOrd, Ord, Hash)]
pub struct NonZeroI64 {
    value: i64,
}

impl View for NonZeroI64 {
    type V = i64;

    closed spec fn view(&self) -> i64 {
        self.value
    }
}

impl NonZeroI64 {
    #[verifier::type_invariant]
    spec fn inv(self) -> bool {
        self.value != 0
    }

    /// The value holding `value`, as a specification.
    pub closed spec fn spec_new(value: i64) -> Self {
        NonZeroI64 { value }
    }

    /// The value built by `spec_new` holds what it was given.
    pub broadcast proof fn lemma_spec_new(value: i64)
        ensures
            #[trigger] Self::spec_new(value)@ == value,
    {
    }

    /// A value is the one that `spec_new` builds from what it holds.
    pub broadcast proof fn lemma_view_determines(n: Self)
        ensures
            #[trigger] Self::spec_new(n@) == n,
    {
    }

    /// `value`, if it is not zero.
    pub fn new(value: i64) -> (res: Option<Self>)
        ensures
            res is Some <==> value != 0,
            res matches Some(n) ==> n == Self::spec_new(value),
    {
        if value != 0 {
            Some(NonZeroI64 { value })
        } else {
            None
        }
    }

    /// The value held, which is never zero.
    pub fn get(self) -> (res: i64)
        ensures
            res == self@,
            res != 0,
    {
        proof {
            use_type_invariant(&self);
        }
        self.value
    }
}

/// The facts about the specification constructors of non-zero integers.
pub broadcast group group_nonzero {
    NonZeroU8::lemma_spec_new,
    NonZeroU8::lemma_view_determines,
    NonZeroI32::lemma_spec_new,
    NonZeroI32::lemma_view_determines,
    NonZeroI64::lemma_spec_new,
    NonZeroI64::lemma_view_determines,
}

} // verus!
