//! Integers that are known not to be zero.
//!
//! These stand for `core::num::NonZero<u32>` and `core::num::NonZero<u64>`: the
//! value is fixed when the number is made and can only be read back.
use vstd::prelude::*;

verus! {

/// A `u32` that is never zero.
#[derive(Clone, Copy, Debug, PartialEq, Eq, PartialOrd, Ord, Hash)]
pub struct NonZeroU32 {
    value: u32,
}

impl View for NonZeroU32 {
    type V = u32;

    closed spec fn view(&self) -> u32 {
        self.value
    }
}

impl NonZeroU32 {
    #[verifier::type_invariant]
    spec fn inv(self) -> bool {
        self.value != 0
    }

    /// Returns `Some` holding `n` when `n` is not zero, and `None` otherwise.
    pub fn new(n: u32) -> (r: Option<Self>)
        ensures
            r is Some <==> n != 0,
            r matches Some(z) ==> z@ == n,
    {
        if n == 0 {
            None
        } else {
            Some(NonZeroU32 { value: n })
        }
    }

    /// The value, which is never zero.
    pub fn get(self) -> (r: u32)
        ensures
            r == self@,
            r != 0,
    {
        proof {
            use_type_invariant(&self);
        }
        self.value
    }

    /// The number whose value is `v`, as a specification value.
    pub closed spec fn with_value(v: u32) -> Self {
        NonZeroU32 { value: v }
    }

    /// The number made by `with_value` has the value it was made with.
    pub broadcast proof fn lemma_with_value(v: u32)
        ensures
            #![trigger Self::with_value(v)]
            Self::with_value(v)@ == v,
    {
    }

    /// Two such numbers are the same exactly when their values are.
    pub broadcast proof fn lemma_view_injective(a: Self, b: Self)
        ensures
            #![trigger a@, b@]
            a@ == b@ <==> a == b,
    {
    }
}

/// A `u64` that is never zero.
#[derive(Clone, Copy, Debug, PartialEq, Eq, PartialOrd, Ord, Hash)]
pub struct NonZeroU64 {
    value: u64,
}

impl View for NonZeroU64 {
    type V = u64;

    closed spec fn view(&self) -> u64 {
        self.value
    }
}

impl NonZeroU64 {
    #[verifier::type_invariant]
    spec fn inv(self) -> bool {
        self.value != 0
    }

    /// Returns `Some` holding `n` when `n` is not zero, and `None` otherwise.
    pub fn new(n: u64) -> (r: Option<Self>)
        ensures
            r is Some <==> n != 0,
            r matches Some(z) ==> z@ == n,
    {
        if n == 0 {
            None
        } else {
            Some(NonZeroU64 { value: n })
        }
    }

    /// The value, which is never zero.
    pub fn get(self) -> (r: u64)
        ensures
            r == self@,
            r != 0,
    {
        proof {
            use_type_invariant(&self);
        }
        self.value
    }

    /// The number whose value is `v`, as a specification value.
    pub closed spec fn with_value(v: u64) -> Self {
        NonZeroU64 { value: v }
    }

    /// The number made by `with_value` has the value it was made with.
    pub broadcast proof fn lemma_with_value(v: u64)
        ensures
            #![trigger Self::with_value(v)]
            Self::with_value(v)@ == v,
    {
    }

    /// Two such numbers are the same exactly when their values are.
    pub broadcast proof fn lemma_view_injective(a: Self, b: Self)
        ensures
            #![trigger a@, b@]
            a@ == b@ <==> a == b,
    {
    }
}

pub broadcast group group_nonzero {
    NonZeroU32::lemma_view_injective,
    NonZeroU32::lemma_with_value,
    NonZeroU64::lemma_view_injective,
    NonZeroU64::lemma_with_value,
}

} // verus!
