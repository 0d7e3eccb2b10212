//! A 32-bit unsigned integer that is known not to be zero.

use vstd::prelude::*;

verus! {

/// A `u32` that is never zero. Counts that a stream may declare but that
/// make no sense when zero, such as a bit depth or a palette size, are held
/// in this type.
#[derive(Copy, Clone, Debug, PartialEq, Eq, Structural)]
pub struct NonZeroU32 {
    value: u32,
}

impl View for NonZeroU32 {
    type V = u32;

    closed spec fn view(&self) -> u32 {
        self.value
    }
}

impl NonZeroU32 {
    #[verifier::type_invariant]
    spec fn is_not_zero(self) -> bool {
        self.value != 0
    }

    /// Creates the non-zero integer `n`, or nothing if `n` is zero.
    pub fn new(n: u32) -> (made: Option<NonZeroU32>)
        ensures
            n == 0 ==> made.is_none(),
            n != 0 ==> made.is_some() && made.unwrap()@ == n,
    {
        if n == 0 {
            None
        } else {
            Some(NonZeroU32 { value: n })
        }
    }

    /// Gets the integer, which is not zero.
    pub fn get(&self) -> (n: u32)
        ensures
            n == self@,
            n != 0,
    {
        proof {
            use_type_invariant(self);
        }
        self.value
    }
}

} // verus!
