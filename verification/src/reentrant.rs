//! The token that accounts for one level of nesting.

use vstd::prelude::*;

verus! {

/// Stands for one enum that a decoder has entered and not yet left. Only
/// [`crate::de::Deserializer::acquire`] makes one, and only where the limit
/// allows; [`crate::de::Deserializer::release`] takes it back.
pub struct ReentrantGuard {
    level: usize,
}

impl ReentrantGuard {
    #[verifier::type_invariant]
    closed spec fn entered(self) -> bool {
        self.level >= 1
    }

    /// The depth of the decoder right after it handed this guard out.
    pub closed spec fn level(self) -> nat {
        self.level as nat
    }

    pub(crate) fn at(level: usize) -> (guard: Self)
        requires
            level >= 1,
        ensures
            guard.level() == level,
    {
        ReentrantGuard { level }
    }

    /// The depth of the decoder right after it handed this guard out: at
    /// least one.
    pub fn depth(&self) -> (level: usize)
        ensures
            level == self.level(),
            level >= 1,
    {
        proof {
            use_type_invariant(self);
        }
        self.level
    }
}

} // verus!
