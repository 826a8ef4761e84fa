//! Random draws used by the agent's policy.
use vstd::prelude::*;

verus! {

/// Relies on rand::random: a value drawn from the standard distribution of
/// `T`; nothing can be promised of it.
pub assume_specification<T>[ rand::random::<T> ]() -> (r: T)
    where
        rand::distributions::Standard: rand::distributions::Distribution<T>,
;

} // verus!
