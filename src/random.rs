//! Random draws for the starting positions of the circles.
use vstd::prelude::*;

verus! {

/// Relies on rand::random: a value drawn from the thread-local generator.
/// Nothing is known of the value it returns.
pub assume_specification<T>[ rand::random::<T> ]() -> (r: T)
    where
        rand::distributions::Standard: rand::distributions::Distribution<T>,
;

} // verus!
