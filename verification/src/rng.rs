//! Source of uniform random bits and integers. The generator and the sanity
//! checker take any implementation of [`RandomSource`], so their contracts
//! hold for every sequence of values the source hands back; [`SystemRandom`]
//! draws from the operating system's entropy through the `rand` crate.

use vstd::prelude::*;

verus! {

/// A supplier of uniformly distributed values. No contract constrains what
/// the methods return: callers must hold their promises for every outcome.
pub trait RandomSource {
    /// One draw of a bit.
    fn next_bool(&mut self) -> bool;

    /// One draw of an unsigned machine word.
    fn next_usize(&mut self) -> usize;
}

/// The process-wide random source of the `rand` crate.
pub struct SystemRandom {
}

impl SystemRandom {
    pub fn new() -> SystemRandom {
        SystemRandom {  }
    }
}

/// Relies on rand::random::<bool>: one uniformly random boolean. Nothing can
/// be promised of the value.
#[verifier::external_body]
fn sys_random_bool() -> bool {
    rand::random::<bool>()
}

/// Relies on rand::random::<usize>: one uniformly random machine word.
/// Nothing can be promised of the value.
#[verifier::external_body]
fn sys_random_usize() -> usize {
    rand::random::<usize>()
}

impl RandomSource for SystemRandom {
    fn next_bool(&mut self) -> bool {
        sys_random_bool()
    }

    fn next_usize(&mut self) -> usize {
        sys_random_usize()
    }
}

} // verus!
