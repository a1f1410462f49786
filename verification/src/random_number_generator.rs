//! The random number generator under its other name.

use vstd::prelude::*;
use crate::generate_random_number::draw_up_to;

verus! {

/// The generator of random numbers.
#[derive(Debug, Clone, Copy, PartialEq, Eq)]
pub struct RandomNumberGenerator {}

impl RandomNumberGenerator {
    pub fn new() -> (generator: Self)
        ensures
            generator == (RandomNumberGenerator {  }),
    {
        RandomNumberGenerator {  }
    }

    /// Draws a number between one and `max`, both included.
    pub fn generate_random_number(&self, max: u32) -> (number: u32)
        requires
            1 <= max,
        ensures
            1 <= number <= max,
    {
        draw_up_to(max)
    }
}

} // verus!
