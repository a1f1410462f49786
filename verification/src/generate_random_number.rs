//! Drawing a number between one and a maximum that the user types.

use vstd::prelude::*;
use rand::Rng;
use crate::text::{parse_u32, parsed_u32, trim, trimmed};

verus! {

/// Calls `rand::rng` for the thread's generator and its
/// `Rng::random_range` over `1..=max`, which draws from that range and
/// panics where the range is empty.
#[verifier::external_body]
pub(crate) fn draw_up_to(max: u32) -> (number: u32)
    requires
        1 <= max,
    ensures
        1 <= number <= max,
{
    rand::rng().random_range(1..=max)
}

/// Reads the maximum out of the line that the user typed: white space
/// around it plays no part. `None` stands for a line that is no number.
pub fn read_maximum(input: &str) -> (max: Option<u32>)
    ensures
        max == parsed_u32(trimmed(input@)),
{
    parse_u32(trim(input))
}

/// The generator of random numbers.
#[derive(Debug, Clone, Copy, PartialEq, Eq)]
pub struct GenerateRandomNumber {}

impl GenerateRandomNumber {
    pub fn new() -> (generator: Self)
        ensures
            generator == (GenerateRandomNumber {  }),
    {
        GenerateRandomNumber {  }
    }

    /// Draws a number between one and `max`, both included.
    pub fn generate_random_number(&self, max: u32) -> (number: u32)
        requires
            1 <= max,
        ensures
            1 <= number <= max,
    {
        draw_up_to(max)
    }
}

} // verus!
