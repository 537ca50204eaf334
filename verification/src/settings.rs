//! Runtime settings of the demo around the triangulator: how many points to
//! sample and the seed of the generator.

use vstd::prelude::*;

verus! {

/// The number of points the demo samples when no setting names one.
pub fn default_number() -> (r: u64)
    ensures
        r == 100,
{
    100
}

/// Sampling settings: point count and generator seed.
#[derive(Clone, Copy, Debug, PartialEq, Eq, Structural)]
pub struct Settings {
    pub number: u64,
    pub seed: u64,
}

impl Settings {
    #[inline]
    pub fn new(number: u64, seed: u64) -> (r: Settings)
        ensures
            r.number == number,
            r.seed == seed,
    {
        Settings { number, seed }
    }

    #[inline]
    pub fn number(&self) -> (r: u64)
        ensures
            r == self.number,
    {
        self.number
    }

    #[inline]
    pub fn seed(&self) -> (r: u64)
        ensures
            r == self.seed,
    {
        self.seed
    }
}

} // verus!
