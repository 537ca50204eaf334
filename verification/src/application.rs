//! The demo application's configuration: a seed and a point count taken
//! from the settings.  Sampling, retrying and rendering happen outside the
//! library, in the binary around it.

use vstd::prelude::*;

use crate::Error;
use crate::settings::Settings;

verus! {

/// What one run of the demo needs to know.
#[derive(Clone, Copy, Debug, PartialEq, Eq, Structural)]
pub struct Application {
    pub seed: u64,
    pub number: u64,
}

impl Application {
    /// Take the run parameters from the settings; never fails.
    pub fn from_settings(settings: &Settings) -> (r: Result<Application, Error>)
        ensures
            r == Result::<Application, Error>::Ok(
                Application { seed: settings.seed, number: settings.number },
            ),
    {
        Ok(Application { seed: settings.seed(), number: settings.number() })
    }

    #[inline]
    pub fn seed(&self) -> (r: u64)
        ensures
            r == self.seed,
    {
        self.seed
    }

    #[inline]
    pub fn number(&self) -> (r: u64)
        ensures
            r == self.number,
    {
        self.number
    }
}

} // verus!
