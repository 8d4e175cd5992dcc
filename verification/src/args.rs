//! Command-line options of a run, as plain values.

use vstd::prelude::*;

verus! {

/// Smallest number of snipers that may be asked for.
pub const MIN_SNIPERS: u8 = 1;

/// Largest number of snipers that may be asked for.
pub const MAX_SNIPERS: u8 = 19;

/// Options of one run.
#[derive(Debug, Clone, Copy, PartialEq, Eq, Structural)]
pub struct SniperArgs {
    /// Run without a visible browser window.
    pub detached: bool,
    /// Number of snipers that will run; accepted, but one session is driven.
    pub snipers: u8,
}

impl SniperArgs {
    /// The number of snipers lies in the accepted range.
    pub open spec fn wf(&self) -> bool {
        MIN_SNIPERS <= self.snipers <= MAX_SNIPERS
    }

    /// Builds the options, refusing a sniper count outside `1..=19`.
    pub fn new(detached: bool, snipers: u8) -> (r: Option<SniperArgs>)
        ensures
            r == if MIN_SNIPERS <= snipers <= MAX_SNIPERS {
                Some(SniperArgs { detached, snipers })
            } else {
                None::<SniperArgs>
            },
    {
        if MIN_SNIPERS <= snipers && snipers <= MAX_SNIPERS {
            Some(SniperArgs { detached, snipers })
        } else {
            None
        }
    }

    /// Tells whether the sniper count lies in the accepted range.
    pub fn is_valid(&self) -> (r: bool)
        ensures
            r == self.wf(),
    {
        MIN_SNIPERS <= self.snipers && self.snipers <= MAX_SNIPERS
    }
}

impl Default for SniperArgs {
    /// A visible browser and a single sniper.
    fn default() -> (r: SniperArgs)
        ensures
            r == (SniperArgs { detached: false, snipers: 1 }),
            r.wf(),
    {
        SniperArgs { detached: false, snipers: 1 }
    }
}

} // verus!
