use vstd::prelude::*;

verus! {

use crate::time::Hertz;

/// The final frequency plan: the confirmed system frequency and every bus
/// domain derived from it. Constructed once at the end of configuration and
/// never mutated afterwards. The two AHB-derived domains are kept equal in
/// this design.
#[derive(Clone, Copy, PartialEq, Eq, Structural, Debug)]
pub struct Clocks {
    pub sys: Hertz,
    pub ahb1: Hertz,
    pub ahb2: Hertz,
    pub apb1: Hertz,
    pub apb1_tim: Hertz,
    pub apb2: Hertz,
    pub apb2_tim: Hertz,
}

/// A named bus domain whose frequency the published plan answers for.
#[derive(Clone, Copy, PartialEq, Eq, Structural, Debug)]
pub enum BusDomain {
    Sys,
    Ahb1,
    Ahb2,
    Apb1,
    Apb1Tim,
    Apb2,
    Apb2Tim,
}

/// The frequency a plan assigns to a named bus domain.
pub open spec fn spec_domain_freq(c: Clocks, d: BusDomain) -> Hertz {
    match d {
        BusDomain::Sys => c.sys,
        BusDomain::Ahb1 => c.ahb1,
        BusDomain::Ahb2 => c.ahb2,
        BusDomain::Apb1 => c.apb1,
        BusDomain::Apb1Tim => c.apb1_tim,
        BusDomain::Apb2 => c.apb2,
        BusDomain::Apb2Tim => c.apb2_tim,
    }
}

/// A write-once cell for the published frequency plan.
///
/// The plan is written exactly once at the end of configuration and read
/// many times afterwards; a second write is rejected at run time instead of
/// silently overwriting the published state.
pub struct ClockCell {
    value: Option<Clocks>,
}

impl ClockCell {
    /// What the cell has published, if anything.
    pub closed spec fn published(&self) -> Option<Clocks> {
        self.value
    }

    /// An empty cell: nothing published yet.
    pub fn new() -> (r: ClockCell)
        ensures
            r.published() is None,
    {
        ClockCell { value: None }
    }

    /// Publish the frequency plan. Returns whether the write took place:
    /// the first write publishes and returns true; any later write leaves
    /// the published plan untouched and returns false.
    pub fn set_freqs(&mut self, c: Clocks) -> (r: bool)
        ensures
            old(self).published() is None ==> r && final(self).published() == Some(c),
            old(self).published() is Some ==> !r && final(self).published() == old(
                self,
            ).published(),
    {
        match self.value {
            None => {
                self.value = Some(c);
                true
            },
            Some(_) => false,
        }
    }

    /// The published plan, if one has been published.
    pub fn get_freqs(&self) -> (r: Option<Clocks>)
        ensures
            r == self.published(),
    {
        self.value
    }

    /// The current frequency of a named bus domain, once a plan has been
    /// published.
    pub fn frequency(&self, d: BusDomain) -> (r: Option<Hertz>)
        ensures
            self.published() matches Some(c) ==> r == Some(spec_domain_freq(c, d)),
            self.published() is None ==> r is None,
    {
        match self.value {
            None => None,
            Some(c) => Some(
                match d {
                    BusDomain::Sys => c.sys,
                    BusDomain::Ahb1 => c.ahb1,
                    BusDomain::Ahb2 => c.ahb2,
                    BusDomain::Apb1 => c.apb1,
                    BusDomain::Apb1Tim => c.apb1_tim,
                    BusDomain::Apb2 => c.apb2,
                    BusDomain::Apb2Tim => c.apb2_tim,
                },
            ),
        }
    }
}

} // verus!
