//! The bus clock frequencies that the peripheral drivers read.

use vstd::prelude::*;

verus! {

/// The frequencies of the two peripheral buses, in hertz.
#[derive(Clone, Copy, Debug, PartialEq, Eq, Structural)]
pub struct Clocks {
    pub apb1_hz: u32,
    pub apb2_hz: u32,
}

impl Clocks {
    /// The frequency of the APB1 bus.
    pub open spec fn spec_apb1(&self) -> u32 {
        self.apb1_hz
    }

    /// The frequency of the APB2 bus.
    pub open spec fn spec_apb2(&self) -> u32 {
        self.apb2_hz
    }

    /// The frequency of the APB1 bus.
    pub fn apb1(&self) -> (hz: u32)
        ensures
            hz == self.spec_apb1(),
    {
        self.apb1_hz
    }

    /// The frequency of the APB2 bus.
    pub fn apb2(&self) -> (hz: u32)
        ensures
            hz == self.spec_apb2(),
    {
        self.apb2_hz
    }
}

} // verus!
