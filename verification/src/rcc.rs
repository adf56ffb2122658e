//! The reset and clock control block, as far as the drivers use it: enabling
//! a peripheral's clock and pulsing its reset line.

use vstd::prelude::*;

verus! {

/// The bus that a peripheral's clock and reset lines hang on.
#[derive(Clone, Copy, Debug, PartialEq, Eq, Structural)]
pub enum Bus {
    Apb1,
    Apb2,
    Apb4,
    Ahb1,
    Ahb2,
    Ahb3,
}

/// A peripheral with a clock-enable and a reset line.
#[derive(Clone, Copy, Debug, PartialEq, Eq, Structural)]
pub enum ClockedPeriph {
    Dma1,
    Tim6,
    Tim7,
    I2c1,
    I2c2,
    I2c3,
    Spi1,
    Spi2,
    Spi3,
    Spi4,
    Sai1,
    Sai2,
    Sai3,
    Sai4,
    Usart1,
    Usart2,
    Usart3,
    Dac1,
}

/// One read-modify-write of a clock or reset register.
#[derive(Clone, Copy, Debug, PartialEq, Eq, Structural)]
pub enum RccOp {
    /// The clock-enable bit of `periph` was set in the enable register of `bus`.
    EnableClock { bus: Bus, periph: ClockedPeriph },
    /// The reset bit of `periph` was set in the reset register of `bus`.
    AssertReset { bus: Bus, periph: ClockedPeriph },
    /// The reset bit of `periph` was cleared in the reset register of `bus`.
    ReleaseReset { bus: Bus, periph: ClockedPeriph },
}

/// The three operations that bring a peripheral up: clock on, reset
/// asserted, reset released.
pub open spec fn en_reset_sequence(bus: Bus, periph: ClockedPeriph) -> Seq<RccOp> {
    seq![
        RccOp::EnableClock { bus, periph },
        RccOp::AssertReset { bus, periph },
        RccOp::ReleaseReset { bus, periph },
    ]
}

/// The reset and clock control block: the operations issued on it, oldest first.
pub struct Rcc {
    journal: Vec<RccOp>,
}

impl View for Rcc {
    type V = Seq<RccOp>;

    closed spec fn view(&self) -> Seq<RccOp> {
        self.journal@
    }
}

impl Rcc {
    /// A block on which nothing was done yet.
    pub fn new() -> (rcc: Rcc)
        ensures
            rcc@ == Seq::<RccOp>::empty(),
    {
        Rcc { journal: Vec::new() }
    }

    /// Enables the clock of `periph` on `bus`, then asserts and releases its
    /// reset.
    pub fn en_reset(&mut self, bus: Bus, periph: ClockedPeriph)
        ensures
            final(self)@ == old(self)@ + en_reset_sequence(bus, periph),
    {
        self.journal.push(RccOp::EnableClock { bus, periph });
        self.journal.push(RccOp::AssertReset { bus, periph });
        self.journal.push(RccOp::ReleaseReset { bus, periph });
        assert(self.journal@ =~= old(self).journal@ + en_reset_sequence(bus, periph));
    }

    /// The operations issued so far, oldest first.
    pub fn journal(&self) -> (ops: &Vec<RccOp>)
        ensures
            ops@ == self@,
    {
        &self.journal
    }
}

} // verus!
