use vstd::prelude::*;
use crate::time::Hertz;

verus! {

/// The clock-gating register block of the reset and clock control peripheral,
/// reduced to the one register this crate touches: `AHB3ENR`, whose bit 0
/// gates the bus clock of the flexible memory controller.
pub struct Rcc {
    /// The AHB3 peripheral clock enable register word.
    pub ahb3enr: u32,
}

/// A read-only clock descriptor: what the clock tree reports for the bus
/// feeding the memory controller at the moment an adapter is constructed.
///
/// `hclk` is `None` when no kernel clock is running for the peripheral; an
/// adapter built from such a descriptor can never answer the
/// source-clock-frequency query (its precondition is unsatisfiable), so the
/// misconfiguration is caught at first use rather than answered with a
/// default.
#[derive(Clone, Copy, Debug)]
pub struct Clocks {
    /// The measured AHB bus clock frequency, if the clock is running.
    pub hclk: Option<Hertz>,
}

} // verus!
