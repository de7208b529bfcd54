use vstd::prelude::*;
use crate::pins::{AddressPinSet, PinsSdram, SdramPinSet, SdramTargetBank};
use crate::rcc::{Clocks, Rcc};
use crate::time::Hertz;

verus! {

/// Mask of the FMCEN bit (bit 0 of `AHB3ENR`): gates the bus clock of the
/// flexible memory controller.
pub const FMCEN: u32 = 0x0000_0001;

/// Mask of the FACCEN bit (bit 6 of `FMC_BCR1`): enables memory-controller
/// access.  Of the four bank control registers only `FMC_BCR1` carries a
/// meaningful FACCEN bit; the others are don't-care.
pub const FACCEN: u32 = 0x0000_0040;

/// The raw register block of the flexible memory controller, reduced to the
/// one register this crate writes: the first bank control register.
///
/// Ownership of a value of this type stands for exclusive access to the
/// peripheral: it is consumed, never copied, so no two adapters can be built
/// over the same block.
pub struct FmcRegisterBlock {
    /// The `FMC_BCR1` register word.
    pub bcr1: u32,
}

/// Adapter owning the flexible memory controller and the kernel clock
/// frequency captured at construction time.
///
/// Construction gates the peripheral's bus clock (see
/// [`FmcRegisterBlock::fmc`]); afterwards the adapter offers the three
/// primitive operations an SDRAM driver needs: [`FMC::enable`],
/// [`FMC::memory_controller_enable`] and [`FMC::source_clock_hz`].
pub struct FMC {
    fmc: FmcRegisterBlock,
    fmc_ker_ck: Option<Hertz>,
}

impl FMC {
    /// The current word of the bank control register.
    pub closed spec fn spec_bcr1(self) -> u32 {
        self.fmc.bcr1
    }

    /// The kernel clock frequency captured at construction, if any was
    /// running then.
    pub closed spec fn spec_ker_ck(self) -> Option<Hertz> {
        self.fmc_ker_ck
    }

    /// Whether a kernel clock was running when the adapter was constructed.
    pub open spec fn clock_running(self) -> bool {
        self.spec_ker_ck() is Some
    }

    /// The frequency the source-clock query answers with.
    pub open spec fn spec_source_clock_hz(self) -> u32
        recommends
            self.clock_running(),
    {
        self.spec_ker_ck().unwrap().0
    }

    /// Read back the bank control register word.
    pub fn bcr1(&self) -> (word: u32)
        ensures
            word == self.spec_bcr1(),
    {
        self.fmc.bcr1
    }

    /// No-op: the bus clock is already gated on as part of the contract of
    /// constructing an [`FMC`].  Exists to complete the primitive interface
    /// an SDRAM driver expects.
    pub fn enable(&mut self)
        ensures
            *final(self) == *old(self),
    {
    }

    /// Turn on memory-controller access: sets the FACCEN bit of the bank
    /// control register and changes nothing else.  Idempotent (see
    /// [`lemma_memory_controller_enable_exact`]).
    pub fn memory_controller_enable(&mut self)
        ensures
            final(self).spec_bcr1() == old(self).spec_bcr1() | FACCEN,
            final(self).spec_ker_ck() == old(self).spec_ker_ck(),
    {
        self.fmc.bcr1 = self.fmc.bcr1 | FACCEN;
    }

    /// The kernel clock frequency captured at construction.
    ///
    /// A memory controller cannot be operated without a timing reference, so
    /// an adapter built from a descriptor that reported no running clock
    /// cannot be queried at all: the precondition demands the clock.
    pub fn source_clock_hz(&self) -> (hz: u32)
        requires
            self.clock_running(),
        ensures
            hz == self.spec_source_clock_hz(),
    {
        self.fmc_ker_ck.unwrap().0
    }
}

impl FmcRegisterBlock {
    /// Construct the adapter from the raw register block and a clock
    /// descriptor.
    ///
    /// Side effect: sets exactly the FMCEN bit in the clock-gating register
    /// (see [`lemma_bus_clock_enable_exact`]).  The kernel clock frequency is
    /// read from the descriptor now and never re-read.
    pub fn fmc(self, rcc: &mut Rcc, clocks: &Clocks) -> (f: FMC)
        ensures
            final(rcc).ahb3enr == old(rcc).ahb3enr | FMCEN,
            f.spec_bcr1() == self.bcr1,
            f.spec_ker_ck() == clocks.hclk,
    {
        rcc.ahb3enr = rcc.ahb3enr | FMCEN;
        FMC { fmc: self, fmc_ker_ck: clocks.hclk }
    }
}

/// A validated SDRAM construction: the adapter with its bus clock gated on,
/// the target bank, and the device descriptor, ready for the SDRAM timing
/// driver's own initialization entry point.
///
/// The device descriptor `CHIP` identifies the memory chip's signal and
/// timing requirements; it is owned by the driver's type system and carried
/// here opaquely.
pub struct Sdram<CHIP> {
    /// The constructed peripheral adapter.
    pub fmc: FMC,
    /// The external SDRAM bank the construction targets.
    pub target_bank: SdramTargetBank,
    /// The memory device descriptor.
    pub chip: CHIP,
}

impl FmcRegisterBlock {
    /// Checked SDRAM construction.
    ///
    /// The bounds verify, before the program is built, that the pin bundle
    /// provides every signal role an SDRAM on bank `BANK` with address set
    /// `ADDR` demands; a bundle missing a role does not type-check, so there
    /// is no runtime rejection path.  The bundle is consumed: the pins'
    /// duty is purely type-level from here on.  The adapter is constructed
    /// as by [`FmcRegisterBlock::fmc`].
    pub fn sdram<BANK: SdramPinSet, ADDR: AddressPinSet, PINS: PinsSdram<BANK, ADDR>, CHIP>(
        self,
        rcc: &mut Rcc,
        _pins: PINS,
        chip: CHIP,
        clocks: &Clocks,
    ) -> (s: Sdram<CHIP>)
        ensures
            final(rcc).ahb3enr == old(rcc).ahb3enr | FMCEN,
            s.fmc.spec_bcr1() == self.bcr1,
            s.fmc.spec_ker_ck() == clocks.hclk,
            s.target_bank == BANK::spec_target(),
            s.chip == chip,
    {
        let target_bank = BANK::target();
        let fmc = self.fmc(rcc, clocks);
        Sdram { fmc, target_bank, chip }
    }

    /// Unchecked SDRAM construction: no signal-role verification at all.
    ///
    /// The caller vouches for the wiring out of band; an incompatible pin
    /// assignment is not detected by this crate in any form.  Meant for
    /// partial bundles and bank selections the checked path cannot express.
    pub fn sdram_unchecked<CHIP>(
        self,
        rcc: &mut Rcc,
        bank: SdramTargetBank,
        chip: CHIP,
        clocks: &Clocks,
    ) -> (s: Sdram<CHIP>)
        ensures
            final(rcc).ahb3enr == old(rcc).ahb3enr | FMCEN,
            s.fmc.spec_bcr1() == self.bcr1,
            s.fmc.spec_ker_ck() == clocks.hclk,
            s.target_bank == bank,
            s.chip == chip,
    {
        let fmc = self.fmc(rcc, clocks);
        Sdram { fmc, target_bank: bank, chip }
    }
}

/// Gating the bus clock touches exactly the FMCEN bit: bit 0 of the new
/// register word is set, and every other bit keeps its old value.
pub proof fn lemma_bus_clock_enable_exact(word: u32)
    by (bit_vector)
    ensures
        (word | FMCEN) & FMCEN == FMCEN,
        forall|i: u32| 1 <= i < 32 ==> #[trigger] ((word | FMCEN) >> i) == word >> i,
{
}

/// Enabling memory-controller access touches exactly the FACCEN bit: bit 6
/// of the new register word is set, every other bit keeps its old value, and
/// doing it twice leaves the same word as doing it once.
pub proof fn lemma_memory_controller_enable_exact(word: u32)
    by (bit_vector)
    ensures
        ((word | FACCEN) >> 6) & 1u32 == 1u32,
        forall|i: u32| i < 32 && i != 6 ==> #[trigger] (((word | FACCEN) >> i) & 1u32) == (word >> i) & 1u32,
        (word | FACCEN) | FACCEN == word | FACCEN,
{
}

/// The frequency is captured at construction: an adapter whose captured
/// clock came from a descriptor reporting frequency `n` answers the
/// source-clock query with exactly `n`.
pub proof fn lemma_frequency_captured(f: FMC, clocks: Clocks, n: u32)
    requires
        f.spec_ker_ck() == clocks.hclk,
        clocks.hclk == Some(Hertz(n)),
    ensures
        f.clock_running(),
        f.spec_source_clock_hz() == n,
{
}

/// A descriptor reporting no running clock yields an adapter on which the
/// source-clock query's precondition can never hold: the misconfiguration is
/// rejected, never answered with a default frequency.
pub proof fn lemma_missing_clock_rejected(f: FMC, clocks: Clocks)
    requires
        f.spec_ker_ck() == clocks.hclk,
        clocks.hclk is None,
    ensures
        !f.clock_running(),
{
}

} // verus!

