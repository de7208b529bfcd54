use vstd::prelude::*;
use crate::gpio::{Alternate, AF12, PC0, PD0, PD1, PD10, PD14, PD15, PD8, PD9, PE0, PE1, PE10, PE11, PE12, PE13, PE14, PE15, PE7, PE8, PE9, PF0, PF1, PF11, PF12, PF13, PF14, PF15, PF2, PF3, PF4, PF5, PG0, PG1, PG15, PG4, PG5, PG8, PH10, PH11, PH12, PH13, PH14, PH15, PH2, PH3, PH8, PH9, PI0, PI1, PI10, PI2, PI3, PI4, PI5, PI6, PI7, PI9};

verus! {

// ---- Signal-role capability markers ----
//
// One marker trait per logical memory-bus signal role.  A physical pin
// implements a role's marker only at the one electrical configuration
// (alternate function 12) that routes it to the memory controller; the
// declarations further down are the complete list of assertions for this
// device.  The markers carry no data and no methods: a bundle that lacks a
// role simply has no type that provides it, and a checked construction
// over such a bundle does not type-check.

/// Capability marker: fulfills address line 0.
pub trait A0 {}

/// Capability marker: fulfills address line 1.
pub trait A1 {}

/// Capability marker: fulfills address line 2.
pub trait A2 {}

/// Capability marker: fulfills address line 3.
pub trait A3 {}

/// Capability marker: fulfills address line 4.
pub trait A4 {}

/// Capability marker: fulfills address line 5.
pub trait A5 {}

/// Capability marker: fulfills address line 6.
pub trait A6 {}

/// Capability marker: fulfills address line 7.
pub trait A7 {}

/// Capability marker: fulfills address line 8.
pub trait A8 {}

/// Capability marker: fulfills address line 9.
pub trait A9 {}

/// Capability marker: fulfills address line 10.
pub trait A10 {}

/// Capability marker: fulfills address line 11.
pub trait A11 {}

/// Capability marker: fulfills bank-address line 0.
pub trait BA0 {}

/// Capability marker: fulfills bank-address line 1.
pub trait BA1 {}

/// Capability marker: fulfills data line 0.
pub trait D0 {}

/// Capability marker: fulfills data line 1.
pub trait D1 {}

/// Capability marker: fulfills data line 2.
pub trait D2 {}

/// Capability marker: fulfills data line 3.
pub trait D3 {}

/// Capability marker: fulfills data line 4.
pub trait D4 {}

/// Capability marker: fulfills data line 5.
pub trait D5 {}

/// Capability marker: fulfills data line 6.
pub trait D6 {}

/// Capability marker: fulfills data line 7.
pub trait D7 {}

/// Capability marker: fulfills data line 8.
pub trait D8 {}

/// Capability marker: fulfills data line 9.
pub trait D9 {}

/// Capability marker: fulfills data line 10.
pub trait D10 {}

/// Capability marker: fulfills data line 11.
pub trait D11 {}

/// Capability marker: fulfills data line 12.
pub trait D12 {}

/// Capability marker: fulfills data line 13.
pub trait D13 {}

/// Capability marker: fulfills data line 14.
pub trait D14 {}

/// Capability marker: fulfills data line 15.
pub trait D15 {}

/// Capability marker: fulfills data line 16.
pub trait D16 {}

/// Capability marker: fulfills data line 17.
pub trait D17 {}

/// Capability marker: fulfills data line 18.
pub trait D18 {}

/// Capability marker: fulfills data line 19.
pub trait D19 {}

/// Capability marker: fulfills data line 20.
pub trait D20 {}

/// Capability marker: fulfills data line 21.
pub trait D21 {}

/// Capability marker: fulfills data line 22.
pub trait D22 {}

/// Capability marker: fulfills data line 23.
pub trait D23 {}

/// Capability marker: fulfills data line 24.
pub trait D24 {}

/// Capability marker: fulfills data line 25.
pub trait D25 {}

/// Capability marker: fulfills data line 26.
pub trait D26 {}

/// Capability marker: fulfills data line 27.
pub trait D27 {}

/// Capability marker: fulfills data line 28.
pub trait D28 {}

/// Capability marker: fulfills data line 29.
pub trait D29 {}

/// Capability marker: fulfills data line 30.
pub trait D30 {}

/// Capability marker: fulfills data line 31.
pub trait D31 {}

/// Capability marker: fulfills byte-lane select 0.
pub trait NBL0 {}

/// Capability marker: fulfills byte-lane select 1.
pub trait NBL1 {}

/// Capability marker: fulfills byte-lane select 2.
pub trait NBL2 {}

/// Capability marker: fulfills byte-lane select 3.
pub trait NBL3 {}

/// Capability marker: fulfills SDRAM clock enable of external bank 1.
pub trait SDCKE0 {}

/// Capability marker: fulfills SDRAM clock.
pub trait SDCLK {}

/// Capability marker: fulfills column address strobe.
pub trait SDNCAS {}

/// Capability marker: fulfills chip enable of external bank 1.
pub trait SDNE0 {}

/// Capability marker: fulfills row address strobe.
pub trait SDNRAS {}

/// Capability marker: fulfills write enable.
pub trait SDNWE {}

// ---- Pin capability assertions ----

impl A0 for PF0<Alternate<AF12>> {}
impl A1 for PF1<Alternate<AF12>> {}
impl A2 for PF2<Alternate<AF12>> {}
impl A3 for PF3<Alternate<AF12>> {}
impl A4 for PF4<Alternate<AF12>> {}
impl A5 for PF5<Alternate<AF12>> {}
impl A6 for PF12<Alternate<AF12>> {}
impl A7 for PF13<Alternate<AF12>> {}
impl A8 for PF14<Alternate<AF12>> {}
impl A9 for PF15<Alternate<AF12>> {}
impl A10 for PG0<Alternate<AF12>> {}
impl A11 for PG1<Alternate<AF12>> {}
impl BA0 for PG4<Alternate<AF12>> {}
impl BA1 for PG5<Alternate<AF12>> {}
impl D0 for PD14<Alternate<AF12>> {}
impl D1 for PD15<Alternate<AF12>> {}
impl D2 for PD0<Alternate<AF12>> {}
impl D3 for PD1<Alternate<AF12>> {}
impl D4 for PE7<Alternate<AF12>> {}
impl D5 for PE8<Alternate<AF12>> {}
impl D6 for PE9<Alternate<AF12>> {}
impl D7 for PE10<Alternate<AF12>> {}
impl D8 for PE11<Alternate<AF12>> {}
impl D9 for PE12<Alternate<AF12>> {}
impl D10 for PE13<Alternate<AF12>> {}
impl D11 for PE14<Alternate<AF12>> {}
impl D12 for PE15<Alternate<AF12>> {}
impl D13 for PD8<Alternate<AF12>> {}
impl D14 for PD9<Alternate<AF12>> {}
impl D15 for PD10<Alternate<AF12>> {}
impl D16 for PH8<Alternate<AF12>> {}
impl D17 for PH9<Alternate<AF12>> {}
impl D18 for PH10<Alternate<AF12>> {}
impl D19 for PH11<Alternate<AF12>> {}
impl D20 for PH12<Alternate<AF12>> {}
impl D21 for PH13<Alternate<AF12>> {}
impl D22 for PH14<Alternate<AF12>> {}
impl D23 for PH15<Alternate<AF12>> {}
impl D24 for PI0<Alternate<AF12>> {}
impl D25 for PI1<Alternate<AF12>> {}
impl D26 for PI2<Alternate<AF12>> {}
impl D27 for PI3<Alternate<AF12>> {}
impl D28 for PI6<Alternate<AF12>> {}
impl D29 for PI7<Alternate<AF12>> {}
impl D30 for PI9<Alternate<AF12>> {}
impl D31 for PI10<Alternate<AF12>> {}
impl NBL0 for PE0<Alternate<AF12>> {}
impl NBL1 for PE1<Alternate<AF12>> {}
impl NBL2 for PI4<Alternate<AF12>> {}
impl NBL3 for PI5<Alternate<AF12>> {}
impl SDCKE0 for PH2<Alternate<AF12>> {}
impl SDCLK for PG8<Alternate<AF12>> {}
impl SDNCAS for PG15<Alternate<AF12>> {}
impl SDNE0 for PH3<Alternate<AF12>> {}
impl SDNRAS for PF11<Alternate<AF12>> {}
impl SDNWE for PC0<Alternate<AF12>> {}
// ---- Pin groups ----
//
// A bundle is assembled from five groups.  The trait bounds on each
// group's type parameters are the verification step: a group can only be
// formed from pins carrying the matching capability markers.

/// The twelve address lines `A0` .. `A11`.
pub struct AddressPins12<P0: A0, P1: A1, P2: A2, P3: A3, P4: A4, P5: A5, P6: A6, P7: A7, P8: A8, P9: A9, P10: A10, P11: A11> {
    /// The pin driving address line 0.
    pub a0: P0,
    /// The pin driving address line 1.
    pub a1: P1,
    /// The pin driving address line 2.
    pub a2: P2,
    /// The pin driving address line 3.
    pub a3: P3,
    /// The pin driving address line 4.
    pub a4: P4,
    /// The pin driving address line 5.
    pub a5: P5,
    /// The pin driving address line 6.
    pub a6: P6,
    /// The pin driving address line 7.
    pub a7: P7,
    /// The pin driving address line 8.
    pub a8: P8,
    /// The pin driving address line 9.
    pub a9: P9,
    /// The pin driving address line 10.
    pub a10: P10,
    /// The pin driving address line 11.
    pub a11: P11,
}

/// A complete set of address pins, exposing how many lines it drives.
pub trait AddressPinSet {
    /// The number of address lines in this set.
    spec fn address_pins() -> u8;
}

impl<P0: A0, P1: A1, P2: A2, P3: A3, P4: A4, P5: A5, P6: A6, P7: A7, P8: A8, P9: A9, P10: A10, P11: A11> AddressPinSet for AddressPins12<P0, P1, P2, P3, P4, P5, P6, P7, P8, P9, P10, P11> {
    open spec fn address_pins() -> u8 {
        12
    }
}

/// The two bank-address lines `BA0` and `BA1`: four internal banks.
pub struct BankAddressPins2<B0: BA0, B1: BA1> {
    /// The pin driving bank-address line 0.
    pub ba0: B0,
    /// The pin driving bank-address line 1.
    pub ba1: B1,
}

/// A complete set of bank-address pins, exposing how many internal banks
/// it can address.
pub trait BankAddressSet {
    /// The number of internal SDRAM banks addressable with this set.
    spec fn internal_banks() -> u8;
}

impl<B0: BA0, B1: BA1> BankAddressSet for BankAddressPins2<B0, B1> {
    open spec fn internal_banks() -> u8 {
        4
    }
}

/// The thirty-two data lines `D0` .. `D31` of a 32-bit memory bus.
pub struct DataPins32<Q0: D0, Q1: D1, Q2: D2, Q3: D3, Q4: D4, Q5: D5, Q6: D6, Q7: D7, Q8: D8, Q9: D9, Q10: D10, Q11: D11, Q12: D12, Q13: D13, Q14: D14, Q15: D15, Q16: D16, Q17: D17, Q18: D18, Q19: D19, Q20: D20, Q21: D21, Q22: D22, Q23: D23, Q24: D24, Q25: D25, Q26: D26, Q27: D27, Q28: D28, Q29: D29, Q30: D30, Q31: D31> {
    /// The pin driving data line 0.
    pub d0: Q0,
    /// The pin driving data line 1.
    pub d1: Q1,
    /// The pin driving data line 2.
    pub d2: Q2,
    /// The pin driving data line 3.
    pub d3: Q3,
    /// The pin driving data line 4.
    pub d4: Q4,
    /// The pin driving data line 5.
    pub d5: Q5,
    /// The pin driving data line 6.
    pub d6: Q6,
    /// The pin driving data line 7.
    pub d7: Q7,
    /// The pin driving data line 8.
    pub d8: Q8,
    /// The pin driving data line 9.
    pub d9: Q9,
    /// The pin driving data line 10.
    pub d10: Q10,
    /// The pin driving data line 11.
    pub d11: Q11,
    /// The pin driving data line 12.
    pub d12: Q12,
    /// The pin driving data line 13.
    pub d13: Q13,
    /// The pin driving data line 14.
    pub d14: Q14,
    /// The pin driving data line 15.
    pub d15: Q15,
    /// The pin driving data line 16.
    pub d16: Q16,
    /// The pin driving data line 17.
    pub d17: Q17,
    /// The pin driving data line 18.
    pub d18: Q18,
    /// The pin driving data line 19.
    pub d19: Q19,
    /// The pin driving data line 20.
    pub d20: Q20,
    /// The pin driving data line 21.
    pub d21: Q21,
    /// The pin driving data line 22.
    pub d22: Q22,
    /// The pin driving data line 23.
    pub d23: Q23,
    /// The pin driving data line 24.
    pub d24: Q24,
    /// The pin driving data line 25.
    pub d25: Q25,
    /// The pin driving data line 26.
    pub d26: Q26,
    /// The pin driving data line 27.
    pub d27: Q27,
    /// The pin driving data line 28.
    pub d28: Q28,
    /// The pin driving data line 29.
    pub d29: Q29,
    /// The pin driving data line 30.
    pub d30: Q30,
    /// The pin driving data line 31.
    pub d31: Q31,
}

/// A complete set of data pins, exposing the memory bus width.
pub trait DataPinSet {
    /// The number of data lines in this set.
    spec fn data_pins() -> u8;
}

impl<Q0: D0, Q1: D1, Q2: D2, Q3: D3, Q4: D4, Q5: D5, Q6: D6, Q7: D7, Q8: D8, Q9: D9, Q10: D10, Q11: D11, Q12: D12, Q13: D13, Q14: D14, Q15: D15, Q16: D16, Q17: D17, Q18: D18, Q19: D19, Q20: D20, Q21: D21, Q22: D22, Q23: D23, Q24: D24, Q25: D25, Q26: D26, Q27: D27, Q28: D28, Q29: D29, Q30: D30, Q31: D31> DataPinSet for DataPins32<Q0, Q1, Q2, Q3, Q4, Q5, Q6, Q7, Q8, Q9, Q10, Q11, Q12, Q13, Q14, Q15, Q16, Q17, Q18, Q19, Q20, Q21, Q22, Q23, Q24, Q25, Q26, Q27, Q28, Q29, Q30, Q31> {
    open spec fn data_pins() -> u8 {
        32
    }
}

/// The four byte-lane selects `NBL0` .. `NBL3` of a 32-bit memory bus.
pub struct ByteEnablePins4<N0: NBL0, N1: NBL1, N2: NBL2, N3: NBL3> {
    /// The pin driving byte-lane select 0.
    pub nbl0: N0,
    /// The pin driving byte-lane select 1.
    pub nbl1: N1,
    /// The pin driving byte-lane select 2.
    pub nbl2: N2,
    /// The pin driving byte-lane select 3.
    pub nbl3: N3,
}

/// A complete set of byte-lane select pins.
pub trait ByteEnableSet {
    /// The number of byte lanes selectable with this set.
    spec fn byte_lanes() -> u8;
}

impl<N0: NBL0, N1: NBL1, N2: NBL2, N3: NBL3> ByteEnableSet for ByteEnablePins4<N0, N1, N2, N3> {
    open spec fn byte_lanes() -> u8 {
        4
    }
}

/// The six control and clock signals of an SDRAM on external bank 1:
/// clock enable, clock, chip enable and the three strobes.
pub struct ControlPins<CKE: SDCKE0, CLK: SDCLK, NCAS: SDNCAS, NE: SDNE0, NRAS: SDNRAS, NWE: SDNWE> {
    /// The pin driving the SDRAM clock enable.
    pub sdcke: CKE,
    /// The pin driving the SDRAM clock.
    pub sdclk: CLK,
    /// The pin driving the column address strobe.
    pub sdncas: NCAS,
    /// The pin driving the chip enable.
    pub sdne: NE,
    /// The pin driving the row address strobe.
    pub sdnras: NRAS,
    /// The pin driving the write enable.
    pub sdnwe: NWE,
}

/// A complete set of control pins for an SDRAM on external bank 1.
pub trait Bank1ControlSet {}

impl<CKE: SDCKE0, CLK: SDCLK, NCAS: SDNCAS, NE: SDNE0, NRAS: SDNRAS, NWE: SDNWE> Bank1ControlSet
    for ControlPins<CKE, CLK, NCAS, NE, NRAS, NWE> {}

// ---- Target bank ----

/// The external SDRAM bank a construction targets.
#[derive(Clone, Copy, Debug, PartialEq, Eq, Structural)]
pub enum SdramTargetBank {
    /// The first external SDRAM bank.
    Bank1,
    /// The second external SDRAM bank.
    Bank2,
}

impl SdramTargetBank {
    /// The bank with the given one-based index: 1 selects bank 1 and 2
    /// selects bank 2.  No other index names a bank.
    pub fn from_index(n: u32) -> (b: SdramTargetBank)
        requires
            1 <= n <= 2,
        ensures
            n == 1 ==> b == SdramTargetBank::Bank1,
            n == 2 ==> b == SdramTargetBank::Bank2,
    {
        if n == 1 {
            SdramTargetBank::Bank1
        } else {
            SdramTargetBank::Bank2
        }
    }
}

/// A marker for the external bank a set of control pins drives, with the
/// bank selector it stands for.
pub trait SdramPinSet {
    /// The bank this marker selects.
    spec fn spec_target() -> SdramTargetBank;

    /// The bank this marker selects.
    fn target() -> (b: SdramTargetBank)
        ensures
            b == Self::spec_target();
}

/// Marker for an SDRAM wired to external bank 1.  The control pins this
/// device offers (`SDCKE0`, `SDNE0`) drive bank 1, so it is the one bank a
/// checked construction can target here.
pub struct SdramBank1;

impl SdramPinSet for SdramBank1 {
    open spec fn spec_target() -> SdramTargetBank {
        SdramTargetBank::Bank1
    }

    fn target() -> (b: SdramTargetBank) {
        SdramTargetBank::Bank1
    }
}

// ---- The pin bundle ----

/// A caller-assembled bundle of configured pins offered to a checked SDRAM
/// construction.  The bundle is consumed by the construction: the pins'
/// electrical roles are fixed, and their only further duty is type-level.
pub struct SdramPins<AD, BK, DA, NB, CT> {
    /// The address lines.
    pub address: AD,
    /// The bank-address lines.
    pub bank_address: BK,
    /// The data lines.
    pub data: DA,
    /// The byte-lane selects.
    pub byte_enable: NB,
    /// The control and clock signals.
    pub control: CT,
}

/// A pin bundle that provides every signal role an SDRAM on external bank
/// `BANK` demands, with address set `ADDR`.  This is the relation a checked
/// construction requires; no implementation exists for a bundle missing a
/// role.
pub trait PinsSdram<BANK: SdramPinSet, ADDR: AddressPinSet> {
    /// The number of internal SDRAM banks addressable with this bundle.
    spec fn number_internal_banks() -> u8;
}

impl<AD: AddressPinSet, BK: BankAddressSet, DA: DataPinSet, NB: ByteEnableSet, CT: Bank1ControlSet>
    PinsSdram<SdramBank1, AD> for SdramPins<AD, BK, DA, NB, CT> {
    open spec fn number_internal_banks() -> u8 {
        BK::internal_banks()
    }
}

} // verus!
