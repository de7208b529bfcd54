use fmc_hal::fmc::FmcRegisterBlock;
use fmc_hal::gpio::{Alternate, AF12, PC0, PD0, PD1, PD10, PD14, PD15, PD8, PD9, PE0, PE1, PE10, PE11, PE12, PE13, PE14, PE15, PE7, PE8, PE9, PF0, PF1, PF11, PF12, PF13, PF14, PF15, PF2, PF3, PF4, PF5, PG0, PG1, PG15, PG4, PG5, PG8, PH10, PH11, PH12, PH13, PH14, PH15, PH2, PH3, PH8, PH9, PI0, PI1, PI10, PI2, PI3, PI4, PI5, PI6, PI7, PI9};
use fmc_hal::pins::{
    AddressPins12, BankAddressPins2, ByteEnablePins4, ControlPins, DataPins32, SdramPins,
    SdramTargetBank,
};
use fmc_hal::rcc::{Clocks, Rcc};
use fmc_hal::time::Hertz;

/// A stand-in memory device descriptor: the construction paths carry it
/// opaquely, so any type will do for observing them.
#[derive(Clone, Copy, PartialEq, Debug)]
struct DemoChip;

fn running_clocks() -> Clocks {
    Clocks { hclk: Some(Hertz(168_000_000)) }
}

#[test]
fn checked_construction_with_a_complete_bundle() {
    let address = AddressPins12 {
        a0: PF0 { mode: Alternate { af: AF12 } },
        a1: PF1 { mode: Alternate { af: AF12 } },
        a2: PF2 { mode: Alternate { af: AF12 } },
        a3: PF3 { mode: Alternate { af: AF12 } },
        a4: PF4 { mode: Alternate { af: AF12 } },
        a5: PF5 { mode: Alternate { af: AF12 } },
        a6: PF12 { mode: Alternate { af: AF12 } },
        a7: PF13 { mode: Alternate { af: AF12 } },
        a8: PF14 { mode: Alternate { af: AF12 } },
        a9: PF15 { mode: Alternate { af: AF12 } },
        a10: PG0 { mode: Alternate { af: AF12 } },
        a11: PG1 { mode: Alternate { af: AF12 } },
    };
    let bank_address = BankAddressPins2 {
        ba0: PG4 { mode: Alternate { af: AF12 } },
        ba1: PG5 { mode: Alternate { af: AF12 } },
    };
    let data = DataPins32 {
        d0: PD14 { mode: Alternate { af: AF12 } },
        d1: PD15 { mode: Alternate { af: AF12 } },
        d2: PD0 { mode: Alternate { af: AF12 } },
        d3: PD1 { mode: Alternate { af: AF12 } },
        d4: PE7 { mode: Alternate { af: AF12 } },
        d5: PE8 { mode: Alternate { af: AF12 } },
        d6: PE9 { mode: Alternate { af: AF12 } },
        d7: PE10 { mode: Alternate { af: AF12 } },
        d8: PE11 { mode: Alternate { af: AF12 } },
        d9: PE12 { mode: Alternate { af: AF12 } },
        d10: PE13 { mode: Alternate { af: AF12 } },
        d11: PE14 { mode: Alternate { af: AF12 } },
        d12: PE15 { mode: Alternate { af: AF12 } },
        d13: PD8 { mode: Alternate { af: AF12 } },
        d14: PD9 { mode: Alternate { af: AF12 } },
        d15: PD10 { mode: Alternate { af: AF12 } },
        d16: PH8 { mode: Alternate { af: AF12 } },
        d17: PH9 { mode: Alternate { af: AF12 } },
        d18: PH10 { mode: Alternate { af: AF12 } },
        d19: PH11 { mode: Alternate { af: AF12 } },
        d20: PH12 { mode: Alternate { af: AF12 } },
        d21: PH13 { mode: Alternate { af: AF12 } },
        d22: PH14 { mode: Alternate { af: AF12 } },
        d23: PH15 { mode: Alternate { af: AF12 } },
        d24: PI0 { mode: Alternate { af: AF12 } },
        d25: PI1 { mode: Alternate { af: AF12 } },
        d26: PI2 { mode: Alternate { af: AF12 } },
        d27: PI3 { mode: Alternate { af: AF12 } },
        d28: PI6 { mode: Alternate { af: AF12 } },
        d29: PI7 { mode: Alternate { af: AF12 } },
        d30: PI9 { mode: Alternate { af: AF12 } },
        d31: PI10 { mode: Alternate { af: AF12 } },
    };
    let byte_enable = ByteEnablePins4 {
        nbl0: PE0 { mode: Alternate { af: AF12 } },
        nbl1: PE1 { mode: Alternate { af: AF12 } },
        nbl2: PI4 { mode: Alternate { af: AF12 } },
        nbl3: PI5 { mode: Alternate { af: AF12 } },
    };
    let control = ControlPins {
        sdcke: PH2 { mode: Alternate { af: AF12 } },
        sdclk: PG8 { mode: Alternate { af: AF12 } },
        sdncas: PG15 { mode: Alternate { af: AF12 } },
        sdne: PH3 { mode: Alternate { af: AF12 } },
        sdnras: PF11 { mode: Alternate { af: AF12 } },
        sdnwe: PC0 { mode: Alternate { af: AF12 } },
    };
    let pins = SdramPins { address, bank_address, data, byte_enable, control };
    let block = FmcRegisterBlock { bcr1: 0 };
    let mut rcc = Rcc { ahb3enr: 0 };
    let clocks = running_clocks();
    let sdram = block.sdram(&mut rcc, pins, DemoChip, &clocks);
    assert_eq!(rcc.ahb3enr, 0x0000_0001);
    assert_eq!(sdram.target_bank, SdramTargetBank::Bank1);
    assert_eq!(sdram.chip, DemoChip);
    assert_eq!(sdram.fmc.source_clock_hz(), 168_000_000);
}

