use fmc_hal::fmc::FmcRegisterBlock;
use fmc_hal::gpio::{Alternate, Input, AF12, PD0, PD1, PD14, PD15, PE10, PE7, PE8, PE9, PI10};
use fmc_hal::pins::SdramTargetBank;
use fmc_hal::rcc::{Clocks, Rcc};
use fmc_hal::time::Hertz;

#[derive(Clone, Copy, PartialEq, Debug)]
struct DemoChip;

#[test]
fn construction_sets_exactly_the_bus_clock_enable_bit() {
    let block = FmcRegisterBlock { bcr1: 0 };
    let mut rcc = Rcc {
        ahb3enr: 0xa5a5_a5a4,
    };
    let clocks = Clocks {
        hclk: Some(Hertz(100_000_000)),
    };
    let _fmc = block.fmc(&mut rcc, &clocks);
    // Bit 0 newly set, every other bit as before.
    assert_eq!(rcc.ahb3enr, 0xa5a5_a5a5);

    let block = FmcRegisterBlock { bcr1: 0 };
    let mut rcc = Rcc { ahb3enr: 0 };
    let _fmc = block.fmc(&mut rcc, &clocks);
    assert_eq!(rcc.ahb3enr, 0x0000_0001);
}

#[test]
fn enable_changes_nothing() {
    let block = FmcRegisterBlock { bcr1: 0x1234_0012 };
    let mut rcc = Rcc { ahb3enr: 0 };
    let clocks = Clocks {
        hclk: Some(Hertz(90_000_000)),
    };
    let mut fmc = block.fmc(&mut rcc, &clocks);
    fmc.enable();
    assert_eq!(fmc.bcr1(), 0x1234_0012);
    assert_eq!(fmc.source_clock_hz(), 90_000_000);
}

#[test]
fn memory_controller_enable_sets_exactly_the_access_enable_bit() {
    let block = FmcRegisterBlock { bcr1: 0x1234_5012 };
    let mut rcc = Rcc { ahb3enr: 0 };
    let clocks = Clocks {
        hclk: Some(Hertz(90_000_000)),
    };
    let mut fmc = block.fmc(&mut rcc, &clocks);
    fmc.memory_controller_enable();
    // Bit 6 newly set, every other bit as before.
    assert_eq!(fmc.bcr1(), 0x1234_5052);
}

#[test]
fn memory_controller_enable_is_idempotent() {
    let block = FmcRegisterBlock { bcr1: 0 };
    let mut rcc = Rcc { ahb3enr: 0 };
    let clocks = Clocks {
        hclk: Some(Hertz(90_000_000)),
    };
    let mut fmc = block.fmc(&mut rcc, &clocks);
    fmc.memory_controller_enable();
    let once = fmc.bcr1();
    fmc.memory_controller_enable();
    assert_eq!(fmc.bcr1(), once);
    assert_eq!(once, 0x0000_0040);
}

#[test]
fn source_clock_reports_the_descriptor_frequency() {
    let block = FmcRegisterBlock { bcr1: 0 };
    let mut rcc = Rcc { ahb3enr: 0 };
    let clocks = Clocks {
        hclk: Some(Hertz(133_000_000)),
    };
    let fmc = block.fmc(&mut rcc, &clocks);
    assert_eq!(fmc.source_clock_hz(), 133_000_000);
}

#[test]
fn bank_selector_indices_name_the_banks() {
    assert_eq!(SdramTargetBank::from_index(1), SdramTargetBank::Bank1);
    assert_eq!(SdramTargetBank::from_index(2), SdramTargetBank::Bank2);
}

#[test]
fn unchecked_construction_skips_pin_verification() {
    // Only 8 of the 32 data lines are configured; the unchecked path takes no
    // pin bundle at all, so this partial wiring is the caller's own business.
    let _d0 = PD14 { mode: Alternate { af: AF12 } };
    let _d1 = PD15 { mode: Alternate { af: AF12 } };
    let _d2 = PD0 { mode: Alternate { af: AF12 } };
    let _d3 = PD1 { mode: Alternate { af: AF12 } };
    let _d4 = PE7 { mode: Alternate { af: AF12 } };
    let _d5 = PE8 { mode: Alternate { af: AF12 } };
    let _d6 = PE9 { mode: Alternate { af: AF12 } };
    let _d7 = PE10 { mode: Alternate { af: AF12 } };
    // A pin still in its reset mode carries no signal-role capability; the
    // unchecked path does not mind.
    let _idle = PI10 { mode: Input };

    let block = FmcRegisterBlock { bcr1: 0 };
    let mut rcc = Rcc { ahb3enr: 0 };
    let clocks = Clocks {
        hclk: Some(Hertz(168_000_000)),
    };
    let bank = SdramTargetBank::from_index(1);
    let sdram = block.sdram_unchecked(&mut rcc, bank, DemoChip, &clocks);
    assert_eq!(rcc.ahb3enr, 0x0000_0001);
    assert_eq!(sdram.target_bank, SdramTargetBank::Bank1);
    assert_eq!(sdram.chip, DemoChip);
}
