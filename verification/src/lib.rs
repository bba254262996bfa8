//! First-stage bootloader for an ARM Cortex-A8 SoC, written against an
//! explicit model of the hardware it drives.
//!
//! The crate brings a cold board to a running kernel: PMIC voltage
//! programming over I2C, the four PLL state machines, DDR3 controller
//! bring-up with a destructive self-test, first-level page-table
//! construction and MMU enable, MMC/SD initialization, and a FAT32 read of
//! the kernel image, ending in a jump record for the kernel entry.
//!
//! All device state (registers, the I2C engine and the PMIC behind it, the
//! SD card and its two controller front ends, DRAM, the CPU control
//! registers, the UART console) lives in [`machine::Machine`], so every
//! driver is an ordinary function whose effect on the hardware is stated in
//! its contract.

pub mod cm;
pub mod cpu;
pub mod dram;
pub mod fat32;
pub mod bank;
pub mod boot;
pub mod ccm;
pub mod fmt;
pub mod i2c;
pub mod machine;
pub mod mmc;
pub mod mmc_bbb;
pub mod mmc_qemu;
pub mod mmu;
pub mod msgs;
pub mod regs;
pub mod tps;
pub mod uart;
