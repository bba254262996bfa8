//! End-to-end boot scenarios against the board model.

use bootloader::boot::{rust_main, BootConfig, BootError};
use bootloader::fat32::Fat32Error;
use bootloader::machine::Machine;
use bootloader::mmc::MMCError;
use bootloader::uart::Platform;

fn kernel_image() -> Result<Vec<u8>, Fat32Error> {
    // A 34-byte stand-in kernel, as the happy-path scenario uses.
    Ok((0u8..34).map(|b| b.wrapping_mul(7)).collect())
}

fn console_contains_in_order(console: &[u8], lines: &[&str]) -> bool {
    let mut pos = 0;
    for line in lines {
        let needle = line.as_bytes();
        let mut found = None;
        if needle.len() <= console.len() {
            for start in pos..=console.len() - needle.len() {
                if &console[start..start + needle.len()] == needle {
                    found = Some(start + needle.len());
                    break;
                }
            }
        }
        match found {
            Some(next) => pos = next,
            None => return false,
        }
    }
    true
}

fn qemu_config() -> BootConfig {
    BootConfig { platform: Platform::Qemu, kernel_entry: 0xA000_0000, boot_mmc: true }
}

fn qemu_machine() -> Machine {
    // 144 KiB of DRAM keeps the destructive test quick while leaving room
    // above the resident boot image.
    Machine::new(0x9000)
}

#[test]
fn qemu_happy_path() {
    let mut m = qemu_machine();
    let cfg = qemu_config();
    let img = kernel_image().unwrap();
    let r = rust_main(&mut m, &cfg, Ok(img.clone()));
    let o = r.expect("boot should reach the kernel");
    assert_eq!(o.entry, 0xA000_0000);
    assert_eq!(o.info.boot_entry, m.layout.init_addr);
    assert_eq!(o.info.boot_size, 0xDEAD_BEEF);
    assert!(console_contains_in_order(
        &m.console,
        &["UART0 ACTIVE", "DRAM test passed!", "Finished initializing hardware, enabling MMU",
            "Initialization Complete!", "Initialized MMC controller",
            "Copying kernel to 0xa0000000", "Kernel size: 34",
            "Copied kernel, jumping to kernel"],
    ));
    // The image sits at the bottom of DRAM, little-endian in the words.
    let w0 = m.read32(0x8000_0000, 0);
    assert_eq!(w0.to_le_bytes(), [img[0], img[1], img[2], img[3]]);
    let w8 = m.read32(0x8000_0020, 0);
    assert_eq!(w8.to_le_bytes()[0], img[32]);
    assert_eq!(w8.to_le_bytes()[1], img[33]);
}

#[test]
fn missing_kernel_file_is_fatal() {
    let mut m = qemu_machine();
    let cfg = qemu_config();
    let r = rust_main(&mut m, &cfg, Err(Fat32Error::NoFile));
    match r {
        Err(BootError::Fat(Fat32Error::NoFile)) => {}
        other => panic!("expected the missing-file failure, got {:?}", other),
    }
    assert_eq!(
        BootError::Fat(Fat32Error::NoFile).message(),
        "Failed to open kernel.bin"
    );
}

#[test]
fn corrupt_interface_condition_fails_mmc() {
    let mut m = qemu_machine();
    m.faults.cmd8_override = Some(0x0000_01FF);
    let cfg = qemu_config();
    let r = rust_main(&mut m, &cfg, kernel_image());
    match r {
        Err(BootError::Mmc(MMCError::BadCMD8Response)) => {}
        other => panic!("expected the interface-condition failure, got {:?}", other),
    }
    assert_eq!(BootError::Mmc(MMCError::BadCMD8Response).message(), "Failed to initialize MMC");
}

#[test]
fn stuck_dram_bit_fails_the_self_test() {
    let mut m = qemu_machine();
    m.faults.dram_stuck = 0x1;
    let cfg = BootConfig { platform: Platform::Bbb, kernel_entry: 0xA000_0000, boot_mmc: true };
    let r = rust_main(&mut m, &cfg, kernel_image());
    match r {
        Err(BootError::DramTest) => {}
        other => panic!("expected the self-test failure, got {:?}", other),
    }
    assert_eq!(BootError::DramTest.message(), "DRAM test failed");
    assert!(console_contains_in_order(&m.console, &["Walking ones: ERROR at bit 0"]));
}

#[test]
fn nitro_point_selected_on_latest_silicon() {
    let mut m = qemu_machine();
    // Device version 2.1 with the 1 GHz efuse bit.
    m.bank.set(0x44E1_0000 + 0x600, 2 << 28);
    m.bank.set(0x44E1_0000 + 0x7FC, 0x200);
    let idx = bootloader::tps::boot_max_opp_get(&mut m);
    assert_eq!(idx, 9);
    let row = bootloader::tps::opp_row(idx);
    assert_eq!(row.mpupll_m, 1000);
    bootloader::cm::init_mpu_pll(&mut m, row.mpupll_m);
    let clksel = m.bank.get(0x44E0_0400 + 0x2C);
    assert_eq!((clksel >> 8) & 0x7FF, 1000);
}

#[test]
fn misaligned_page_tables_refuse_the_mmu() {
    let mut m = qemu_machine();
    m.layout.tables_start = 0x402F_0004;
    m.layout.tables_end = 0x402F_4004;
    let before = m.tables.clone();
    let r = bootloader::mmu::init(&mut m, 0xA000_0000);
    assert_eq!(r, Err(bootloader::mmu::MmuError::Misaligned));
    assert_eq!(m.tables, before);
    assert_eq!(
        bootloader::boot::BootError::TablesMisaligned.message(),
        "Page tables misaligned"
    );
}

#[test]
fn missing_boot_source_is_fatal() {
    let mut m = qemu_machine();
    let cfg = BootConfig { platform: Platform::Qemu, kernel_entry: 0xA000_0000, boot_mmc: false };
    let r = rust_main(&mut m, &cfg, kernel_image());
    match r {
        Err(BootError::NoBootSource) => {}
        other => panic!("expected the missing-source failure, got {:?}", other),
    }
}
