//! Unit tests of the drivers against the board model.

use bootloader::machine::Machine;
use bootloader::uart::Platform;

#[test]
fn masked_write_updates_only_the_masked_bits() {
    let mut m = Machine::new(64);
    m.write32(0x44E1_0000, 0x700, 0xABCD_1234);
    m.write_masked(0x44E1_0000, 0x700, 0x0000_00FF, 0x55);
    assert_eq!(m.read32(0x44E1_0000, 0x700), 0xABCD_1255);
    m.clear_bits(0x44E1_0000, 0x700, 0x0000_F000);
    assert_eq!(m.read32(0x44E1_0000, 0x700), 0xABCD_0255);
}

#[test]
fn dram_round_trip_and_stuck_bit() {
    let mut m = Machine::new(64);
    m.write32(0x8000_0004, 0, 0xDEAD_BEEF);
    assert_eq!(m.read32(0x8000_0004, 0), 0xDEAD_BEEF);
    m.faults.dram_stuck = 0x1;
    m.write32(0x8000_0000, 0, 0xFFFF_FFFF);
    assert_eq!(m.read32(0x8000_0000, 0), 0xFFFF_FFFE);
}

#[test]
fn console_renders_platform_line_endings() {
    let mut m = Machine::new(64);
    bootloader::uart::init(&mut m, Platform::Qemu);
    assert_eq!(m.console, b"UART0 ACTIVE\n".to_vec());
    let mut b = Machine::new(64);
    bootloader::uart::init(&mut b, Platform::Bbb);
    assert_eq!(b.console, b"UART0 ACTIVE\r\n".to_vec());
}

#[test]
fn decimal_and_hex_rendering() {
    assert_eq!(bootloader::fmt::dec_bytes(0), b"0".to_vec());
    assert_eq!(bootloader::fmt::dec_bytes(34), b"34".to_vec());
    assert_eq!(bootloader::fmt::dec_bytes(4_294_967_295), b"4294967295".to_vec());
    assert_eq!(bootloader::fmt::hex_bytes(0xA000_0000), b"a0000000".to_vec());
    assert_eq!(bootloader::fmt::hex_bytes(0x1A), b"1a".to_vec());
}

#[test]
fn level2_write_lands_and_reads_back() {
    let mut m = Machine::new(64);
    bootloader::i2c::init(&mut m);
    bootloader::i2c::master_slave_addr_set(&mut m, 0x24);
    // DEFDCDC1 under the level-2 double write.
    bootloader::tps::write_reg(&mut m, 2, 0x0E, 0x11, 0xFF);
    assert_eq!(m.pmic.regs[0x0E], 0x11);
    assert_eq!(bootloader::tps::read_reg(&mut m, 0x0E), 0x11);
}

#[test]
fn level2_write_without_password_does_not_land() {
    let mut m = Machine::new(64);
    bootloader::i2c::init(&mut m);
    // A single unprotected-style write to a protected register is ignored
    // by the PMIC.
    let mut data = Vec::new();
    data.push(0x0Eu8);
    data.push(0x33u8);
    bootloader::i2c::device_write(&mut m, 0x24, &data);
    assert_eq!(m.pmic.regs[0x0E], 0);
}

fn max_opp(version: u32, efuse: u32) -> u32 {
    let mut m = Machine::new(64);
    m.bank.set(0x44E1_0000 + 0x600, version << 28);
    m.bank.set(0x44E1_0000 + 0x7FC, efuse);
    bootloader::tps::boot_max_opp_get(&mut m)
}

#[test]
fn opp_decision_tree() {
    assert_eq!(max_opp(0, 0), 3);
    assert_eq!(max_opp(1, 0), 8);
    assert_eq!(max_opp(2, 0x200), 9);
    assert_eq!(max_opp(2, 0x100), 8);
    assert_eq!(max_opp(2, 0x50), 7);
    assert_eq!(max_opp(2, 0x10), 7);
    assert_eq!(max_opp(2, 0x40), 7);
    assert_eq!(max_opp(2, 0x20), 5);
    assert_eq!(max_opp(2, 0), 4);
    assert_eq!(max_opp(7, 0), 0xFFFF_FFFF);
}

#[test]
fn boot_table_entries_decode() {
    let mut m = Machine::new(64);
    let r = bootloader::mmu::init(&mut m, 0xA000_0000);
    assert_eq!(r, Ok(()));
    let kidx = (0xA000_0000u32 >> 20) as usize;
    for i in [0usize, 1, 4095, kidx - 1, kidx + 1] {
        let e = m.tables[i];
        assert_eq!(e & 3, 2, "section descriptor at {}", i);
        assert_eq!(e & (1 << 18), 0, "no supersection at {}", i);
        assert_eq!(e & 0xFFF0_0000, (i as u32) << 20, "flat base at {}", i);
    }
    let k = m.tables[kidx];
    assert_eq!(k & 0xFFF0_0000, 0x8000_0000);
    assert_eq!(k, (0x8000_0000u32 & 0xFFF0_0000) | 2 | 0x18408);
}

#[test]
fn mmu_init_twice_same_tables_and_enable_idempotent() {
    let mut m = Machine::new(64);
    bootloader::mmu::init(&mut m, 0xA000_0000).unwrap();
    let first = m.tables.clone();
    bootloader::mmu::init(&mut m, 0xA000_0000).unwrap();
    assert_eq!(m.tables, first);
    bootloader::mmu::enable(&mut m);
    let cpu_once = m.cpu;
    bootloader::mmu::enable(&mut m);
    assert_eq!(m.cpu, cpu_once);
}

#[test]
fn sd_sector_read_returns_card_bytes() {
    let mut m = Machine::new(64);
    let mut disk = vec![0u8; 1024];
    for (i, b) in disk.iter_mut().enumerate() {
        *b = (i % 251) as u8;
    }
    m.sd.disk = disk.clone();
    bootloader::mmc_qemu::init(&mut m).unwrap();
    let mut buf = vec![0u8; 512];
    bootloader::mmc_qemu::read_sector(&mut m, 1, &mut buf).unwrap();
    assert_eq!(&buf[..], &disk[512..1024]);
}

#[test]
fn sd_no_response_fault_reports() {
    let mut m = Machine::new(64);
    m.faults.sd_no_response = true;
    let r = bootloader::mmc_qemu::init(&mut m);
    assert_eq!(r, Err(bootloader::mmc::MMCError::NoResponse));
}

#[test]
fn highspeed_controller_comes_up() {
    let mut m = Machine::new(64);
    let r = bootloader::mmc_bbb::init(&mut m);
    assert_eq!(r, Ok(()));
}

#[test]
fn memtest_window_skips_resident_image() {
    let mut m = Machine::new(0x9000);
    m.faults.dram_stuck = 0x4;
    bootloader::uart::init(&mut m, Platform::Qemu);
    // The emulator window starts above the boot image, missing the fault.
    let r = bootloader::dram::init(&mut m, Platform::Qemu);
    assert_eq!(r, Ok(()));
}
