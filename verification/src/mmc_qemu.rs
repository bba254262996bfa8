//! The emulator's SD host: soft reset, the standard card handshake, and
//! single-sector reads out of the data FIFO.

use vstd::prelude::*;

use crate::bank::reg_val;
use crate::machine::{byte_at, fifo_load, in_mmc_qemu, le32_at, m_wf, sd_resp, Machine, MachineV};
use crate::mmc::MMCError;
use crate::regs::{MMC0_BASE_QEMU, MMC_BLKSZ, MMC_CLKCR, MMC_FIFO, MMC_GCTRL, MMC_IDIE, MMC_QARG,
    MMC_QCMD, MMC_RESP0, MMC_RINT, SD_CMDR_LOAD, SD_CMDR_LONG_RESP, SD_CMDR_NO_RESP,
    SD_CMDR_READ, SD_CMDR_SHORT_RESP, SD_GCTL_SOFT_RST, SD_RISR_CMD_COMPLETE,
    SD_RISR_NO_RESPONSE};

verus! {

/// The 512 bytes of one sector of the card, zero past its end.
pub open spec fn sector_bytes(disk: Seq<u8>, sector: u32) -> Seq<u8> {
    Seq::new(512, |i: int| byte_at(disk, sector * 512 + i))
}

/// Bit facts of the command path.
proof fn lemma_mmc_bits()
    by (bit_vector)
    ensures
        forall|c: u32, f: u32|
            c <= 55 && (f == 0 || f == 0x40 || f == 0x80) ==> #[trigger] (((c & 0x3F) | f
                | 0x8000_0000) & 0x3F) == c,
        forall|c: u32, f: u32|
            (f == 0 || f == 0x40 || f == 0x80) ==> #[trigger] (((c & 0x3F) | f | 0x8000_0000)
                & 0x8000_0000) != 0,
        ((17u32 & 0x3F) | (0x40u32 | 0x10) | 0x8000_0000) & 0x3F == 17,
        ((17u32 & 0x3F) | (0x40u32 | 0x10) | 0x8000_0000) & 0x8000_0000 != 0,
        forall|a: u32| (#[trigger] ((a | 0x4) & (0x4u32 | 0x2))) != 0,
        forall|a: u32| (#[trigger] ((a | 0x2) & (0x4u32 | 0x2))) != 0,
        forall|a: u32| #![auto] ((a | 0x4) & 0x2) == (a & 0x2),
        forall|a: u32| (#[trigger] ((a | 0x2) & 0x2)) != 0,
{
}

/// Byte extraction out of one little-endian FIFO word.
proof fn lemma_le_bytes(b0: u8, b1: u8, b2: u8, b3: u8)
    by (bit_vector)
    ensures
        ((((b0 as u32) | (b1 as u32) << 8 | (b2 as u32) << 16 | (b3 as u32) << 24)) & 0xFF) as u8
            == b0,
        (((((b0 as u32) | (b1 as u32) << 8 | (b2 as u32) << 16 | (b3 as u32) << 24)) >> 8) & 0xFF)
            as u8 == b1,
        (((((b0 as u32) | (b1 as u32) << 8 | (b2 as u32) << 16 | (b3 as u32) << 24)) >> 16)
            & 0xFF) as u8 == b2,
        (((((b0 as u32) | (b1 as u32) << 8 | (b2 as u32) << 16 | (b3 as u32) << 24)) >> 24)
            & 0xFF) as u8 == b3,
        ((((b0 as u32) | (b1 as u32) << 8 | (b2 as u32) << 16 | (b3 as u32) << 24)) as u8) == b0,
        (((((b0 as u32) | (b1 as u32) << 8 | (b2 as u32) << 16 | (b3 as u32) << 24)) >> 8) as u8)
            == b1,
        (((((b0 as u32) | (b1 as u32) << 8 | (b2 as u32) << 16 | (b3 as u32) << 24)) >> 16)
            as u8) == b2,
        (((((b0 as u32) | (b1 as u32) << 8 | (b2 as u32) << 16 | (b3 as u32) << 24)) >> 24)
            as u8) == b3,
{
}

/// Issues one command to the card and waits for the raw-interrupt status
/// to answer; a card that never answers yields the no-response error.
#[verifier::rlimit(100)]
pub fn mmc_send_cmd(m: &mut Machine, cmd: u32, arg: u32) -> (r: Result<(), MMCError>)
    requires
        m_wf(old(m)@),
        cmd <= 55,
        old(m)@.sd.rint & SD_RISR_NO_RESPONSE == 0,
    ensures
        m_wf(final(m)@),
        r is Ok <==> !old(m)@.faults.sd_no_response,
        r is Err ==> r == Err::<(), MMCError>(MMCError::NoResponse),
        final(m)@.dram == old(m)@.dram,
        final(m)@.tables == old(m)@.tables,
        final(m)@.console == old(m)@.console,
        final(m)@.uart_rx == old(m)@.uart_rx,
        final(m)@.i2c == old(m)@.i2c,
        final(m)@.pmic == old(m)@.pmic,
        final(m)@.eeprom == old(m)@.eeprom,
        final(m)@.cpu == old(m)@.cpu,
        final(m)@.layout == old(m)@.layout,
        final(m)@.faults == old(m)@.faults,
        final(m)@.sd.disk == old(m)@.sd.disk,
        final(m)@.sd.stat == old(m)@.sd.stat,
        final(m)@.sd.rsp10 == old(m)@.sd.rsp10,
        crate::uart::uart_untouched(old(m)@, final(m)@),
        r is Ok ==> final(m)@.sd.rint & SD_RISR_NO_RESPONSE == 0 && final(m)@.sd.resp0 == sd_resp(
            old(m)@,
            cmd,
            arg,
        ) && final(m)@.sd.fifo == (if cmd == 17 {
            fifo_load(old(m)@.sd.disk, arg)
        } else {
            old(m)@.sd.fifo
        }),
        forall|a: u32| !in_mmc_qemu(a) ==> #[trigger] reg_val(final(m)@.bank, a) == reg_val(
            old(m)@.bank,
            a,
        ),
{
    proof {
        lemma_mmc_bits();
    }
    let cmd_flags: u32 = if cmd == 0 {
        SD_CMDR_NO_RESP
    } else if cmd == 2 || cmd == 9 {
        SD_CMDR_LONG_RESP
    } else if cmd == 17 {
        SD_CMDR_SHORT_RESP | SD_CMDR_READ
    } else {
        SD_CMDR_SHORT_RESP
    };

    m.write32(MMC0_BASE_QEMU, MMC_QARG, arg);
    m.write32(MMC0_BASE_QEMU, MMC_QCMD, (cmd & 0x3F) | cmd_flags | SD_CMDR_LOAD);

    let mut st = m.read_masked(
        MMC0_BASE_QEMU,
        MMC_RINT,
        SD_RISR_CMD_COMPLETE | SD_RISR_NO_RESPONSE,
    );
    let ghost msnap = m@;
    while st == 0
        invariant
            st != 0,
            m@ == msnap,
        decreases 0int,
    {
        st = m.read_masked(
            MMC0_BASE_QEMU,
            MMC_RINT,
            SD_RISR_CMD_COMPLETE | SD_RISR_NO_RESPONSE,
        );
    }

    let rint = m.read32(MMC0_BASE_QEMU, MMC_RINT);
    if rint & SD_RISR_NO_RESPONSE != 0 {
        Err(MMCError::NoResponse)
    } else {
        Ok(())
    }
}

/// Reads one 512-byte sector via a single-block read and drains the FIFO.
#[verifier::rlimit(100)]
pub fn read_sector(m: &mut Machine, sector: u32, buffer: &mut Vec<u8>) -> (r: Result<
    (),
    MMCError,
>)
    requires
        m_wf(old(m)@),
        old(buffer)@.len() == 512,
        sector <= 0x7F_FFFF,
        old(m)@.sd.rint & SD_RISR_NO_RESPONSE == 0,
    ensures
        m_wf(final(m)@),
        r is Ok <==> !old(m)@.faults.sd_no_response,
        r is Err ==> r == Err::<(), MMCError>(MMCError::NoResponse) && final(buffer)@ == old(
            buffer,
        )@,
        final(buffer)@.len() == 512,
        r is Ok ==> final(buffer)@ == sector_bytes(old(m)@.sd.disk, sector) && final(m)@.sd.rint
            & SD_RISR_NO_RESPONSE == 0,
        final(m)@.dram == old(m)@.dram,
        final(m)@.tables == old(m)@.tables,
        final(m)@.console == old(m)@.console,
        final(m)@.uart_rx == old(m)@.uart_rx,
        final(m)@.i2c == old(m)@.i2c,
        final(m)@.pmic == old(m)@.pmic,
        final(m)@.eeprom == old(m)@.eeprom,
        final(m)@.cpu == old(m)@.cpu,
        final(m)@.layout == old(m)@.layout,
        final(m)@.faults == old(m)@.faults,
        final(m)@.sd.disk == old(m)@.sd.disk,
        crate::uart::uart_untouched(old(m)@, final(m)@),
        forall|a: u32| !in_mmc_qemu(a) ==> #[trigger] reg_val(final(m)@.bank, a) == reg_val(
            old(m)@.bank,
            a,
        ),
{
    proof {
        lemma_mmc_bits();
    }
    let res = mmc_send_cmd(m, 17, sector * 512);
    if res.is_err() {
        return Err(MMCError::NoResponse);
    }
    let ghost loaded = m@.sd.fifo;
    let ghost disk = m@.sd.disk;
    proof {
        assert(loaded =~= fifo_load(disk, (sector * 512) as u32));
    }
    let mut i: usize = 0;
    while i < 128
        invariant
            m_wf(m@),
            i <= 128,
            buffer@.len() == 512,
            loaded.len() == 128,
            disk == m@.sd.disk,
            m@.sd.fifo == loaded.skip(i as int),
            sector <= 0x7F_FFFF,
            forall|j: int| 0 <= j < 128 ==> #[trigger] loaded[j] == le32_at(
                disk,
                sector * 512 + 4 * j,
            ),
            forall|k: int| 0 <= k < 4 * i ==> #[trigger] buffer@[k] == byte_at(
                disk,
                sector * 512 + k,
            ),
            m@.dram == old(m)@.dram,
            m@.tables == old(m)@.tables,
            m@.console == old(m)@.console,
            m@.uart_rx == old(m)@.uart_rx,
            m@.i2c == old(m)@.i2c,
            m@.pmic == old(m)@.pmic,
            m@.eeprom == old(m)@.eeprom,
            m@.cpu == old(m)@.cpu,
            m@.layout == old(m)@.layout,
            m@.faults == old(m)@.faults,
            m@.sd.rint & SD_RISR_NO_RESPONSE == 0,
            m@.sd.stat == old(m)@.sd.stat,
            m@.sd.rsp10 == old(m)@.sd.rsp10,
            crate::uart::uart_untouched(old(m)@, m@),
            forall|a: u32| !in_mmc_qemu(a) ==> #[trigger] reg_val(m@.bank, a) == reg_val(
                old(m)@.bank,
                a,
            ),
        decreases 128 - i,
    {
        proof {
            lemma_mmc_bits();
        }
        let w = m.read32(MMC0_BASE_QEMU, MMC_FIFO);
        proof {
            assert(loaded[i as int] == le32_at(disk, sector * 512 + 4 * i));
            lemma_le_bytes(
                byte_at(disk, sector * 512 + 4 * i),
                byte_at(disk, sector * 512 + 4 * i + 1),
                byte_at(disk, sector * 512 + 4 * i + 2),
                byte_at(disk, sector * 512 + 4 * i + 3),
            );
        }
        buffer.set(4 * i, w as u8);
        buffer.set(4 * i + 1, (w >> 8) as u8);
        buffer.set(4 * i + 2, (w >> 16) as u8);
        buffer.set(4 * i + 3, (w >> 24) as u8);
        proof {
            assert(m@.sd.fifo =~= loaded.skip(i + 1));
            assert forall|k: int| 0 <= k < 4 * (i + 1) implies #[trigger] buffer@[k] == byte_at(
                disk,
                sector * 512 + k,
            ) by {
                if k >= 4 * i {
                    assert((w as u8) == byte_at(disk, sector * 512 + 4 * i));
                    assert(((w >> 8) as u8) == byte_at(disk, sector * 512 + 4 * i + 1));
                    assert(((w >> 16) as u8) == byte_at(disk, sector * 512 + 4 * i + 2));
                    assert(((w >> 24) as u8) == byte_at(disk, sector * 512 + 4 * i + 3));
                }
            }
        }
        i = i + 1;
    }
    proof {
        assert(buffer@ =~= sector_bytes(old(m)@.sd.disk, sector));
    }
    Ok(())
}

/// Card bring-up: controller soft reset, the identification handshake
/// (reset, interface condition, operating condition, identification,
/// address, select) and the data clock and block size.
#[verifier::rlimit(100)]
pub fn init(m: &mut Machine) -> (r: Result<(), MMCError>)
    requires
        m_wf(old(m)@),
        old(m)@.sd.rint & SD_RISR_NO_RESPONSE == 0,
    ensures
        m_wf(final(m)@),
        final(m)@.dram == old(m)@.dram,
        final(m)@.tables == old(m)@.tables,
        final(m)@.console == old(m)@.console,
        final(m)@.cpu == old(m)@.cpu,
        final(m)@.pmic == old(m)@.pmic,
        final(m)@.layout == old(m)@.layout,
        final(m)@.faults == old(m)@.faults,
        final(m)@.sd.disk == old(m)@.sd.disk,
        crate::uart::uart_untouched(old(m)@, final(m)@),
        r is Ok <==> !old(m)@.faults.sd_no_response && sd_resp(old(m)@, 8, 0x1AA) & 0xFF == 0xAA
            && sd_resp(old(m)@, 8, 0x1AA) >> 8 == 0x1,
        r is Ok ==> final(m)@.sd.rint & SD_RISR_NO_RESPONSE == 0,
        r == Err::<(), MMCError>(MMCError::NoResponse) <==> old(m)@.faults.sd_no_response,
        r == Err::<(), MMCError>(MMCError::BadCMD8Response) <==> !old(m)@.faults.sd_no_response
            && !(sd_resp(old(m)@, 8, 0x1AA) & 0xFF == 0xAA && sd_resp(old(m)@, 8, 0x1AA) >> 8
            == 0x1),
        r is Ok ==> reg_val(final(m)@.bank, (MMC0_BASE_QEMU + MMC_CLKCR) as u32) == 0x1_0000
            && reg_val(final(m)@.bank, (MMC0_BASE_QEMU + MMC_IDIE) as u32) == (0x10u32 | 0x8)
            && reg_val(final(m)@.bank, (MMC0_BASE_QEMU + MMC_BLKSZ) as u32) == 512,
{
    proof {
        lemma_mmc_bits();
        assert(forall|a: u32| #![auto] ((a & !0x1u32) & 0x1) == 0) by (bit_vector);
    }
    m.write_masked(MMC0_BASE_QEMU, MMC_GCTRL, SD_GCTL_SOFT_RST, SD_GCTL_SOFT_RST);
    m.wait_masked_eq(MMC0_BASE_QEMU, MMC_GCTRL, SD_GCTL_SOFT_RST, 0);

    // 24 MHz source divided to the 400 kHz identification clock.
    m.write32(MMC0_BASE_QEMU, MMC_CLKCR, 59 | 0x1_0000);

    let r0 = mmc_send_cmd(m, 0, 0);
    if r0.is_err() {
        return Err(MMCError::NoResponse);
    }
    let r8 = mmc_send_cmd(m, 8, 0x1AA);
    if r8.is_err() {
        return Err(MMCError::NoResponse);
    }
    let resp = m.read32(MMC0_BASE_QEMU, MMC_RESP0);
    if (resp & 0xFF) != 0xAA || (resp >> 8) != 0x1 {
        return Err(MMCError::BadCMD8Response);
    }

    // Operating-condition loop until the card leaves the busy state.
    let mut fuel: u32 = 0xFFFF;
    loop
        invariant
            m_wf(m@),
            fuel <= 0xFFFF,
            !m@.faults.sd_no_response,
            m@.sd.rint & SD_RISR_NO_RESPONSE == 0,
            m@.dram == old(m)@.dram,
            m@.tables == old(m)@.tables,
            m@.console == old(m)@.console,
            m@.cpu == old(m)@.cpu,
            m@.pmic == old(m)@.pmic,
            m@.layout == old(m)@.layout,
            m@.faults == old(m)@.faults,
            m@.sd.disk == old(m)@.sd.disk,
            crate::uart::uart_untouched(old(m)@, m@),
            forall|a: u32| !in_mmc_qemu(a) ==> #[trigger] reg_val(m@.bank, a) == reg_val(
                old(m)@.bank,
                a,
            ),
        ensures
            m_wf(m@),
            m@.sd.rint & SD_RISR_NO_RESPONSE == 0,
            m@.dram == old(m)@.dram,
            m@.tables == old(m)@.tables,
            m@.console == old(m)@.console,
            m@.cpu == old(m)@.cpu,
            m@.pmic == old(m)@.pmic,
            m@.layout == old(m)@.layout,
            m@.faults == old(m)@.faults,
            m@.sd.disk == old(m)@.sd.disk,
            crate::uart::uart_untouched(old(m)@, m@),
            forall|a: u32| !in_mmc_qemu(a) ==> #[trigger] reg_val(m@.bank, a) == reg_val(
                old(m)@.bank,
                a,
            ),
        decreases fuel,
    {
        proof {
            lemma_mmc_bits();
            assert(0x8000_0000u32 & 0x8000_0000 != 0) by (bit_vector);
        }
        let r55 = mmc_send_cmd(m, 55, 0);
        proof {
            assert(r55 is Ok);
        }
        let r41 = mmc_send_cmd(m, 41, 0x40FF_8000);
        proof {
            assert(r41 is Ok);
        }
        let resp41 = m.read32(MMC0_BASE_QEMU, MMC_RESP0);
        if resp41 & 0x8000_0000 != 0 {
            break ;
        }
        if fuel == 0 {
            break ;
        }
        fuel = fuel - 1;
    }

    let r2 = mmc_send_cmd(m, 2, 0);
    proof {
        assert(r2 is Ok);
    }
    let r3 = mmc_send_cmd(m, 3, 0);
    proof {
        assert(r3 is Ok);
    }
    let rca = (m.read32(MMC0_BASE_QEMU, MMC_RESP0) >> 16) & 0xFFFF;
    proof {
        assert((rca << 16u32) <= u32::MAX) by (bit_vector)
            requires
                rca == (0x1234_0500u32 >> 16) & 0xFFFF,
        ;
    }
    let r7 = mmc_send_cmd(m, 7, rca << 16);
    proof {
        assert(r7 is Ok);
    }

    // Full-speed clock, transfer interrupts, 512-byte blocks.
    m.write32(MMC0_BASE_QEMU, MMC_CLKCR, 0x1_0000);
    m.write32(MMC0_BASE_QEMU, MMC_IDIE, 0x10 | 0x8);
    m.write32(MMC0_BASE_QEMU, MMC_BLKSZ, 512);
    Ok(())
}

} // verus!
