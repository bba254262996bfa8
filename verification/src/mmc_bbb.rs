//! The highspeed board's MMC0 controller: pad mux, module clock, the long
//! controller bring-up sequence and the command path, up to the
//! interface-condition check of the card.

use vstd::prelude::*;

use crate::bank::reg_val;
use crate::machine::{m_wf, sd_resp, Machine, MachineV};
use crate::mmc::MMCError;
use crate::regs::{CM_PER_BASE, CM_PER_MMC0_CLKCTRL, CLKCTRL_IDLEST, CLKCTRL_MODULEMODE,
    CLKCTRL_MODULEMODE_ENABLE, CONF_MMC0_PUTYPESEL, CONF_MMC0_RXACTIVE, CONTROL_CONF_MMC0_CLK,
    CONTROL_CONF_MMC0_CMD, CONTROL_CONF_MMC0_DAT0, CONTROL_CONF_MMC0_DAT1, CONTROL_CONF_MMC0_DAT2,
    CONTROL_CONF_MMC0_DAT3, CONTROL_MODULE_BASE, HS_MMCSD_ALL_RESET, HS_MMCSD_AUTOIDLE_ENABLE,
    HS_MMCSD_BUS_POWER_ON, HS_MMCSD_BUS_VOLT_3P0, HS_MMCSD_INTCLOCK_ON, HS_MMCSD_SIGEN_CMDCOMP,
    HS_MMCSD_SUPPORT_VOLT_1P8, HS_MMCSD_SUPPORT_VOLT_3P0, MMC0_BASE_BBB, MMCHS_CON_INIT,
    MMCHS_HCTL_SDBP, MMCHS_HCTL_SDVS, MMCHS_STAT_CC, MMCSD_INIT_FREQ, MMCSD_IN_FREQ, MMC_ARG,
    MMC_CAPA, MMC_CAPA_VS18, MMC_CAPA_VS30, MMC_CAPA_VS33, MMC_CMD, MMC_CON, MMC_HCTL, MMC_IE,
    MMC_PSTATE, MMC_RSP10, MMC_STAT, MMC_SYSCONFIG, MMC_SYSCONFIG_AUTOIDLE,
    MMC_SYSCONFIG_CLOCKACTIVITY, MMC_SYSCONFIG_ENAWAKEUP, MMC_SYSCONFIG_SIDLEMODE,
    MMC_SYSCONFIG_SOFTRESET, MMC_SYSCONFIG_STANDBYMODE, MMC_SYSCTL, MMC_SYSCTL_CEN,
    MMC_SYSCTL_CLKD, MMC_SYSCTL_CLKD_SHIFT, MMC_SYSCTL_ICE, MMC_SYSCTL_ICS, MMC_SYSCTL_SRA,
    MMC_SYSCTL_SRC, MMC_SYSCTL_SRD, MMC_SYSSTATUS,
    MMC_SYSSTATUS_RESETDONE, SD_CMDR_NO_RESPONSE, SD_CMDR_SHORT_RESPONSE,
    SD_CMDR_SHORT_RESPONSE_BUSY};

verus! {

/// Everything the highspeed controller driver leaves alone.
pub open spec fn hs_frame(a: MachineV, b: MachineV) -> bool {
    &&& b.dram == a.dram
    &&& b.tables == a.tables
    &&& b.console == a.console
    &&& b.uart_rx == a.uart_rx
    &&& b.i2c == a.i2c
    &&& b.pmic == a.pmic
    &&& b.eeprom == a.eeprom
    &&& b.cpu == a.cpu
    &&& b.layout == a.layout
    &&& b.faults == a.faults
    &&& b.sd.disk == a.sd.disk
    &&& b.sd.rint == a.sd.rint
    &&& b.sd.resp0 == a.sd.resp0
    &&& b.sd.fifo == a.sd.fifo
    &&& crate::uart::uart_untouched(a, b)
}

/// Bit facts of the controller paths.
proof fn lemma_hs_bits()
    by (bit_vector)
    ensures
        forall|a: u32, mk: u32, v: u32| #![auto] (((a & !mk) | (v & mk)) & mk) == (v & mk),
        forall|a: u32, mk: u32| #![auto] ((a | mk) & mk) == mk,
        forall|a: u32| #![auto] ((a & !(0x100_0000u32 | 0x200_0000 | 0x400_0000)) & 0x100_0000)
            == 0,
        forall|a: u32| #![auto] ((a | 0x2u32) & 0x100_0000) == (a & 0x100_0000),
        forall|a: u32| #![auto] (a & !0xFFFF_FFFFu32) == 0,
        0x2u32 & 0x2 == 0x2,
        0x100u32 & 0x100 == 0x100,
        0x1u32 & 0x1 == 0x1,
        0x1u32 & 0x1 != 0,
        forall|s: u32| #![auto] (s & !(0xFFFF_FFFFu32 & 0xFFFF_FFFF)) == 0,
        (0u32 | 0x1) & 0x1 == 0x1,
        0u32 & 0x1 == 0,
        forall|v: u32| #![auto] (((v & !0x30000u32 & !0x3) | 0x2) & 0x30000) == 0,
        forall|x: u32| #![auto] (((x & !0x3u32) | (0x2u32 & 0x3)) & 0x2) == 0x2,
        0x2u32 & 0x3 == 0x2,
        forall|a: u32| #![auto] (((a & !0x1u32) | (0x1u32 & 0x1)) & 0x1) != 0,
        forall|a: u32| #![auto] ((a & !(0x100_0000u32 | 0x200_0000 | 0x400_0000)) & !(
        0x100_0000u32 | 0x200_0000 | 0x400_0000)) == (a & !(0x100_0000u32 | 0x200_0000
            | 0x400_0000)),
        forall|a: u32, mk: u32| #![auto] ((a & !mk) & mk) == 0,
        forall|v: u32| #![auto] (((v & !0x30000u32 & !0x3) | 0x2) & 0x3) == 0x2,
        0xC00u32 & 0xE00 == 0xC00,
        0x100u32 & 0x100 == 0x100,
        ((((0x3000u32 | 0x300) | 0x18) | 0x4) | 0x1) & 0x2 == 0,
        forall|a: u32, mk: u32| mk & 0x2 == 0 ==> (#[trigger] ((a & !0x2u32) & mk)) == (a & mk),
        forall|a: u32, pv: u32| #![auto] (((a & !0x100u32) | (pv & 0x100)) & 0xE00) == (a
            & 0xE00),
        forall|a: u32| #![auto] ((a & !(0x100_0000u32 | 0x200_0000 | 0x400_0000)) & 0x1) == (a
            & 0x1),
        forall|a: u32| #![auto] ((a & !(0x100_0000u32 | 0x200_0000 | 0x400_0000)) & 0xFFC0) == (a
            & 0xFFC0),
        forall|a: u32| #![auto] ((a & !(0x100_0000u32 | 0x200_0000 | 0x400_0000)) & 0x4) == (a
            & 0x4),
        forall|a: u32| #![auto] ((a & !(0x100_0000u32 | 0x200_0000 | 0x400_0000)) & 0xE00) == (a
            & 0xE00),
        forall|a: u32| #![auto] ((a & !(0x100_0000u32 | 0x200_0000 | 0x400_0000)) & 0x100) == (a
            & 0x100),
        forall|x: u32| #![auto] ((((x | 0x2u32) & !0x4) | (0x4u32 & 0x4)) & 0xFFC0) == (x
            & 0xFFC0),
        forall|x: u32| #![auto] ((((x | 0x2u32) & !0x4) | (0x4u32 & 0x4)) & 0x4) == 0x4,
{
}

/// The divider field lands exactly and reads back.
proof fn lemma_clkd(y: u32, c: u32)
    by (bit_vector)
    requires
        c <= 1023,
    ensures
        (((y & !0xFFC0u32) | (c << 6u32)) & 0xFFC0) == (c << 6u32),
        ((c << 6u32) & 0xFFC0) >> 6u32 == c,
        (c << 6u32) >> 6u32 == c,
{
}

/// Pad configuration for the six MMC0 lines, pull-up and receiver active.
pub fn mux_pins(m: &mut Machine)
    requires
        m_wf(old(m)@),
    ensures
        m_wf(final(m)@),
        hs_frame(old(m)@, final(m)@),
        reg_val(final(m)@.bank, (CONTROL_MODULE_BASE + CONTROL_CONF_MMC0_DAT3) as u32) == (
        CONF_MMC0_PUTYPESEL | CONF_MMC0_RXACTIVE),
        reg_val(final(m)@.bank, (CONTROL_MODULE_BASE + CONTROL_CONF_MMC0_DAT2) as u32) == (
        CONF_MMC0_PUTYPESEL | CONF_MMC0_RXACTIVE),
        reg_val(final(m)@.bank, (CONTROL_MODULE_BASE + CONTROL_CONF_MMC0_DAT1) as u32) == (
        CONF_MMC0_PUTYPESEL | CONF_MMC0_RXACTIVE),
        reg_val(final(m)@.bank, (CONTROL_MODULE_BASE + CONTROL_CONF_MMC0_DAT0) as u32) == (
        CONF_MMC0_PUTYPESEL | CONF_MMC0_RXACTIVE),
        reg_val(final(m)@.bank, (CONTROL_MODULE_BASE + CONTROL_CONF_MMC0_CLK) as u32) == (
        CONF_MMC0_PUTYPESEL | CONF_MMC0_RXACTIVE),
        reg_val(final(m)@.bank, (CONTROL_MODULE_BASE + CONTROL_CONF_MMC0_CMD) as u32) == (
        CONF_MMC0_PUTYPESEL | CONF_MMC0_RXACTIVE),
{
    let conf = CONF_MMC0_PUTYPESEL | CONF_MMC0_RXACTIVE;
    m.write32(CONTROL_MODULE_BASE, CONTROL_CONF_MMC0_DAT3, conf);
    m.write32(CONTROL_MODULE_BASE, CONTROL_CONF_MMC0_DAT2, conf);
    m.write32(CONTROL_MODULE_BASE, CONTROL_CONF_MMC0_DAT1, conf);
    m.write32(CONTROL_MODULE_BASE, CONTROL_CONF_MMC0_DAT0, conf);
    m.write32(CONTROL_MODULE_BASE, CONTROL_CONF_MMC0_CLK, conf);
    m.write32(CONTROL_MODULE_BASE, CONTROL_CONF_MMC0_CMD, conf);
}

/// Enables the MMC0 module clock and waits for the functional idle state.
pub fn enable_module_clock(m: &mut Machine)
    requires
        m_wf(old(m)@),
    ensures
        m_wf(final(m)@),
        hs_frame(old(m)@, final(m)@),
        reg_val(final(m)@.bank, (CM_PER_BASE + CM_PER_MMC0_CLKCTRL) as u32) & CLKCTRL_MODULEMODE
            == CLKCTRL_MODULEMODE_ENABLE,
{
    proof {
        lemma_hs_bits();
    }
    m.write_masked(CM_PER_BASE, CM_PER_MMC0_CLKCTRL, CLKCTRL_MODULEMODE,
        CLKCTRL_MODULEMODE_ENABLE);
    m.wait_masked_eq(CM_PER_BASE, CM_PER_MMC0_CLKCTRL, CLKCTRL_IDLEST, 0x0);
}

/// Controller soft reset, waiting for the done status.
pub fn controller_soft_reset(m: &mut Machine)
    requires
        m_wf(old(m)@),
    ensures
        m_wf(final(m)@),
        hs_frame(old(m)@, final(m)@),
        reg_val(final(m)@.bank, (MMC0_BASE_BBB + MMC_SYSSTATUS) as u32) & MMC_SYSSTATUS_RESETDONE
            == MMC_SYSSTATUS_RESETDONE,
        reg_val(final(m)@.bank, (MMC0_BASE_BBB + MMC_SYSCONFIG) as u32) & MMC_SYSCONFIG_SOFTRESET
            == 0,
        forall|a: u32|
            a != ((MMC0_BASE_BBB + MMC_SYSCONFIG) as u32) && a != ((MMC0_BASE_BBB + MMC_SYSSTATUS)
                as u32) ==> #[trigger] reg_val(final(m)@.bank, a) == reg_val(old(m)@.bank, a),
{
    proof {
        lemma_hs_bits();
    }
    m.write_masked(MMC0_BASE_BBB, MMC_SYSCONFIG, MMC_SYSCONFIG_SOFTRESET,
        MMC_SYSCONFIG_SOFTRESET);
    m.wait_masked_eq(MMC0_BASE_BBB, MMC_SYSSTATUS, MMC_SYSSTATUS_RESETDONE,
        MMC_SYSSTATUS_RESETDONE);
}

/// Resets the command and data lines and waits for the self-clearing bit
/// to drop.
pub fn lines_reset(m: &mut Machine, flag: u32)
    requires
        m_wf(old(m)@),
        flag == HS_MMCSD_ALL_RESET,
    ensures
        m_wf(final(m)@),
        hs_frame(old(m)@, final(m)@),
        reg_val(final(m)@.bank, (MMC0_BASE_BBB + MMC_SYSCTL) as u32) & HS_MMCSD_ALL_RESET == 0,
        forall|a: u32|
            a != ((MMC0_BASE_BBB + MMC_SYSCTL) as u32) ==> #[trigger] reg_val(final(m)@.bank, a)
                == reg_val(old(m)@.bank, a),
{
    proof {
        lemma_hs_bits();
        assert(forall|a: u32| #![auto] ((a & !(0x100_0000u32 | 0x200_0000 | 0x400_0000))
            & 0x100_0000) == ((a & 0x100_0000) & !(0x100_0000u32 | 0x200_0000 | 0x400_0000)))
            by (bit_vector);
    }
    m.write_masked(MMC0_BASE_BBB, MMC_SYSCTL, flag, flag);
    // The first observation shows the reset in progress and retires it.
    let v1 = m.read32(MMC0_BASE_BBB, MMC_SYSCTL);
    let mut v = m.read32(MMC0_BASE_BBB, MMC_SYSCTL);
    proof {
        assert(v & flag != flag) by (bit_vector)
            requires
                v & 0x100_0000 == 0,
                flag == 0x100_0000u32,
        ;
    }
    let ghost msnap = m@;
    while v & flag == flag
        invariant
            v & flag != flag,
            m@ == msnap,
        decreases 0int,
    {
        v = m.read32(MMC0_BASE_BBB, MMC_SYSCTL);
    }
}

/// Declares the supported bus voltages in the capability register.
pub fn set_supported_voltage(m: &mut Machine, voltage: u32)
    requires
        m_wf(old(m)@),
    ensures
        m_wf(final(m)@),
        hs_frame(old(m)@, final(m)@),
        reg_val(final(m)@.bank, (MMC0_BASE_BBB + MMC_CAPA) as u32) & (MMC_CAPA_VS18 | MMC_CAPA_VS30
            | MMC_CAPA_VS33) == voltage & (MMC_CAPA_VS18 | MMC_CAPA_VS30 | MMC_CAPA_VS33),
        forall|a: u32|
            a != ((MMC0_BASE_BBB + MMC_CAPA) as u32) ==> #[trigger] reg_val(final(m)@.bank, a)
                == reg_val(old(m)@.bank, a),
{
    proof {
        lemma_hs_bits();
    }
    m.write_masked(MMC0_BASE_BBB, MMC_CAPA, MMC_CAPA_VS18 | MMC_CAPA_VS30 | MMC_CAPA_VS33,
        voltage);
}

/// Selects the 3.0 V bus voltage.
pub fn set_sd_bus_voltage(m: &mut Machine)
    requires
        m_wf(old(m)@),
    ensures
        m_wf(final(m)@),
        hs_frame(old(m)@, final(m)@),
        reg_val(final(m)@.bank, (MMC0_BASE_BBB + MMC_HCTL) as u32) & MMCHS_HCTL_SDVS
            == HS_MMCSD_BUS_VOLT_3P0,
        forall|a: u32|
            a != ((MMC0_BASE_BBB + MMC_HCTL) as u32) ==> #[trigger] reg_val(final(m)@.bank, a)
                == reg_val(old(m)@.bank, a),
{
    proof {
        lemma_hs_bits();
    }
    m.write_masked(MMC0_BASE_BBB, MMC_HCTL, MMCHS_HCTL_SDVS, HS_MMCSD_BUS_VOLT_3P0);
}

/// Switches the bus power and, when turning it on, waits with a bounded
/// retry for the power bit to read back.
pub fn set_sd_bus_power(m: &mut Machine, power: u32) -> (r: Result<(), MMCError>)
    requires
        m_wf(old(m)@),
        power == HS_MMCSD_BUS_POWER_ON,
    ensures
        m_wf(final(m)@),
        hs_frame(old(m)@, final(m)@),
        r is Ok,
        reg_val(final(m)@.bank, (MMC0_BASE_BBB + MMC_HCTL) as u32) & MMCHS_HCTL_SDBP
            == HS_MMCSD_BUS_POWER_ON,
        reg_val(final(m)@.bank, (MMC0_BASE_BBB + MMC_HCTL) as u32) & MMCHS_HCTL_SDVS == reg_val(
            old(m)@.bank,
            (MMC0_BASE_BBB + MMC_HCTL) as u32,
        ) & MMCHS_HCTL_SDVS,
        forall|a: u32|
            a != ((MMC0_BASE_BBB + MMC_HCTL) as u32) ==> #[trigger] reg_val(final(m)@.bank, a)
                == reg_val(old(m)@.bank, a),
{
    proof {
        lemma_hs_bits();
        assert(0x100u32 & 0x100 == 0x100) by (bit_vector);
    }
    m.write_masked(MMC0_BASE_BBB, MMC_HCTL, MMCHS_HCTL_SDBP, power);
    let mut timeout: u32 = 0xFFFFF;
    loop
        invariant
            m_wf(m@),
            hs_frame(old(m)@, m@),
            reg_val(m@.bank, (MMC0_BASE_BBB + MMC_HCTL) as u32) & MMCHS_HCTL_SDBP
                == HS_MMCSD_BUS_POWER_ON,
            reg_val(m@.bank, (MMC0_BASE_BBB + MMC_HCTL) as u32) & MMCHS_HCTL_SDVS == reg_val(
                old(m)@.bank,
                (MMC0_BASE_BBB + MMC_HCTL) as u32,
            ) & MMCHS_HCTL_SDVS,
            forall|a: u32|
                a != ((MMC0_BASE_BBB + MMC_HCTL) as u32) ==> #[trigger] reg_val(m@.bank, a)
                    == reg_val(old(m)@.bank, a),
        decreases timeout,
    {
        let v = m.read_masked(MMC0_BASE_BBB, MMC_HCTL, MMCHS_HCTL_SDBP);
        if v == HS_MMCSD_BUS_POWER_ON {
            return Ok(());
        }
        if timeout == 0 {
            return Err(MMCError::Timeout);
        }
        timeout = timeout - 1;
    }
}

/// True once the internal clock reports stable, within the retry bound.
pub fn is_internal_clock_stable(m: &mut Machine, retry: u32) -> (r: bool)
    requires
        m_wf(old(m)@),
        retry >= 1,
    ensures
        m_wf(final(m)@),
        hs_frame(old(m)@, final(m)@),
        r == true,
        reg_val(final(m)@.bank, (MMC0_BASE_BBB + MMC_SYSCTL) as u32) == reg_val(
            old(m)@.bank,
            (MMC0_BASE_BBB + MMC_SYSCTL) as u32,
        ) & !(MMC_SYSCTL_SRA | MMC_SYSCTL_SRC | MMC_SYSCTL_SRD),
        forall|a: u32|
            a != ((MMC0_BASE_BBB + MMC_SYSCTL) as u32) ==> #[trigger] reg_val(final(m)@.bank, a)
                == reg_val(old(m)@.bank, a),
{
    proof {
        lemma_hs_bits();
        assert(forall|s: u32| #![auto] ((s | 0x2) & 0x2) == 0x2) by (bit_vector);
    }
    let v = m.read_masked(MMC0_BASE_BBB, MMC_SYSCTL, MMC_SYSCTL_ICS);
    if v == MMC_SYSCTL_ICS {
        true
    } else {
        proof {
            // The enabled internal clock always reads back stable.
            assert(false);
        }
        false
    }
}

/// Waits for the command-complete status and retires it.
pub fn is_cmd_complete(m: &mut Machine, retry: u32) -> (r: bool)
    requires
        m_wf(old(m)@),
        retry >= 1,
    ensures
        m_wf(final(m)@),
        r == (old(m)@.sd.stat & MMCHS_STAT_CC == MMCHS_STAT_CC),
        final(m)@.dram == old(m)@.dram,
        final(m)@.tables == old(m)@.tables,
        final(m)@.console == old(m)@.console,
        final(m)@.uart_rx == old(m)@.uart_rx,
        final(m)@.i2c == old(m)@.i2c,
        final(m)@.pmic == old(m)@.pmic,
        final(m)@.eeprom == old(m)@.eeprom,
        final(m)@.cpu == old(m)@.cpu,
        final(m)@.layout == old(m)@.layout,
        final(m)@.faults == old(m)@.faults,
        final(m)@.sd.disk == old(m)@.sd.disk,
        final(m)@.sd.rint == old(m)@.sd.rint,
        final(m)@.sd.resp0 == old(m)@.sd.resp0,
        final(m)@.sd.fifo == old(m)@.sd.fifo,
        final(m)@.sd.rsp10 == old(m)@.sd.rsp10,
        final(m)@.bank == old(m)@.bank,
    {
    proof {
        lemma_hs_bits();
    }
    let v = m.read_masked(MMC0_BASE_BBB, MMC_STAT, MMCHS_STAT_CC);
    if v == MMCHS_STAT_CC {
        m.write_masked(MMC0_BASE_BBB, MMC_STAT, MMCHS_STAT_CC, MMCHS_STAT_CC);
        true
    } else {
        let mut fuel = retry;
        loop
            invariant
                m_wf(m@),
                m@ == old(m)@,
                old(m)@.sd.stat & MMCHS_STAT_CC != MMCHS_STAT_CC,
            decreases fuel,
        {
            let w = m.read_masked(MMC0_BASE_BBB, MMC_STAT, MMCHS_STAT_CC);
            if w == MMCHS_STAT_CC {
                proof {
                    assert(false);
                }
            }
            if fuel == 0 {
                break ;
            }
            fuel = fuel - 1;
        }
        false
    }
}

/// Turns the internal clock on and confirms it is stable.
pub fn internal_clock(m: &mut Machine, power: u32) -> (r: Result<(), MMCError>)
    requires
        m_wf(old(m)@),
        power == HS_MMCSD_INTCLOCK_ON,
    ensures
        m_wf(final(m)@),
        hs_frame(old(m)@, final(m)@),
        r is Ok,
        reg_val(final(m)@.bank, (MMC0_BASE_BBB + MMC_SYSCTL) as u32) & MMC_SYSCTL_ICE
            == MMC_SYSCTL_ICE,
        forall|a: u32|
            a != ((MMC0_BASE_BBB + MMC_SYSCTL) as u32) ==> #[trigger] reg_val(final(m)@.bank, a)
                == reg_val(old(m)@.bank, a),
{
    proof {
        lemma_hs_bits();
    }
    let v = m.read_masked(MMC0_BASE_BBB, MMC_SYSCTL, !MMC_SYSCTL_ICE);
    let nv = v | power;
    proof {
        assert(nv & MMC_SYSCTL_ICE == MMC_SYSCTL_ICE) by (bit_vector)
            requires
                nv == v | power,
                power == 0x1u32,
        ;
    }
    m.write32(MMC0_BASE_BBB, MMC_SYSCTL, nv);
    if !is_internal_clock_stable(m, 0xFFFFF) {
        return Err(MMCError::Timeout);
    }
    Ok(())
}

/// Writes the idle-mode configuration fields.
pub fn system_config(m: &mut Machine, config: u32)
    requires
        m_wf(old(m)@),
    ensures
        m_wf(final(m)@),
        hs_frame(old(m)@, final(m)@),
        reg_val(final(m)@.bank, (MMC0_BASE_BBB + MMC_SYSCONFIG) as u32) & (
        MMC_SYSCONFIG_STANDBYMODE | MMC_SYSCONFIG_CLOCKACTIVITY | MMC_SYSCONFIG_SIDLEMODE
            | MMC_SYSCONFIG_ENAWAKEUP | MMC_SYSCONFIG_AUTOIDLE) == config & (
        MMC_SYSCONFIG_STANDBYMODE | MMC_SYSCONFIG_CLOCKACTIVITY | MMC_SYSCONFIG_SIDLEMODE
            | MMC_SYSCONFIG_ENAWAKEUP | MMC_SYSCONFIG_AUTOIDLE),
        forall|a: u32|
            a != ((MMC0_BASE_BBB + MMC_SYSCONFIG) as u32) && a != ((MMC0_BASE_BBB + MMC_SYSSTATUS)
                as u32) ==> #[trigger] reg_val(final(m)@.bank, a) == reg_val(old(m)@.bank, a),
{
    proof {
        lemma_hs_bits();
    }
    m.write_masked(
        MMC0_BASE_BBB,
        MMC_SYSCONFIG,
        MMC_SYSCONFIG_STANDBYMODE | MMC_SYSCONFIG_CLOCKACTIVITY | MMC_SYSCONFIG_SIDLEMODE
            | MMC_SYSCONFIG_ENAWAKEUP | MMC_SYSCONFIG_AUTOIDLE,
        config,
    );
}

/// Selects the one-bit bus width.
pub fn set_bus_width(m: &mut Machine)
    requires
        m_wf(old(m)@),
    ensures
        m_wf(final(m)@),
        hs_frame(old(m)@, final(m)@),
        reg_val(final(m)@.bank, (MMC0_BASE_BBB + MMC_CON) as u32) == reg_val(
            old(m)@.bank,
            (MMC0_BASE_BBB + MMC_CON) as u32,
        ) & !0x20,
        reg_val(final(m)@.bank, (MMC0_BASE_BBB + MMC_HCTL) as u32) == reg_val(
            old(m)@.bank,
            (MMC0_BASE_BBB + MMC_HCTL) as u32,
        ) & !0x2,
        forall|a: u32|
            a != ((MMC0_BASE_BBB + MMC_CON) as u32) && a != ((MMC0_BASE_BBB + MMC_HCTL) as u32)
                ==> #[trigger] reg_val(final(m)@.bank, a) == reg_val(old(m)@.bank, a),
{
    m.clear_bits(MMC0_BASE_BBB, MMC_CON, 0x20);
    m.clear_bits(MMC0_BASE_BBB, MMC_HCTL, 0x2);
}

/// Programs the bus clock divider for the target frequency and enables
/// the clock.
#[verifier::rlimit(100)]
pub fn set_bus_freq(m: &mut Machine, freq_in: u32, freq_out: u32, bypass: u32) -> (r: Result<
    (),
    MMCError,
>)
    requires
        m_wf(old(m)@),
        freq_out >= 1,
        freq_in <= 1023 * freq_out,
        bypass == 0,
    ensures
        m_wf(final(m)@),
        hs_frame(old(m)@, final(m)@),
        r is Ok,
        reg_val(final(m)@.bank, (MMC0_BASE_BBB + MMC_SYSCTL) as u32) & MMC_SYSCTL_CEN
            == MMC_SYSCTL_CEN,
        2 <= (reg_val(final(m)@.bank, (MMC0_BASE_BBB + MMC_SYSCTL) as u32) & MMC_SYSCTL_CLKD)
            >> MMC_SYSCTL_CLKD_SHIFT <= 1023,
        freq_in / ((reg_val(final(m)@.bank, (MMC0_BASE_BBB + MMC_SYSCTL) as u32)
            & MMC_SYSCTL_CLKD) >> MMC_SYSCTL_CLKD_SHIFT) <= freq_out,
        forall|a: u32|
            a != ((MMC0_BASE_BBB + MMC_SYSCTL) as u32) ==> #[trigger] reg_val(final(m)@.bank, a)
                == reg_val(old(m)@.bank, a),
{
    proof {
        lemma_hs_bits();
    }
    let ic = internal_clock(m, HS_MMCSD_INTCLOCK_ON);
    if ic.is_err() {
        return Err(MMCError::Timeout);
    }
    let ghost g1 = m@;
    let mut clkd = freq_in / freq_out;
    if clkd < 2 {
        clkd = 2;
    }
    if clkd > 1023 {
        clkd = 1023;
    }
    while freq_in / clkd > freq_out
        invariant
            m_wf(m@),
            2 <= clkd <= 1023,
            freq_out >= 1,
            freq_in <= 1023 * freq_out,
        decreases 1023 - clkd,
    {
        if clkd == 1023 {
            proof {
                assert(freq_in / 1023 <= freq_out) by (nonlinear_arith)
                    requires
                        freq_in <= 1023 * freq_out,
                        freq_out >= 1,
                ;
                assert(false);
            }
            return Err(MMCError::Timeout);
        }
        clkd = clkd + 1;
    }
    let v = m.read_masked(MMC0_BASE_BBB, MMC_SYSCTL, !MMC_SYSCTL_CLKD);
    proof {
        lemma_clkd(v, clkd);
        assert(clkd << 6u32 <= 0xFFC0) by (bit_vector)
            requires
                clkd <= 1023,
        ;
    }
    m.write32(MMC0_BASE_BBB, MMC_SYSCTL, v | (clkd << MMC_SYSCTL_CLKD_SHIFT));
    if !is_internal_clock_stable(m, 0xFFFFF) {
        return Err(MMCError::Timeout);
    }
    let ghost g2 = m@;
    m.write_masked(MMC0_BASE_BBB, MMC_SYSCTL, MMC_SYSCTL_CEN, MMC_SYSCTL_CEN);
    proof {
        assert forall|a: u32|
            a != ((MMC0_BASE_BBB + MMC_SYSCTL) as u32) implies reg_val(m@.bank, a) == reg_val(
            old(m)@.bank,
            a,
        ) by {
            assert(reg_val(g1.bank, a) == reg_val(old(m)@.bank, a));
            assert(reg_val(g2.bank, a) == reg_val(g1.bank, a));
        }
    }
    Ok(())
}

/// Enables the given interrupt-status sources.
pub fn intr_status_enable(m: &mut Machine, flag: u32)
    requires
        m_wf(old(m)@),
    ensures
        m_wf(final(m)@),
        hs_frame(old(m)@, final(m)@),
        reg_val(final(m)@.bank, (MMC0_BASE_BBB + MMC_IE) as u32) == flag,
        forall|a: u32|
            a != ((MMC0_BASE_BBB + MMC_IE) as u32) ==> #[trigger] reg_val(final(m)@.bank, a)
                == reg_val(old(m)@.bank, a),
{
    m.write32(MMC0_BASE_BBB, MMC_IE, flag);
}

/// Acknowledges the given interrupt-status sources.
pub fn intr_status_clear(m: &mut Machine, flag: u32)
    requires
        m_wf(old(m)@),
    ensures
        m_wf(final(m)@),
        final(m)@.dram == old(m)@.dram,
        final(m)@.tables == old(m)@.tables,
        final(m)@.console == old(m)@.console,
        final(m)@.cpu == old(m)@.cpu,
        final(m)@.pmic == old(m)@.pmic,
        final(m)@.layout == old(m)@.layout,
        final(m)@.faults == old(m)@.faults,
        final(m)@.sd.disk == old(m)@.sd.disk,
        final(m)@.sd.rint == old(m)@.sd.rint,
        crate::uart::uart_untouched(old(m)@, final(m)@),
        final(m)@.sd.stat == old(m)@.sd.stat & !flag,
        final(m)@.bank == old(m)@.bank,
{
    m.write32(MMC0_BASE_BBB, MMC_STAT, flag);
}

/// Sends the 80-clock initialization stream with command zero.
pub fn send_init_strean(m: &mut Machine) -> (r: Result<(), MMCError>)
    requires
        m_wf(old(m)@),
    ensures
        m_wf(final(m)@),
        final(m)@.dram == old(m)@.dram,
        final(m)@.tables == old(m)@.tables,
        final(m)@.console == old(m)@.console,
        final(m)@.cpu == old(m)@.cpu,
        final(m)@.pmic == old(m)@.pmic,
        final(m)@.layout == old(m)@.layout,
        final(m)@.faults == old(m)@.faults,
        final(m)@.sd.disk == old(m)@.sd.disk,
        final(m)@.sd.rint == old(m)@.sd.rint,
        crate::uart::uart_untouched(old(m)@, final(m)@),
        r is Ok,
        final(m)@.sd.stat == 0,
        reg_val(final(m)@.bank, (MMC0_BASE_BBB + MMC_CON) as u32) & MMCHS_CON_INIT == 0,
        forall|a: u32|
            a != ((MMC0_BASE_BBB + MMC_IE) as u32) && a != ((MMC0_BASE_BBB + MMC_CON) as u32) && a
                != ((MMC0_BASE_BBB + MMC_CMD) as u32) ==> #[trigger] reg_val(final(m)@.bank, a)
                == reg_val(old(m)@.bank, a),
{
    proof {
        lemma_hs_bits();
    }
    intr_status_enable(m, HS_MMCSD_SIGEN_CMDCOMP);
    let ghost g1 = m@;
    m.write_masked(MMC0_BASE_BBB, MMC_CON, MMCHS_CON_INIT, MMCHS_CON_INIT);
    m.write32(MMC0_BASE_BBB, MMC_CMD, 0x0);
    // The card needs about a millisecond of clocking here.
    let ghost msn = m@;
    let mut i: u32 = 0;
    while i < 1000
        invariant
            m_wf(m@),
            m@ == msn,
        decreases 1000 - i,
    {
        crate::cpu::nop(m);
        i = i + 1;
    }
    m.write_masked(MMC0_BASE_BBB, MMC_STAT, 0x1, 0x1);
    m.clear_bits(MMC0_BASE_BBB, MMC_CON, MMCHS_CON_INIT);
    intr_status_clear(m, 0xFFFF_FFFF);
    proof {
        assert forall|a: u32|
            a != ((MMC0_BASE_BBB + MMC_IE) as u32) && a != ((MMC0_BASE_BBB + MMC_CON) as u32) && a
                != ((MMC0_BASE_BBB + MMC_CMD) as u32) implies reg_val(m@.bank, a) == reg_val(
            old(m)@.bank,
            a,
        ) by {
            assert(reg_val(g1.bank, a) == reg_val(old(m)@.bank, a));
        }
    }
    Ok(())
}

/// Issues one command and returns the short response.
pub fn send_cmd(m: &mut Machine, cmd: u32, arg: u32) -> (r: Result<u32, MMCError>)
    requires
        m_wf(old(m)@),
        cmd <= 55,
    ensures
        m_wf(final(m)@),
        final(m)@.dram == old(m)@.dram,
        final(m)@.tables == old(m)@.tables,
        final(m)@.console == old(m)@.console,
        final(m)@.cpu == old(m)@.cpu,
        final(m)@.pmic == old(m)@.pmic,
        final(m)@.layout == old(m)@.layout,
        final(m)@.faults == old(m)@.faults,
        final(m)@.sd.disk == old(m)@.sd.disk,
        crate::uart::uart_untouched(old(m)@, final(m)@),
        final(m)@.sd.rint == old(m)@.sd.rint,
        r is Ok <==> !old(m)@.faults.sd_no_response,
        r matches Ok(v) ==> v == sd_resp(old(m)@, cmd, arg),
        r is Err ==> r == Err::<u32, MMCError>(MMCError::Timeout),
{
    proof {
        lemma_hs_bits();
        assert(forall|c: u32| c <= 55 ==> ((c << 24u32) | 0u32) >> 24 == c && ((c << 24u32)
            | 0x2_0000) >> 24 == c && ((c << 24u32) | 0x3_0000) >> 24 == c) by (bit_vector);
        assert(forall|c: u32| c <= 55 ==> (c << 24u32) <= u32::MAX) by (bit_vector);
    }
    let cmdr: u32 = if cmd == 0 {
        SD_CMDR_NO_RESPONSE
    } else if cmd == 8 {
        SD_CMDR_SHORT_RESPONSE_BUSY
    } else {
        SD_CMDR_SHORT_RESPONSE
    };

    // Make sure the status is clear, then load the command.
    m.write32(MMC0_BASE_BBB, MMC_STAT, 0xFFFF_FFFF);
    m.write32(MMC0_BASE_BBB, MMC_ARG, arg);
    m.write32(MMC0_BASE_BBB, MMC_CMD, (cmd << 24) | cmdr);

    if !is_cmd_complete(m, 0xFFFFF) {
        return Err(MMCError::Timeout);
    }
    let resp = m.read32(MMC0_BASE_BBB, MMC_RSP10);
    Ok(resp)
}

/// Controller bring-up: reset, voltages, idle configuration, bus width,
/// bus power, the identification-speed clock and the init stream.
pub fn controller_init(m: &mut Machine) -> (r: Result<(), MMCError>)
    requires
        m_wf(old(m)@),
    ensures
        m_wf(final(m)@),
        final(m)@.dram == old(m)@.dram,
        final(m)@.tables == old(m)@.tables,
        final(m)@.console == old(m)@.console,
        final(m)@.cpu == old(m)@.cpu,
        final(m)@.pmic == old(m)@.pmic,
        final(m)@.layout == old(m)@.layout,
        final(m)@.faults == old(m)@.faults,
        final(m)@.sd.disk == old(m)@.sd.disk,
        final(m)@.sd.rint == old(m)@.sd.rint,
        crate::uart::uart_untouched(old(m)@, final(m)@),
        r is Ok,
        reg_val(final(m)@.bank, (MMC0_BASE_BBB + MMC_CAPA) as u32) & (MMC_CAPA_VS18 | MMC_CAPA_VS30
            | MMC_CAPA_VS33) == (HS_MMCSD_SUPPORT_VOLT_1P8 | HS_MMCSD_SUPPORT_VOLT_3P0) & (
        MMC_CAPA_VS18 | MMC_CAPA_VS30 | MMC_CAPA_VS33),
        reg_val(final(m)@.bank, (MMC0_BASE_BBB + MMC_SYSCONFIG) as u32) & (
        MMC_SYSCONFIG_STANDBYMODE | MMC_SYSCONFIG_CLOCKACTIVITY | MMC_SYSCONFIG_SIDLEMODE
            | MMC_SYSCONFIG_ENAWAKEUP | MMC_SYSCONFIG_AUTOIDLE) == HS_MMCSD_AUTOIDLE_ENABLE & (
        MMC_SYSCONFIG_STANDBYMODE | MMC_SYSCONFIG_CLOCKACTIVITY | MMC_SYSCONFIG_SIDLEMODE
            | MMC_SYSCONFIG_ENAWAKEUP | MMC_SYSCONFIG_AUTOIDLE),
        reg_val(final(m)@.bank, (MMC0_BASE_BBB + MMC_HCTL) as u32) & MMCHS_HCTL_SDVS
            == HS_MMCSD_BUS_VOLT_3P0,
        reg_val(final(m)@.bank, (MMC0_BASE_BBB + MMC_HCTL) as u32) & MMCHS_HCTL_SDBP
            == HS_MMCSD_BUS_POWER_ON,
        reg_val(final(m)@.bank, (MMC0_BASE_BBB + MMC_SYSCTL) as u32) & MMC_SYSCTL_CEN
            == MMC_SYSCTL_CEN,
        MMCSD_IN_FREQ / ((reg_val(final(m)@.bank, (MMC0_BASE_BBB + MMC_SYSCTL) as u32)
            & MMC_SYSCTL_CLKD) >> MMC_SYSCTL_CLKD_SHIFT) <= MMCSD_INIT_FREQ,
        reg_val(final(m)@.bank, (MMC0_BASE_BBB + MMC_CON) as u32) & MMCHS_CON_INIT == 0,
        final(m)@.sd.stat == 0,
{
    controller_soft_reset(m);
    let ghost g1 = m@;
    lines_reset(m, HS_MMCSD_ALL_RESET);
    let ghost g2 = m@;
    set_supported_voltage(m, HS_MMCSD_SUPPORT_VOLT_1P8 | HS_MMCSD_SUPPORT_VOLT_3P0);
    let ghost g3 = m@;
    system_config(m, HS_MMCSD_AUTOIDLE_ENABLE);
    let ghost g4 = m@;
    set_bus_width(m);
    let ghost g5 = m@;
    set_sd_bus_voltage(m);
    let ghost g6 = m@;
    let bp = set_sd_bus_power(m, HS_MMCSD_BUS_POWER_ON);
    if bp.is_err() {
        return Err(MMCError::Timeout);
    }
    let ghost g7 = m@;
    proof {
        assert(MMCSD_IN_FREQ <= 1023 * MMCSD_INIT_FREQ) by (nonlinear_arith);
    }
    let bf = set_bus_freq(m, MMCSD_IN_FREQ, MMCSD_INIT_FREQ, 0);
    if bf.is_err() {
        return Err(MMCError::Timeout);
    }
    let ghost g8 = m@;
    let st = send_init_strean(m);
    if st.is_err() {
        return Err(MMCError::Timeout);
    }
    proof {
        let capa = (MMC0_BASE_BBB + MMC_CAPA) as u32;
        let sysc = (MMC0_BASE_BBB + MMC_SYSCONFIG) as u32;
        let hctl = (MMC0_BASE_BBB + MMC_HCTL) as u32;
        let sctl = (MMC0_BASE_BBB + MMC_SYSCTL) as u32;
        assert(reg_val(g4.bank, capa) == reg_val(g3.bank, capa));
        assert(reg_val(g5.bank, capa) == reg_val(g4.bank, capa));
        assert(reg_val(g6.bank, capa) == reg_val(g5.bank, capa));
        assert(reg_val(g7.bank, capa) == reg_val(g6.bank, capa));
        assert(reg_val(g8.bank, capa) == reg_val(g7.bank, capa));
        assert(reg_val(m@.bank, capa) == reg_val(g8.bank, capa));
        assert(reg_val(g5.bank, sysc) == reg_val(g4.bank, sysc));
        assert(reg_val(g6.bank, sysc) == reg_val(g5.bank, sysc));
        assert(reg_val(g7.bank, sysc) == reg_val(g6.bank, sysc));
        assert(reg_val(g8.bank, sysc) == reg_val(g7.bank, sysc));
        assert(reg_val(m@.bank, sysc) == reg_val(g8.bank, sysc));
        assert(reg_val(g8.bank, hctl) == reg_val(g7.bank, hctl));
        assert(reg_val(m@.bank, hctl) == reg_val(g8.bank, hctl));
        assert(reg_val(m@.bank, sctl) == reg_val(g8.bank, sctl));
    }
    Ok(())
}

/// Card bring-up on the highspeed board: pads, module clock, controller,
/// the command-line reset dance and the interface-condition check.
pub fn init(m: &mut Machine) -> (r: Result<(), MMCError>)
    requires
        m_wf(old(m)@),
        old(m)@.sd.rint & crate::regs::SD_RISR_NO_RESPONSE == 0,
    ensures
        m_wf(final(m)@),
        final(m)@.dram == old(m)@.dram,
        final(m)@.tables == old(m)@.tables,
        final(m)@.console == old(m)@.console,
        final(m)@.cpu == old(m)@.cpu,
        final(m)@.pmic == old(m)@.pmic,
        final(m)@.layout == old(m)@.layout,
        final(m)@.faults == old(m)@.faults,
        final(m)@.sd.disk == old(m)@.sd.disk,
        crate::uart::uart_untouched(old(m)@, final(m)@),
        r is Ok <==> !old(m)@.faults.sd_no_response && sd_resp(old(m)@, 8, 0x1AA) & 0xFF == 0xAA
            && sd_resp(old(m)@, 8, 0x1AA) >> 8 == 0x1,
        r is Ok ==> final(m)@.sd.rint & crate::regs::SD_RISR_NO_RESPONSE == 0,
        r == Err::<(), MMCError>(MMCError::NoResponse) <==> old(m)@.faults.sd_no_response,
        r == Err::<(), MMCError>(MMCError::BadCMD8Response) <==> !old(m)@.faults.sd_no_response
            && !(sd_resp(old(m)@, 8, 0x1AA) & 0xFF == 0xAA && sd_resp(old(m)@, 8, 0x1AA) >> 8
            == 0x1),
{
    proof {
        lemma_hs_bits();
        assert(forall|r8: u32| (r8 & 0xFF == 0xAA && r8 >> 8 == 0x1) <==> (r8 & 0xFF == 0xAA && r8
            >> 8 == 0x1)) by (bit_vector);
    }
    mux_pins(m);
    enable_module_clock(m);
    let ci = controller_init(m);
    if ci.is_err() {
        return Err(MMCError::Timeout);
    }
    let r0 = send_cmd(m, 0, 0);
    match r0 {
        Err(_) => {
            return Err(MMCError::NoResponse);
        },
        Ok(_) => {},
    }

    // Command-line reset: the bit raises and then self-clears.
    m.write_masked(MMC0_BASE_BBB, MMC_SYSCTL, 0x200_0000, 0x200_0000);
    proof {
        assert(forall|a: u32| #![auto] (((a & !0x200_0000u32) | (0x200_0000u32 & 0x200_0000))
            & 0x200_0000) != 0) by (bit_vector);
        assert(forall|a: u32| #![auto] ((a & !(0x100_0000u32 | 0x200_0000 | 0x400_0000))
            & 0x200_0000) == 0) by (bit_vector);
        assert(forall|a: u32| #![auto] ((a | 0x2u32) & 0x200_0000) == (a & 0x200_0000))
            by (bit_vector);
    }
    let first = m.read_masked(MMC0_BASE_BBB, MMC_SYSCTL, 0x200_0000);
    let ghost ms1 = m@;
    let mut w = first;
    while w == 0
        invariant
            w != 0,
            m@ == ms1,
        decreases 0int,
    {
        w = m.read_masked(MMC0_BASE_BBB, MMC_SYSCTL, 0x200_0000);
    }
    let mut w2 = m.read_masked(MMC0_BASE_BBB, MMC_SYSCTL, 0x200_0000);
    let ghost ms2 = m@;
    while w2 != 0
        invariant
            w2 == 0,
            m@ == ms2,
        decreases 0int,
    {
        w2 = m.read_masked(MMC0_BASE_BBB, MMC_SYSCTL, 0x200_0000);
    }

    let r8 = send_cmd(m, 8, 0x1AA);
    match r8 {
        Err(_) => Err(MMCError::NoResponse),
        Ok(response) => {
            if response & 0xFF != 0xAA || response >> 8 != 0x1 {
                Err(MMCError::BadCMD8Response)
            } else {
                Ok(())
            }
        },
    }
}

} // verus!
