//! DDR3 DRAM bring-up and the destructive self-test.
//!
//! Bring-up runs in fixed phases: EMIF clocks, VTP calibration, DDR PHY
//! slave ratios, IO-cell configuration and the EMIF timing registers. The
//! self-test then sweeps eight patterns at a 4 KiB stride, each value
//! XOR-ed with its own address, and finishes with a walking-ones pass over
//! the first tested word. A nonzero error count is fatal to the boot.

use vstd::prelude::*;

use crate::cm::get_device_version;
use crate::machine::{in_dram, m_wf, s_read_val, s_write32, Machine, MachineV};
use crate::msgs;
use crate::regs::{CM_PER_BASE, CM_PER_EMIF_CLKCTRL, CM_PER_EMIF_FW_CLKCTRL, CM_PER_L3_CLKSTCTRL,
    CM_PER_L3_CLKSTCTRL_CLKACTIVITY_EMIF_GCLK, CM_PER_L3_CLKSTCTRL_CLKACTIVITY_L3_GCLK,
    CLKCTRL_MODULEMODE, CLKCTRL_MODULEMODE_ENABLE, CMD0_INVERT_CLKOUT_0, CMD0_SLAVE_RATIO_0,
    CMD1_INVERT_CLKOUT_0, CMD1_SLAVE_RATIO_0, CMD2_INVERT_CLKOUT_0, CMD2_SLAVE_RATIO_0,
    CONTROL_DDR_CKE_CTRL, CONTROL_DDR_CKE_CTRL_DDR_CKE_CTRL, CONTROL_DDR_CMD_IOCTRL_0,
    CONTROL_DDR_CMD_IOCTRL_1, CONTROL_DDR_CMD_IOCTRL_2, CONTROL_DDR_DATA_IOCTRL_0,
    CONTROL_DDR_DATA_IOCTRL_1, CONTROL_DDR_IO_CTRL, CONTROL_MODULE_BASE,
    CONTROL_SECURE_EMIF_SDRAM_CONFIG, CONTROL_VTP_CTRL, CONTROL_VTP_CTRL_CLRZ,
    CONTROL_VTP_CTRL_ENABLE, CONTROL_VTP_CTRL_READY, DATA0_FIFO_WE_SLAVE_RATIO_0,
    DATA0_RD_DQS_SLAVE_RATIO_0, DATA0_WR_DATA_SLAVE_RATIO_0, DATA0_WR_DQS_SLAVE_RATIO_0,
    DATA1_FIFO_WE_SLAVE_RATIO_1, DATA1_RD_DQS_SLAVE_RATIO_1, DATA1_WR_DATA_SLAVE_RATIO_1,
    DATA1_WR_DQS_SLAVE_RATIO_1, DDR3_CMD0_INVERT_CLKOUT_0, DDR3_CMD0_SLAVE_RATIO_0,
    DDR3_CMD1_INVERT_CLKOUT_0, DDR3_CMD1_SLAVE_RATIO_0, DDR3_CMD2_INVERT_CLKOUT_0,
    DDR3_CMD2_SLAVE_RATIO_0, DDR3_CONTROL_DDR_CMD_IOCTRL_0, DDR3_CONTROL_DDR_CMD_IOCTRL_1,
    DDR3_CONTROL_DDR_CMD_IOCTRL_2, DDR3_CONTROL_DDR_DATA_IOCTRL_0, DDR3_CONTROL_DDR_DATA_IOCTRL_1,
    DDR3_CONTROL_DDR_IO_CTRL, DDR3_DATA0_FIFO_WE_SLAVE_RATIO_0, DDR3_DATA0_FIFO_WE_SLAVE_RATIO_1,
    DDR3_DATA0_RD_DQS_SLAVE_RATIO_0, DDR3_DATA0_RD_DQS_SLAVE_RATIO_1,
    DDR3_DATA0_WR_DATA_SLAVE_RATIO_0, DDR3_DATA0_WR_DATA_SLAVE_RATIO_1,
    DDR3_DATA0_WR_DQS_SLAVE_RATIO_0, DDR3_DATA0_WR_DQS_SLAVE_RATIO_1, DDR3_EMIF_DDR_PHY_CTRL_1,
    DDR3_EMIF_DDR_PHY_CTRL_1_DY_PWRDN, DDR3_EMIF_DDR_PHY_CTRL_1_SHDW,
    DDR3_EMIF_DDR_PHY_CTRL_1_SHDW_DY_PWRDN, DDR3_EMIF_DDR_PHY_CTRL_2, DDR3_EMIF_SDRAM_CONFIG,
    DDR3_EMIF_SDRAM_REF_CTRL_SHDW_VAL1, DDR3_EMIF_SDRAM_REF_CTRL_VAL1, DDR3_EMIF_SDRAM_TIM_1,
    DDR3_EMIF_SDRAM_TIM_1_SHDW, DDR3_EMIF_SDRAM_TIM_2, DDR3_EMIF_SDRAM_TIM_2_SHDW,
    DDR3_EMIF_SDRAM_TIM_3, DDR3_EMIF_SDRAM_TIM_3_SHDM, DDR3_EMIF_ZQ_CONFIG_VAL,
    DDR_PHY_CTRL_BASE, DEVICE_VERSION_2_0, DEVICE_VERSION_2_1, DRAM_END, DRAM_SIZE, DRAM_START,
    EMIF_DDR_PHY_CTRL_1, EMIF_DDR_PHY_CTRL_1_SHDW, EMIF_DDR_PHY_CTRL_2, EMIF_SDRAM_CONFIG,
    EMIF_SDRAM_REF_CTRL, EMIF_SDRAM_REF_CTRL_SHDW, EMIF_SDRAM_TIM_1, EMIF_SDRAM_TIM_1_SHDW,
    EMIF_SDRAM_TIM_2, EMIF_SDRAM_TIM_2_SHDW, EMIF_SDRAM_TIM_3, EMIF_SDRAM_TIM_3_SHDW,
    EMIF_ZQ_CONFIG, SOC_EMIF_0_REGS};
use crate::uart::{put_dec, put_hex, put_line, uart_configured, write_bytes, Platform};

verus! {

/// Bit identities the self-test and the controller waits rest on.
proof fn lemma_dram_bits()
    by (bit_vector)
    ensures
        forall|v: u32, s: u32| #![auto] ((v & !s) == v) <==> (v & s) == 0,
        forall|a: u32, b: u32| #![auto] (a & b) == (b & a),
        forall|s: u32, m1: u32, x: u32| #![auto] (s & (m1 | x) == 0) <==> (s & m1 == 0 && s & x
            == 0),
        forall|a: u32| #![auto] ((a | 0x4 | 0x10) & (0x4u32 | 0x10)) == (0x4u32 | 0x10),
        forall|v: u32| #![auto] (((v & !0x30000u32 & !0x3) | 0x2) & 0x3) == 0x2,
        forall|a: u32| #![auto] ((a | 0x20) & 0x40) == (a & 0x40),
        forall|a: u32| #![auto] ((a | 0x20) & 0x1) == (a & 0x1),
        forall|a: u32| #![auto] ((a | 0x20) & 0x20) == 0x20,
        forall|a: u32, m: u32| #![auto] ((a | m) & m) == m,
        forall|a: u32, m: u32, v: u32| #![auto] (((a & !m) | (v & m)) & m) == (v & m),
        forall|a: u32| #![auto] (((a & !1) | (1u32 & 1)) & 0x40) == (a & 0x40),
        forall|a: u32| #![auto] (((a & !1) | (1u32 & 1)) & 1) == 1,
        forall|s: u32| s & 0xFFFF_FFFFu32 == s,
        forall|s: u32| s & 0u32 == 0,
        forall|v: u32| #![auto] (v & !0u32) == v,
        2u32 & 3 == 2,
        0x40u32 & 0x40 == 0x40,
        (1u32 << 0u32) == 1,
{
}

/// Enables the EMIF firewall and EMIF module clocks and waits for the L3
/// and EMIF clock activity.
#[verifier::rlimit(100)]
pub fn init_emif(m: &mut Machine)
    requires
        m_wf(old(m)@),
    ensures
        m_wf(final(m)@),
        crate::machine::keeps_devices(old(m)@, final(m)@),
        final(m)@.console == old(m)@.console,
        crate::uart::uart_untouched(old(m)@, final(m)@),
        crate::bank::reg_val(final(m)@.bank, (CM_PER_BASE + CM_PER_EMIF_FW_CLKCTRL) as u32)
            & CLKCTRL_MODULEMODE == CLKCTRL_MODULEMODE_ENABLE,
        crate::bank::reg_val(final(m)@.bank, (CM_PER_BASE + CM_PER_EMIF_CLKCTRL) as u32)
            & CLKCTRL_MODULEMODE == CLKCTRL_MODULEMODE_ENABLE,
        crate::bank::reg_val(final(m)@.bank, (CM_PER_BASE + CM_PER_L3_CLKSTCTRL) as u32)
            & (CM_PER_L3_CLKSTCTRL_CLKACTIVITY_EMIF_GCLK
            | CM_PER_L3_CLKSTCTRL_CLKACTIVITY_L3_GCLK) == (
        CM_PER_L3_CLKSTCTRL_CLKACTIVITY_EMIF_GCLK | CM_PER_L3_CLKSTCTRL_CLKACTIVITY_L3_GCLK),
{
    proof {
        lemma_dram_bits();
    }
    m.write_masked(
        CM_PER_BASE,
        CM_PER_EMIF_FW_CLKCTRL,
        CLKCTRL_MODULEMODE,
        CLKCTRL_MODULEMODE_ENABLE,
    );
    m.write_masked(
        CM_PER_BASE,
        CM_PER_EMIF_CLKCTRL,
        CLKCTRL_MODULEMODE,
        CLKCTRL_MODULEMODE_ENABLE,
    );
    m.wait_masked_eq(
        CM_PER_BASE,
        CM_PER_L3_CLKSTCTRL,
        CM_PER_L3_CLKSTCTRL_CLKACTIVITY_EMIF_GCLK | CM_PER_L3_CLKSTCTRL_CLKACTIVITY_L3_GCLK,
        CM_PER_L3_CLKSTCTRL_CLKACTIVITY_EMIF_GCLK | CM_PER_L3_CLKSTCTRL_CLKACTIVITY_L3_GCLK,
    );
}

/// Runs VTP calibration: enable, clear-Z, then the ready bit.
#[verifier::rlimit(100)]
pub fn init_vtp(m: &mut Machine)
    requires
        m_wf(old(m)@),
    ensures
        m_wf(final(m)@),
        crate::machine::keeps_devices(old(m)@, final(m)@),
        final(m)@.console == old(m)@.console,
        crate::uart::uart_untouched(old(m)@, final(m)@),
        crate::bank::reg_val(final(m)@.bank, (CONTROL_MODULE_BASE + CONTROL_VTP_CTRL) as u32)
            & CONTROL_VTP_CTRL_READY == CONTROL_VTP_CTRL_READY,
        crate::bank::reg_val(final(m)@.bank, (CONTROL_MODULE_BASE + CONTROL_VTP_CTRL) as u32)
            & CONTROL_VTP_CTRL_ENABLE == CONTROL_VTP_CTRL_ENABLE,
        crate::bank::reg_val(final(m)@.bank, (CONTROL_MODULE_BASE + CONTROL_VTP_CTRL) as u32)
            & CONTROL_VTP_CTRL_CLRZ == CONTROL_VTP_CTRL_CLRZ,
{
    proof {
        lemma_dram_bits();
    }
    m.write_masked(
        CONTROL_MODULE_BASE,
        CONTROL_VTP_CTRL,
        CONTROL_VTP_CTRL_ENABLE,
        CONTROL_VTP_CTRL_ENABLE,
    );
    m.write_masked(
        CONTROL_MODULE_BASE,
        CONTROL_VTP_CTRL,
        CONTROL_VTP_CTRL_CLRZ,
        CONTROL_VTP_CTRL_CLRZ,
    );
    m.wait_masked_eq(
        CONTROL_MODULE_BASE,
        CONTROL_VTP_CTRL,
        CONTROL_VTP_CTRL_READY,
        CONTROL_VTP_CTRL_READY,
    );
}

/// Writes the DDR3 slave-ratio and invert-clkout constants into the three
/// command macros and both data macros of the DDR PHY.
#[verifier::rlimit(100)]
pub fn init_ddr_phys(m: &mut Machine)
    requires
        m_wf(old(m)@),
    ensures
        m_wf(final(m)@),
        crate::machine::keeps_devices(old(m)@, final(m)@),
        final(m)@.console == old(m)@.console,
        crate::uart::uart_untouched(old(m)@, final(m)@),
        crate::bank::reg_val(final(m)@.bank, (DDR_PHY_CTRL_BASE + CMD0_SLAVE_RATIO_0) as u32)
            == DDR3_CMD0_SLAVE_RATIO_0,
        crate::bank::reg_val(final(m)@.bank, (DDR_PHY_CTRL_BASE + CMD0_INVERT_CLKOUT_0) as u32)
            == DDR3_CMD0_INVERT_CLKOUT_0,
        crate::bank::reg_val(final(m)@.bank, (DDR_PHY_CTRL_BASE + CMD1_SLAVE_RATIO_0) as u32)
            == DDR3_CMD1_SLAVE_RATIO_0,
        crate::bank::reg_val(final(m)@.bank, (DDR_PHY_CTRL_BASE + CMD1_INVERT_CLKOUT_0) as u32)
            == DDR3_CMD1_INVERT_CLKOUT_0,
        crate::bank::reg_val(final(m)@.bank, (DDR_PHY_CTRL_BASE + CMD2_SLAVE_RATIO_0) as u32)
            == DDR3_CMD2_SLAVE_RATIO_0,
        crate::bank::reg_val(final(m)@.bank, (DDR_PHY_CTRL_BASE + CMD2_INVERT_CLKOUT_0) as u32)
            == DDR3_CMD2_INVERT_CLKOUT_0,
        crate::bank::reg_val(
            final(m)@.bank,
            (DDR_PHY_CTRL_BASE + DATA0_RD_DQS_SLAVE_RATIO_0) as u32,
        ) == DDR3_DATA0_RD_DQS_SLAVE_RATIO_0,
        crate::bank::reg_val(
            final(m)@.bank,
            (DDR_PHY_CTRL_BASE + DATA0_WR_DQS_SLAVE_RATIO_0) as u32,
        ) == DDR3_DATA0_WR_DQS_SLAVE_RATIO_0,
        crate::bank::reg_val(
            final(m)@.bank,
            (DDR_PHY_CTRL_BASE + DATA0_FIFO_WE_SLAVE_RATIO_0) as u32,
        ) == DDR3_DATA0_FIFO_WE_SLAVE_RATIO_0,
        crate::bank::reg_val(
            final(m)@.bank,
            (DDR_PHY_CTRL_BASE + DATA0_WR_DATA_SLAVE_RATIO_0) as u32,
        ) == DDR3_DATA0_WR_DATA_SLAVE_RATIO_0,
        crate::bank::reg_val(
            final(m)@.bank,
            (DDR_PHY_CTRL_BASE + DATA1_RD_DQS_SLAVE_RATIO_1) as u32,
        ) == DDR3_DATA0_RD_DQS_SLAVE_RATIO_1,
        crate::bank::reg_val(
            final(m)@.bank,
            (DDR_PHY_CTRL_BASE + DATA1_WR_DQS_SLAVE_RATIO_1) as u32,
        ) == DDR3_DATA0_WR_DQS_SLAVE_RATIO_1,
        crate::bank::reg_val(
            final(m)@.bank,
            (DDR_PHY_CTRL_BASE + DATA1_FIFO_WE_SLAVE_RATIO_1) as u32,
        ) == DDR3_DATA0_FIFO_WE_SLAVE_RATIO_1,
        crate::bank::reg_val(
            final(m)@.bank,
            (DDR_PHY_CTRL_BASE + DATA1_WR_DATA_SLAVE_RATIO_1) as u32,
        ) == DDR3_DATA0_WR_DATA_SLAVE_RATIO_1,
{
    m.write32(DDR_PHY_CTRL_BASE, CMD0_SLAVE_RATIO_0, DDR3_CMD0_SLAVE_RATIO_0);
    m.write32(DDR_PHY_CTRL_BASE, CMD0_INVERT_CLKOUT_0, DDR3_CMD0_INVERT_CLKOUT_0);
    m.write32(DDR_PHY_CTRL_BASE, CMD1_SLAVE_RATIO_0, DDR3_CMD1_SLAVE_RATIO_0);
    m.write32(DDR_PHY_CTRL_BASE, CMD1_INVERT_CLKOUT_0, DDR3_CMD1_INVERT_CLKOUT_0);
    m.write32(DDR_PHY_CTRL_BASE, CMD2_SLAVE_RATIO_0, DDR3_CMD2_SLAVE_RATIO_0);
    m.write32(DDR_PHY_CTRL_BASE, CMD2_INVERT_CLKOUT_0, DDR3_CMD2_INVERT_CLKOUT_0);
    m.write32(DDR_PHY_CTRL_BASE, DATA0_RD_DQS_SLAVE_RATIO_0, DDR3_DATA0_RD_DQS_SLAVE_RATIO_0);
    m.write32(DDR_PHY_CTRL_BASE, DATA0_WR_DQS_SLAVE_RATIO_0, DDR3_DATA0_WR_DQS_SLAVE_RATIO_0);
    m.write32(DDR_PHY_CTRL_BASE, DATA0_FIFO_WE_SLAVE_RATIO_0, DDR3_DATA0_FIFO_WE_SLAVE_RATIO_0);
    m.write32(DDR_PHY_CTRL_BASE, DATA0_WR_DATA_SLAVE_RATIO_0, DDR3_DATA0_WR_DATA_SLAVE_RATIO_0);
    m.write32(DDR_PHY_CTRL_BASE, DATA1_RD_DQS_SLAVE_RATIO_1, DDR3_DATA0_RD_DQS_SLAVE_RATIO_1);
    m.write32(DDR_PHY_CTRL_BASE, DATA1_WR_DQS_SLAVE_RATIO_1, DDR3_DATA0_WR_DQS_SLAVE_RATIO_1);
    m.write32(DDR_PHY_CTRL_BASE, DATA1_FIFO_WE_SLAVE_RATIO_1, DDR3_DATA0_FIFO_WE_SLAVE_RATIO_1);
    m.write32(DDR_PHY_CTRL_BASE, DATA1_WR_DATA_SLAVE_RATIO_1, DDR3_DATA0_WR_DATA_SLAVE_RATIO_1);
}

/// IO-cell configuration and the final EMIF PHY, timing, refresh and
/// SDRAM-config programming, mirrored into the secure control register.
/// Device versions 2.0 and 2.1 additionally set dynamic power-down.
#[verifier::rlimit(100)]
pub fn init_ddr_final(m: &mut Machine)
    requires
        m_wf(old(m)@),
    ensures
        m_wf(final(m)@),
        crate::machine::keeps_devices(old(m)@, final(m)@),
        final(m)@.console == old(m)@.console,
        crate::uart::uart_untouched(old(m)@, final(m)@),
        crate::bank::reg_val(final(m)@.bank, (SOC_EMIF_0_REGS + EMIF_SDRAM_CONFIG) as u32)
            == DDR3_EMIF_SDRAM_CONFIG,
        crate::bank::reg_val(
            final(m)@.bank,
            (CONTROL_MODULE_BASE + CONTROL_SECURE_EMIF_SDRAM_CONFIG) as u32,
        ) == DDR3_EMIF_SDRAM_CONFIG,
        crate::bank::reg_val(final(m)@.bank, (SOC_EMIF_0_REGS + EMIF_SDRAM_TIM_1) as u32)
            == DDR3_EMIF_SDRAM_TIM_1,
        crate::bank::reg_val(final(m)@.bank, (SOC_EMIF_0_REGS + EMIF_SDRAM_TIM_1_SHDW) as u32)
            == DDR3_EMIF_SDRAM_TIM_1_SHDW,
        crate::bank::reg_val(final(m)@.bank, (SOC_EMIF_0_REGS + EMIF_SDRAM_TIM_2) as u32)
            == DDR3_EMIF_SDRAM_TIM_2,
        crate::bank::reg_val(final(m)@.bank, (SOC_EMIF_0_REGS + EMIF_SDRAM_TIM_2_SHDW) as u32)
            == DDR3_EMIF_SDRAM_TIM_2_SHDW,
        crate::bank::reg_val(final(m)@.bank, (SOC_EMIF_0_REGS + EMIF_SDRAM_TIM_3) as u32)
            == DDR3_EMIF_SDRAM_TIM_3,
        crate::bank::reg_val(final(m)@.bank, (SOC_EMIF_0_REGS + EMIF_SDRAM_TIM_3_SHDW) as u32)
            == DDR3_EMIF_SDRAM_TIM_3_SHDM,
        crate::bank::reg_val(final(m)@.bank, (SOC_EMIF_0_REGS + EMIF_DDR_PHY_CTRL_2) as u32)
            == DDR3_EMIF_DDR_PHY_CTRL_2,
        crate::bank::reg_val(final(m)@.bank, (SOC_EMIF_0_REGS + EMIF_SDRAM_REF_CTRL) as u32)
            == DDR3_EMIF_SDRAM_REF_CTRL_VAL1,
        crate::bank::reg_val(final(m)@.bank, (SOC_EMIF_0_REGS + EMIF_SDRAM_REF_CTRL_SHDW) as u32)
            == DDR3_EMIF_SDRAM_REF_CTRL_SHDW_VAL1,
        crate::bank::reg_val(final(m)@.bank, (SOC_EMIF_0_REGS + EMIF_ZQ_CONFIG) as u32)
            == DDR3_EMIF_ZQ_CONFIG_VAL,
        (crate::tps::spec_device_version(old(m)@) == DEVICE_VERSION_2_0
            || crate::tps::spec_device_version(old(m)@) == DEVICE_VERSION_2_1) ==> crate::bank::reg_val(
            final(m)@.bank,
            (SOC_EMIF_0_REGS + EMIF_DDR_PHY_CTRL_1) as u32,
        ) == ((DDR3_EMIF_DDR_PHY_CTRL_1 & !DDR3_EMIF_DDR_PHY_CTRL_1_DY_PWRDN) | (
        DDR3_EMIF_DDR_PHY_CTRL_1_DY_PWRDN & DDR3_EMIF_DDR_PHY_CTRL_1_DY_PWRDN)) && crate::bank::reg_val(
            final(m)@.bank,
            (SOC_EMIF_0_REGS + EMIF_DDR_PHY_CTRL_1_SHDW) as u32,
        ) == ((DDR3_EMIF_DDR_PHY_CTRL_1_SHDW & !DDR3_EMIF_DDR_PHY_CTRL_1_SHDW_DY_PWRDN) | (
        DDR3_EMIF_DDR_PHY_CTRL_1_SHDW_DY_PWRDN & DDR3_EMIF_DDR_PHY_CTRL_1_SHDW_DY_PWRDN)),
        !(crate::tps::spec_device_version(old(m)@) == DEVICE_VERSION_2_0
            || crate::tps::spec_device_version(old(m)@) == DEVICE_VERSION_2_1) ==> crate::bank::reg_val(
            final(m)@.bank,
            (SOC_EMIF_0_REGS + EMIF_DDR_PHY_CTRL_1) as u32,
        ) == DDR3_EMIF_DDR_PHY_CTRL_1 && crate::bank::reg_val(
            final(m)@.bank,
            (SOC_EMIF_0_REGS + EMIF_DDR_PHY_CTRL_1_SHDW) as u32,
        ) == DDR3_EMIF_DDR_PHY_CTRL_1_SHDW,
{
    proof {
        lemma_dram_bits();
    }
    let version = get_device_version(m);
    m.write32(CONTROL_MODULE_BASE, CONTROL_DDR_CMD_IOCTRL_0, DDR3_CONTROL_DDR_CMD_IOCTRL_0);
    m.write32(CONTROL_MODULE_BASE, CONTROL_DDR_CMD_IOCTRL_1, DDR3_CONTROL_DDR_CMD_IOCTRL_1);
    m.write32(CONTROL_MODULE_BASE, CONTROL_DDR_CMD_IOCTRL_2, DDR3_CONTROL_DDR_CMD_IOCTRL_2);
    m.write32(CONTROL_MODULE_BASE, CONTROL_DDR_DATA_IOCTRL_0, DDR3_CONTROL_DDR_DATA_IOCTRL_0);
    m.write32(CONTROL_MODULE_BASE, CONTROL_DDR_DATA_IOCTRL_1, DDR3_CONTROL_DDR_DATA_IOCTRL_1);

    // Keep only the DDR3 bits of the master IO-control register.
    let reg = m.read32(CONTROL_MODULE_BASE, CONTROL_DDR_IO_CTRL);
    m.write32(CONTROL_MODULE_BASE, CONTROL_DDR_IO_CTRL, reg & DDR3_CONTROL_DDR_IO_CTRL);

    m.write_masked(
        CONTROL_MODULE_BASE,
        CONTROL_DDR_CKE_CTRL,
        CONTROL_DDR_CKE_CTRL_DDR_CKE_CTRL,
        CONTROL_DDR_CKE_CTRL_DDR_CKE_CTRL,
    );
    m.write32(SOC_EMIF_0_REGS, EMIF_DDR_PHY_CTRL_1, DDR3_EMIF_DDR_PHY_CTRL_1);
    if version == DEVICE_VERSION_2_1 || version == DEVICE_VERSION_2_0 {
        m.write_masked(
            SOC_EMIF_0_REGS,
            EMIF_DDR_PHY_CTRL_1,
            DDR3_EMIF_DDR_PHY_CTRL_1_DY_PWRDN,
            DDR3_EMIF_DDR_PHY_CTRL_1_DY_PWRDN,
        );
    }
    m.write32(SOC_EMIF_0_REGS, EMIF_DDR_PHY_CTRL_1_SHDW, DDR3_EMIF_DDR_PHY_CTRL_1_SHDW);
    if version == DEVICE_VERSION_2_1 || version == DEVICE_VERSION_2_0 {
        m.write_masked(
            SOC_EMIF_0_REGS,
            EMIF_DDR_PHY_CTRL_1_SHDW,
            DDR3_EMIF_DDR_PHY_CTRL_1_SHDW_DY_PWRDN,
            DDR3_EMIF_DDR_PHY_CTRL_1_SHDW_DY_PWRDN,
        );
    }
    let ghost gpre = m@;
    emif_timing_setup(m);
    proof {
        let p1 = (SOC_EMIF_0_REGS + EMIF_DDR_PHY_CTRL_1) as u32;
        let p1s = (SOC_EMIF_0_REGS + EMIF_DDR_PHY_CTRL_1_SHDW) as u32;
        assert(crate::bank::reg_val(m@.bank, p1) == crate::bank::reg_val(gpre.bank, p1));
        assert(crate::bank::reg_val(m@.bank, p1s) == crate::bank::reg_val(gpre.bank, p1s));
    }
}

/// Final EMIF timing, refresh, impedance and SDRAM-config programming,
/// with the config mirrored into the secure control-module register.
#[verifier::rlimit(100)]
fn emif_timing_setup(m: &mut Machine)
    requires
        m_wf(old(m)@),
    ensures
        m_wf(final(m)@),
        crate::machine::keeps_devices(old(m)@, final(m)@),
        final(m)@.console == old(m)@.console,
        crate::uart::uart_untouched(old(m)@, final(m)@),
        crate::bank::reg_val(final(m)@.bank, (SOC_EMIF_0_REGS + EMIF_SDRAM_CONFIG) as u32)
            == DDR3_EMIF_SDRAM_CONFIG,
        crate::bank::reg_val(
            final(m)@.bank,
            (CONTROL_MODULE_BASE + CONTROL_SECURE_EMIF_SDRAM_CONFIG) as u32,
        ) == DDR3_EMIF_SDRAM_CONFIG,
        crate::bank::reg_val(final(m)@.bank, (SOC_EMIF_0_REGS + EMIF_SDRAM_TIM_1) as u32)
            == DDR3_EMIF_SDRAM_TIM_1,
        crate::bank::reg_val(final(m)@.bank, (SOC_EMIF_0_REGS + EMIF_SDRAM_TIM_1_SHDW) as u32)
            == DDR3_EMIF_SDRAM_TIM_1_SHDW,
        crate::bank::reg_val(final(m)@.bank, (SOC_EMIF_0_REGS + EMIF_SDRAM_TIM_2) as u32)
            == DDR3_EMIF_SDRAM_TIM_2,
        crate::bank::reg_val(final(m)@.bank, (SOC_EMIF_0_REGS + EMIF_SDRAM_TIM_2_SHDW) as u32)
            == DDR3_EMIF_SDRAM_TIM_2_SHDW,
        crate::bank::reg_val(final(m)@.bank, (SOC_EMIF_0_REGS + EMIF_SDRAM_TIM_3) as u32)
            == DDR3_EMIF_SDRAM_TIM_3,
        crate::bank::reg_val(final(m)@.bank, (SOC_EMIF_0_REGS + EMIF_SDRAM_TIM_3_SHDW) as u32)
            == DDR3_EMIF_SDRAM_TIM_3_SHDM,
        crate::bank::reg_val(final(m)@.bank, (SOC_EMIF_0_REGS + EMIF_DDR_PHY_CTRL_2) as u32)
            == DDR3_EMIF_DDR_PHY_CTRL_2,
        crate::bank::reg_val(final(m)@.bank, (SOC_EMIF_0_REGS + EMIF_SDRAM_REF_CTRL) as u32)
            == DDR3_EMIF_SDRAM_REF_CTRL_VAL1,
        crate::bank::reg_val(final(m)@.bank, (SOC_EMIF_0_REGS + EMIF_SDRAM_REF_CTRL_SHDW) as u32)
            == DDR3_EMIF_SDRAM_REF_CTRL_SHDW_VAL1,
        crate::bank::reg_val(final(m)@.bank, (SOC_EMIF_0_REGS + EMIF_ZQ_CONFIG) as u32)
            == DDR3_EMIF_ZQ_CONFIG_VAL,
        forall|a: u32|
            a != ((SOC_EMIF_0_REGS + EMIF_DDR_PHY_CTRL_2) as u32) && a != ((SOC_EMIF_0_REGS
                + EMIF_SDRAM_TIM_1) as u32) && a != ((SOC_EMIF_0_REGS + EMIF_SDRAM_TIM_1_SHDW)
                as u32) && a != ((SOC_EMIF_0_REGS + EMIF_SDRAM_TIM_2) as u32) && a != ((
            SOC_EMIF_0_REGS + EMIF_SDRAM_TIM_2_SHDW) as u32) && a != ((SOC_EMIF_0_REGS
                + EMIF_SDRAM_TIM_3) as u32) && a != ((SOC_EMIF_0_REGS + EMIF_SDRAM_TIM_3_SHDW)
                as u32) && a != ((SOC_EMIF_0_REGS + EMIF_SDRAM_REF_CTRL) as u32) && a != ((
            SOC_EMIF_0_REGS + EMIF_SDRAM_REF_CTRL_SHDW) as u32) && a != ((SOC_EMIF_0_REGS
                + EMIF_ZQ_CONFIG) as u32) && a != ((SOC_EMIF_0_REGS + EMIF_SDRAM_CONFIG) as u32)
                && a != ((CONTROL_MODULE_BASE + CONTROL_SECURE_EMIF_SDRAM_CONFIG) as u32)
                ==> #[trigger] crate::bank::reg_val(final(m)@.bank, a) == crate::bank::reg_val(
                old(m)@.bank,
                a,
            ),
{
    m.write32(SOC_EMIF_0_REGS, EMIF_DDR_PHY_CTRL_2, DDR3_EMIF_DDR_PHY_CTRL_2);
    m.write32(SOC_EMIF_0_REGS, EMIF_SDRAM_TIM_1, DDR3_EMIF_SDRAM_TIM_1);
    m.write32(SOC_EMIF_0_REGS, EMIF_SDRAM_TIM_1_SHDW, DDR3_EMIF_SDRAM_TIM_1_SHDW);
    m.write32(SOC_EMIF_0_REGS, EMIF_SDRAM_TIM_2, DDR3_EMIF_SDRAM_TIM_2);
    m.write32(SOC_EMIF_0_REGS, EMIF_SDRAM_TIM_2_SHDW, DDR3_EMIF_SDRAM_TIM_2_SHDW);
    m.write32(SOC_EMIF_0_REGS, EMIF_SDRAM_TIM_3, DDR3_EMIF_SDRAM_TIM_3);
    m.write32(SOC_EMIF_0_REGS, EMIF_SDRAM_TIM_3_SHDW, DDR3_EMIF_SDRAM_TIM_3_SHDM);
    m.write32(SOC_EMIF_0_REGS, EMIF_SDRAM_REF_CTRL, DDR3_EMIF_SDRAM_REF_CTRL_VAL1);
    m.write32(SOC_EMIF_0_REGS, EMIF_SDRAM_REF_CTRL_SHDW, DDR3_EMIF_SDRAM_REF_CTRL_SHDW_VAL1);
    m.write32(SOC_EMIF_0_REGS, EMIF_ZQ_CONFIG, DDR3_EMIF_ZQ_CONFIG_VAL);
    m.write32(SOC_EMIF_0_REGS, EMIF_SDRAM_CONFIG, DDR3_EMIF_SDRAM_CONFIG);
    m.write32(
        CONTROL_MODULE_BASE,
        CONTROL_SECURE_EMIF_SDRAM_CONFIG,
        DDR3_EMIF_SDRAM_CONFIG,
    );
}

// -------------------------------------------------------------- self-test

/// The address of the `j`-th tested location.
pub open spec fn stride_addr(start: u32, j: int) -> u32 {
    (start + j * 4096) as u32
}

/// The DRAM word index of the `j`-th tested location.
pub open spec fn stride_widx(start: u32, base: u32, j: int) -> int {
    (start - base + j * 4096) / 4
}

/// Word `k` of DRAM is one of the stride-tested locations of the window.
pub open spec fn tested_word(start: u32, base: u32, num: int, k: int) -> bool {
    exists|j: int| 0 <= j < num && k == #[trigger] stride_widx(start, base, j)
}

/// What one tested word stores: the written value, with the stuck bits of
/// the first DRAM word dropped.
pub open spec fn stored_word(mv: MachineV, addr: u32, v: u32) -> u32 {
    if addr == mv.layout.dram_base {
        v & !mv.faults.dram_stuck
    } else {
        v
    }
}

/// The self-test finds an error exactly when its window starts at the
/// faulty first DRAM word and some bit there is stuck.
pub open spec fn memtest_clean(mv: MachineV, start: u32) -> bool {
    start == mv.layout.dram_base ==> mv.faults.dram_stuck == 0
}

/// Writes `pattern ^ address` at every 4 KiB stride in `[start, end)`,
/// reads each location back, reports up to ten mismatches on the console
/// and returns the number of mismatches.
#[verifier::rlimit(100)]
fn memtest_pattern(m: &mut Machine, p: Platform, pattern: u32, start: u32, end: u32) -> (errors:
    u32)
    requires
        m_wf(old(m)@),
        uart_configured(old(m)@, p),
        old(m)@.layout.dram_base <= start,
        start + 4096 <= end <= old(m)@.layout.dram_base + 4 * old(m)@.dram.len(),
        start % 4096 == 0,
        old(m)@.layout.dram_base % 4096 == 0,
    ensures
        m_wf(final(m)@),
        final(m)@.bank == old(m)@.bank,
        final(m)@.tables == old(m)@.tables,
        final(m)@.uart_rx == old(m)@.uart_rx,
        final(m)@.i2c == old(m)@.i2c,
        final(m)@.pmic == old(m)@.pmic,
        final(m)@.eeprom == old(m)@.eeprom,
        final(m)@.sd == old(m)@.sd,
        final(m)@.cpu == old(m)@.cpu,
        final(m)@.layout == old(m)@.layout,
        final(m)@.faults == old(m)@.faults,
        final(m)@.dram.len() == old(m)@.dram.len(),
        old(m)@.console.is_prefix_of(final(m)@.console),
        (errors == 0) <==> !(start == old(m)@.layout.dram_base && (pattern ^ start)
            & old(m)@.faults.dram_stuck != 0),
        forall|k: int|
            0 <= k < old(m)@.dram.len() && !tested_word(
                start,
                old(m)@.layout.dram_base,
                (end - start) / 4096,
                k,
            ) ==> #[trigger] final(m)@.dram[k] == old(m)@.dram[k],
{
    proof {
        lemma_dram_bits();
        broadcast use crate::machine::lemma_prefix_append;
        broadcast use crate::machine::lemma_prefix_refl;
    }
    let base = m.layout.dram_base;
    let size = end - start;
    let num: u32 = size / 4096;
    proof {
        assert(num >= 1) by (nonlinear_arith)
            requires
                num == size / 4096,
                size >= 4096,
        ;
    }

    // Write phase: an address-dependent value at every stride.
    let mut i: u32 = 0;
    while i < num
        invariant
            m_wf(m@),
            i <= num,
            num == size / 4096,
            size == end - start,
            base == m@.layout.dram_base,
            base <= start,
            start + 4096 <= end <= base + 4 * m@.dram.len(),
            start % 4096 == 0,
            base % 4096 == 0,
            m@.bank == old(m)@.bank,
            m@.tables == old(m)@.tables,
            m@.uart_rx == old(m)@.uart_rx,
            m@.i2c == old(m)@.i2c,
            m@.pmic == old(m)@.pmic,
            m@.eeprom == old(m)@.eeprom,
            m@.sd == old(m)@.sd,
            m@.cpu == old(m)@.cpu,
            m@.layout == old(m)@.layout,
            m@.faults == old(m)@.faults,
            m@.console == old(m)@.console,
            m@.dram.len() == old(m)@.dram.len(),
            forall|j: int| 0 <= j < i ==> m@.dram[#[trigger] stride_widx(start, base, j)]
                == stored_word(m@, stride_addr(start, j), (pattern ^ stride_addr(start, j))),
            forall|k: int|
                0 <= k < old(m)@.dram.len() && !tested_word(start, base, num as int, k)
                    ==> #[trigger] m@.dram[k] == old(m)@.dram[k],
        decreases num - i,
    {
        proof {
            lemma_dram_bits();
            lemma_stride_bounds(start as int, end as int, base as int, num as int, i as int, m@.dram.len() as int);
        }
        let addr = start + i * 4096;
        let value = pattern ^ addr;
        m.write32(addr, 0, value);
        proof {
            assert forall|j: int| 0 <= j < i + 1 implies m@.dram[#[trigger] stride_widx(
                start,
                base,
                j,
            )] == stored_word(m@, stride_addr(start, j), (pattern ^ stride_addr(start, j))) by {
                lemma_stride_bounds(start as int, end as int, base as int, num as int, j, m@.dram.len() as int);
                if j < i {
                    lemma_stride_distinct(start as int, base as int, i as int, j);
                }
            }
            assert forall|k: int|
                0 <= k < old(m)@.dram.len() && !tested_word(start, base, num as int, k) implies #[trigger] m@.dram[k]
                == old(m)@.dram[k] by {
                assert(tested_word(start, base, num as int, stride_widx(start, base, i as int)));
            }
        }
        i = i + 1;
    }

    // Read phase: compare every stride against the written value.
    let ghost dwritten = m@.dram;
    let mut errors: u32 = 0;
    let mut k: u32 = 0;
    while k < num
        invariant
            m_wf(m@),
            k <= num,
            num == size / 4096,
            size == end - start,
            base == m@.layout.dram_base,
            base <= start,
            start + 4096 <= end <= base + 4 * m@.dram.len(),
            start % 4096 == 0,
            base % 4096 == 0,
            errors <= k,
            m@.bank == old(m)@.bank,
            m@.tables == old(m)@.tables,
            m@.uart_rx == old(m)@.uart_rx,
            m@.i2c == old(m)@.i2c,
            m@.pmic == old(m)@.pmic,
            m@.eeprom == old(m)@.eeprom,
            m@.sd == old(m)@.sd,
            m@.cpu == old(m)@.cpu,
            m@.layout == old(m)@.layout,
            m@.faults == old(m)@.faults,
            m@.dram.len() == old(m)@.dram.len(),
            old(m)@.console.is_prefix_of(m@.console),
            uart_configured(m@, p),
            forall|j: int| 0 <= j < num ==> m@.dram[#[trigger] stride_widx(start, base, j)]
                == stored_word(m@, stride_addr(start, j), (pattern ^ stride_addr(start, j))),
            m@.dram == dwritten,
            (errors == 0) <==> !(k > 0 && start == base && (pattern ^ start) & m@.faults.dram_stuck
                != 0),
        decreases num - k,
    {
        proof {
            lemma_dram_bits();
            broadcast use crate::machine::lemma_prefix_append;
            broadcast use crate::machine::lemma_prefix_trans;
            lemma_stride_bounds(start as int, end as int, base as int, num as int, k as int, m@.dram.len() as int);
            lemma_stride_distinct(start as int, base as int, k as int, 0);
        }
        let addr = start + k * 4096;
        let expected = pattern ^ addr;
        let actual = m.read32(addr, 0);
        proof {
            let wi = stride_widx(start, base, k as int);
            assert(m@.dram[wi] == stored_word(m@, stride_addr(start, k as int), (pattern
                ^ stride_addr(start, k as int))));
            assert(in_dram(m@, addr));
            assert(actual == m@.dram[wi]);
            if k > 0 {
                assert(stride_addr(start, k as int) != base);
                assert(actual == expected);
            } else {
                assert(stride_addr(start, 0) == start);
                if start == base {
                    lemma_mask_eq((pattern ^ start) as u32, m@.faults.dram_stuck);
                    assert(actual == (pattern ^ start) & !m@.faults.dram_stuck);
                    assert((actual == expected) <==> ((pattern ^ start) & m@.faults.dram_stuck
                        == 0));
                } else {
                    assert(actual == expected);
                }
            }
        }
        if actual != expected {
            errors = errors + 1;
            if errors <= 10 {
                let em = msgs::error_at_address();
                write_bytes(m, p, em.as_slice());
                put_hex(m, p, addr);
                let ex = msgs::expected_hex();
                write_bytes(m, p, ex.as_slice());
                put_hex(m, p, expected);
                let gt = msgs::got_hex();
                write_bytes(m, p, gt.as_slice());
                put_hex(m, p, actual);
                put_line(m, p, &[]);
            }
        }
        k = k + 1;
    }
    errors
}

/// In-bounds arithmetic for the `i`-th stride address.
proof fn lemma_stride_bounds(start: int, end: int, base: int, num: int, i: int, dlen: int)
    by (nonlinear_arith)
    requires
        0 <= i < num,
        num == (end - start) / 4096,
        base <= start,
        start + 4096 <= end,
        end <= base + 4 * dlen,
        start % 4096 == 0,
        base % 4096 == 0,
    ensures
        start + i * 4096 + 4096 <= end,
        (start + i * 4096 - base) % 4 == 0,
        (start - base + i * 4096) / 4 == (start + i * 4096 - base) / 4,
        i * 4096 >= 0,
        0 <= (start - base + i * 4096) / 4 < dlen,
        i > 0 ==> start + i * 4096 > base,
{
}

/// Only the zeroth stride can sit at the DRAM base, and two distinct
/// strides land on distinct words.
proof fn lemma_stride_distinct(start: int, base: int, i: int, j: int)
    by (nonlinear_arith)
    requires
        base <= start,
        i >= 0,
        j >= 0,
        start % 4096 == 0,
        base % 4096 == 0,
    ensures
        (start + i * 4096 == base) ==> (i == 0 && start == base),
        j != i ==> start + j * 4096 != start + i * 4096,
        j != i ==> (start - base + j * 4096) / 4 != (start - base + i * 4096) / 4,
{
}

/// Walking ones over the first tested word: writes each single-bit value
/// and checks the readback; reports every failing bit on the console.
#[verifier::rlimit(100)]
fn walking_ones(m: &mut Machine, p: Platform, start: u32) -> (errors: u32)
    requires
        m_wf(old(m)@),
        uart_configured(old(m)@, p),
        old(m)@.layout.dram_base <= start,
        start + 4 <= old(m)@.layout.dram_base + 4 * old(m)@.dram.len(),
        start % 4 == 0,
        old(m)@.layout.dram_base % 4 == 0,
    ensures
        m_wf(final(m)@),
        final(m)@.layout == old(m)@.layout,
        final(m)@.faults == old(m)@.faults,
        final(m)@.dram.len() == old(m)@.dram.len(),
        final(m)@.cpu == old(m)@.cpu,
        final(m)@.tables == old(m)@.tables,
        final(m)@.sd == old(m)@.sd,
        final(m)@.pmic == old(m)@.pmic,
        final(m)@.i2c == old(m)@.i2c,
        final(m)@.eeprom == old(m)@.eeprom,
        final(m)@.uart_rx == old(m)@.uart_rx,
        final(m)@.bank == old(m)@.bank,
        old(m)@.console.is_prefix_of(final(m)@.console),
        (errors == 0) <==> !(start == old(m)@.layout.dram_base && old(m)@.faults.dram_stuck != 0),
        forall|k: int|
            0 <= k < old(m)@.dram.len() && k != stride_widx(start, old(m)@.layout.dram_base, 0)
                ==> #[trigger] final(m)@.dram[k] == old(m)@.dram[k],
        start == old(m)@.layout.dram_base && old(m)@.faults.dram_stuck & 0x1 == 0x1 ==> exists|
            tail: Seq<u8>,
        |
            final(m)@.console == old(m)@.console + crate::uart::render(
                p,
                crate::msgs::s_walking_ones_error_at_bit() + crate::fmt::dec_digits(0),
            ) + tail,
{
    proof {
        lemma_dram_bits();
        broadcast use crate::machine::lemma_prefix_append;
        broadcast use crate::machine::lemma_prefix_refl;
        broadcast use crate::machine::lemma_prefix_trans;
    }
    let mut errors: u32 = 0;
    let mut bit: u32 = 0;
    let ghost mut seen: u32 = 0;
    while bit < 32
        invariant
            m_wf(m@),
            bit <= 32,
            errors <= bit,
            m@.layout == old(m)@.layout,
            m@.faults == old(m)@.faults,
            m@.dram.len() == old(m)@.dram.len(),
            m@.cpu == old(m)@.cpu,
            m@.tables == old(m)@.tables,
            m@.sd == old(m)@.sd,
            m@.pmic == old(m)@.pmic,
            m@.i2c == old(m)@.i2c,
            m@.eeprom == old(m)@.eeprom,
            m@.uart_rx == old(m)@.uart_rx,
            m@.bank == old(m)@.bank,
            old(m)@.layout.dram_base <= start,
            start + 4 <= old(m)@.layout.dram_base + 4 * m@.dram.len(),
            start % 4 == 0,
            old(m)@.layout.dram_base % 4 == 0,
            old(m)@.console.is_prefix_of(m@.console),
            uart_configured(m@, p),
            seen == low_mask(bit as nat),
            (errors == 0) <==> !(start == old(m)@.layout.dram_base && old(m)@.faults.dram_stuck
                & seen != 0),
            bit == 0 ==> m@.console == old(m)@.console,
            forall|k: int|
                0 <= k < old(m)@.dram.len() && k != stride_widx(
                    start,
                    old(m)@.layout.dram_base,
                    0,
                ) ==> #[trigger] m@.dram[k] == old(m)@.dram[k],
            start == old(m)@.layout.dram_base && old(m)@.faults.dram_stuck & 0x1 == 0x1 && bit > 0
                ==> (old(m)@.console + crate::uart::render(
                p,
                crate::msgs::s_walking_ones_error_at_bit() + crate::fmt::dec_digits(0),
            )).is_prefix_of(m@.console),
        decreases 32 - bit,
    {
        let pattern = 1u32 << bit;
        proof {
            lemma_dram_bits();
            broadcast use crate::machine::lemma_prefix_append;
            broadcast use crate::machine::lemma_prefix_trans;
            let db = m@.layout.dram_base;
            crate::machine::lemma_div4_range((start - db) as int, m@.dram.len() as int);
            assert((start - db) % 4 == 0) by (nonlinear_arith)
                requires
                    start % 4 == 0,
                    db % 4 == 0,
                    start >= db,
            ;
        }
        let ghost m1 = m@;
        m.write32(start, 0, pattern);
        proof {
            assert(in_dram(m1, start));
            assert(m@.dram == m1.dram.update(
                (start - m1.layout.dram_base) / 4,
                stored_word(m1, start, pattern),
            ));
        }
        let read_value = m.read32(start, 0);
        proof {
            assert(read_value == stored_word(m1, start, pattern));
            lemma_mask_eq(pattern, m1.faults.dram_stuck);
            if start == old(m)@.layout.dram_base {
                assert(read_value == pattern & !old(m)@.faults.dram_stuck);
                assert((read_value == pattern) <==> (pattern & old(m)@.faults.dram_stuck == 0));
            } else {
                assert(read_value == pattern);
            }
            lemma_or_decompose(old(m)@.faults.dram_stuck, seen, pattern);
        }
        if read_value != pattern {
            errors = errors + 1;
            let wo = msgs::walking_ones_error_at_bit();
            write_bytes(m, p, wo.as_slice());
            put_dec(m, p, bit);
            proof {
                if bit == 0 {
                    crate::uart::lemma_render_app(
                        p,
                        crate::msgs::s_walking_ones_error_at_bit(),
                        crate::fmt::dec_digits(0),
                    );
                    assert((old(m)@.console + crate::uart::render(
                        p,
                        crate::msgs::s_walking_ones_error_at_bit() + crate::fmt::dec_digits(0),
                    )).is_prefix_of(m@.console));
                }
            }
            let ex = msgs::expected_hex();
            write_bytes(m, p, ex.as_slice());
            put_hex(m, p, pattern);
            let gt = msgs::got_hex();
            write_bytes(m, p, gt.as_slice());
            put_hex(m, p, read_value);
            put_line(m, p, &[]);
        }
        proof {
            seen = seen | (1u32 << bit);
            assert(seen == low_mask((bit + 1) as nat));
            if start == old(m)@.layout.dram_base {
                if old(m)@.faults.dram_stuck & pattern != 0 {
                    assert(read_value != pattern);
                    assert(errors > 0);
                    assert(old(m)@.faults.dram_stuck & seen != 0);
                } else {
                    assert(read_value == pattern);
                    assert(old(m)@.faults.dram_stuck & seen == 0 <==> old(m)@.faults.dram_stuck
                        & low_mask(bit as nat) == 0);
                }
            }
        }
        bit = bit + 1;
    }
    proof {
        assert(low_mask(32) == 0xFFFF_FFFFu32) by (bit_vector);
        if start == old(m)@.layout.dram_base && old(m)@.faults.dram_stuck & 0x1 == 0x1 {
            let tgt = old(m)@.console + crate::uart::render(
                p,
                crate::msgs::s_walking_ones_error_at_bit() + crate::fmt::dec_digits(0),
            );
            assert(tgt.is_prefix_of(m@.console));
            crate::machine::lemma_prefix_split(tgt, m@.console);
            assert(exists|tail: Seq<u8>|
                m@.console == old(m)@.console + crate::uart::render(
                    p,
                    crate::msgs::s_walking_ones_error_at_bit() + crate::fmt::dec_digits(0),
                ) + tail) by {
                assert(m@.console == tgt + m@.console.skip(tgt.len() as int));
            }
        }
    }
    errors
}

/// Masking against a union of bit sets splits into the parts.
proof fn lemma_or_decompose(s: u32, m1: u32, x: u32)
    by (bit_vector)
    ensures
        (s & (m1 | x) == 0) <==> (s & m1 == 0 && s & x == 0),
{
}

/// A masked-out value reads back unchanged exactly when it had none of
/// the masked bits.
proof fn lemma_mask_eq(v: u32, s: u32)
    by (bit_vector)
    ensures
        ((v & !s) == v) <==> (v & s == 0),
{
}

/// The mask of the bits below `b`.
pub open spec fn low_mask(b: nat) -> u32
    decreases b,
{
    if b == 0 {
        0u32
    } else {
        low_mask((b - 1) as nat) | (1u32 << (((b - 1) as nat) as u32))
    }
}

/// Pattern sweep plus walking ones over `[start, end)`. Returns the total
/// error count; zero exactly when no tested word is faulty.
#[verifier::rlimit(100)]
pub fn simple_memtest_from(m: &mut Machine, p: Platform, start: u32, end: u32) -> (errors: u32)
    requires
        m_wf(old(m)@),
        uart_configured(old(m)@, p),
        old(m)@.layout.dram_base <= start,
        start + 4096 <= end <= old(m)@.layout.dram_base + 4 * old(m)@.dram.len(),
        start % 4096 == 0,
        old(m)@.layout.dram_base % 4096 == 0,
    ensures
        m_wf(final(m)@),
        final(m)@.layout == old(m)@.layout,
        final(m)@.faults == old(m)@.faults,
        final(m)@.dram.len() == old(m)@.dram.len(),
        final(m)@.cpu == old(m)@.cpu,
        final(m)@.tables == old(m)@.tables,
        final(m)@.sd == old(m)@.sd,
        final(m)@.pmic == old(m)@.pmic,
        final(m)@.i2c == old(m)@.i2c,
        final(m)@.eeprom == old(m)@.eeprom,
        final(m)@.uart_rx == old(m)@.uart_rx,
        final(m)@.bank == old(m)@.bank,
        old(m)@.console.is_prefix_of(final(m)@.console),
        uart_configured(final(m)@, p),
        (errors == 0) <==> memtest_clean(old(m)@, start),
        forall|k: int|
            0 <= k < old(m)@.dram.len() && !tested_word(
                start,
                old(m)@.layout.dram_base,
                (end - start) / 4096,
                k,
            ) ==> #[trigger] final(m)@.dram[k] == old(m)@.dram[k],
        start == old(m)@.layout.dram_base && old(m)@.faults.dram_stuck & 0x1 == 0x1 ==> exists|
            a: Seq<u8>,
            tail: Seq<u8>,
        |
            final(m)@.console == a + crate::uart::render(
                p,
                crate::msgs::s_walking_ones_error_at_bit() + crate::fmt::dec_digits(0),
            ) + tail,
    {
    proof {
        lemma_dram_bits();
        lemma_stuck_detected(start, old(m)@.faults.dram_stuck);
        broadcast use crate::machine::lemma_prefix_append;
        broadcast use crate::machine::lemma_prefix_refl;
        broadcast use crate::machine::lemma_prefix_trans;
    }
    let tm = msgs::testing_dram_from();
    write_bytes(m, p, tm.as_slice());
    put_hex(m, p, start);
    let th = msgs::to_hex();
    write_bytes(m, p, th.as_slice());
    put_hex(m, p, end);
    let op = msgs::open_paren();
    write_bytes(m, p, op.as_slice());
    put_dec(m, p, end - start);
    let bs = msgs::bytes_suffix();
    write_bytes(m, p, bs.as_slice());
    put_line(m, p, &[]);

    let mut errors: u32 = 0;
    // Alternating bits, bytes and half-words, then two mixed patterns.
    let ghost base_g = m@.layout.dram_base;
    let ghost num_g = ((end - start) / 4096) as int;
    let e0 = memtest_pattern(m, p, 0xAAAA_AAAA, start, end);
    let ghost d1 = m@.dram;
    errors = report_pattern(m, p, 0xAAAA_AAAA, errors, e0);
    let e1 = memtest_pattern(m, p, 0x5555_5555, start, end);
    let ghost d2 = m@.dram;
    errors = report_pattern(m, p, 0x5555_5555, errors, e1);
    let e2 = memtest_pattern(m, p, 0xFF00_FF00, start, end);
    let ghost d3 = m@.dram;
    errors = report_pattern(m, p, 0xFF00_FF00, errors, e2);
    let e3 = memtest_pattern(m, p, 0x00FF_00FF, start, end);
    let ghost d4 = m@.dram;
    errors = report_pattern(m, p, 0x00FF_00FF, errors, e3);
    let e4 = memtest_pattern(m, p, 0xFFFF_0000, start, end);
    let ghost d5 = m@.dram;
    errors = report_pattern(m, p, 0xFFFF_0000, errors, e4);
    let e5 = memtest_pattern(m, p, 0x0000_FFFF, start, end);
    let ghost d6 = m@.dram;
    errors = report_pattern(m, p, 0x0000_FFFF, errors, e5);
    let e6 = memtest_pattern(m, p, 0xDEAD_BEEF, start, end);
    let ghost d7 = m@.dram;
    errors = report_pattern(m, p, 0xDEAD_BEEF, errors, e6);
    let e7 = memtest_pattern(m, p, 0x1234_5678, start, end);
    let ghost d8 = m@.dram;
    errors = report_pattern(m, p, 0x1234_5678, errors, e7);

    let ghost cw = m@.console;
    let we = walking_ones(m, p, start);
    let ghost cwk = m@.console;
    proof {
        assert(num_g >= 1) by (nonlinear_arith)
            requires
                num_g == (end - start) / 4096,
                start + 4096 <= end,
        ;
        assert forall|k: int|
            0 <= k < old(m)@.dram.len() && !tested_word(start, base_g, num_g, k) implies #[trigger] m@.dram[k]
            == old(m)@.dram[k] by {
            assert(d1[k] == old(m)@.dram[k]);
            assert(d2[k] == d1[k]);
            assert(d3[k] == d2[k]);
            assert(d4[k] == d3[k]);
            assert(d5[k] == d4[k]);
            assert(d6[k] == d5[k]);
            assert(d7[k] == d6[k]);
            assert(d8[k] == d7[k]);
            assert(tested_word(start, base_g, num_g, stride_widx(start, base_g, 0)));
            assert(m@.dram[k] == d8[k]);
        }
    }
    if we > 0 {
        let wf = msgs::walking_ones_failed_with();
        write_bytes(m, p, wf.as_slice());
        put_dec(m, p, we);
        let es = msgs::errors_suffix();
        put_line(m, p, es.as_slice());
    }
    if errors <= 0xFFFF_FFFF - we {
        errors = errors + we;
    } else {
        errors = 0xFFFF_FFFF;
    }
    proof {
        if start == old(m)@.layout.dram_base && old(m)@.faults.dram_stuck & 0x1 == 0x1 {
            let line = crate::uart::render(
                p,
                crate::msgs::s_walking_ones_error_at_bit() + crate::fmt::dec_digits(0),
            );
            let t0 = choose|tail: Seq<u8>| cwk == cw + line + tail;
            assert(cwk.is_prefix_of(m@.console));
            crate::machine::lemma_prefix_split(cwk, m@.console);
            assert(exists|a: Seq<u8>, tail: Seq<u8>| m@.console == a + line + tail) by {
                assert(m@.console =~= cw + line + (t0 + m@.console.skip(cwk.len() as int)));
            }
        }
    }
    errors
}

/// A stuck bit under the two alternating patterns: one of them differs in
/// every bit position, so a fault at the window start is always seen.
proof fn lemma_stuck_detected(start: u32, s: u32)
    by (bit_vector)
    ensures
        s != 0 ==> ((0xAAAA_AAAAu32 ^ start) & s != 0) || ((0x5555_5555u32 ^ start) & s != 0),
{
}

/// Prints the per-pattern error line and accumulates the count.
fn report_pattern(m: &mut Machine, p: Platform, pattern: u32, errors: u32, added: u32) -> (r: u32)
    requires
        m_wf(old(m)@),
        uart_configured(old(m)@, p),
    ensures
        m_wf(final(m)@),
        final(m)@.layout == old(m)@.layout,
        final(m)@.faults == old(m)@.faults,
        final(m)@.dram == old(m)@.dram,
        final(m)@.cpu == old(m)@.cpu,
        final(m)@.tables == old(m)@.tables,
        final(m)@.sd == old(m)@.sd,
        final(m)@.pmic == old(m)@.pmic,
        final(m)@.i2c == old(m)@.i2c,
        final(m)@.eeprom == old(m)@.eeprom,
        final(m)@.uart_rx == old(m)@.uart_rx,
        final(m)@.bank == old(m)@.bank,
        old(m)@.console.is_prefix_of(final(m)@.console),
        uart_configured(final(m)@, p),
        (r == 0) <==> (errors == 0 && added == 0),
{
    proof {
        broadcast use crate::machine::lemma_prefix_append;
        broadcast use crate::machine::lemma_prefix_refl;
    }
    let total = if errors <= 0xFFFF_FFFF - added {
        errors + added
    } else {
        0xFFFF_FFFF
    };
    if total > 0 {
        let pm = msgs::pattern_hex();
        write_bytes(m, p, pm.as_slice());
        put_hex(m, p, pattern);
        let fw = msgs::failed_with();
        write_bytes(m, p, fw.as_slice());
        put_dec(m, p, total);
        let es = msgs::errors_suffix();
        put_line(m, p, es.as_slice());
    }
    total
}

/// Full DRAM bring-up for the platform, followed by the self-test. On the
/// emulator the test window starts above the already loaded boot image.
#[verifier::rlimit(100)]
pub fn init(m: &mut Machine, p: Platform) -> (r: Result<(), u32>)
    requires
        m_wf(old(m)@),
        uart_configured(old(m)@, p),
        4 * old(m)@.dram.len() >= 0x22000,
        old(m)@.layout.dram_base + 4 * old(m)@.dram.len() <= 0xFFFF_FFFF,
    ensures
        m_wf(final(m)@),
        final(m)@.layout == old(m)@.layout,
        final(m)@.faults == old(m)@.faults,
        final(m)@.dram.len() == old(m)@.dram.len(),
        final(m)@.cpu == old(m)@.cpu,
        final(m)@.tables == old(m)@.tables,
        final(m)@.sd == old(m)@.sd,
        final(m)@.pmic == old(m)@.pmic,
        final(m)@.i2c == old(m)@.i2c,
        final(m)@.eeprom == old(m)@.eeprom,
        final(m)@.uart_rx == old(m)@.uart_rx,
        old(m)@.console.is_prefix_of(final(m)@.console),
        uart_configured(final(m)@, p),
        r is Ok <==> memtest_clean(old(m)@, memtest_start(old(m)@, p)),
        r matches Err(e) ==> e > 0,
        r is Ok ==> exists|mid: Seq<u8>|
            final(m)@.console == old(m)@.console + mid + crate::uart::render(
                p,
                crate::msgs::s_dram_test_passed() + seq![0x0Au8],
            ),
{
    proof {
        broadcast use crate::machine::lemma_prefix_append;
        broadcast use crate::machine::lemma_prefix_refl;
        broadcast use crate::machine::lemma_prefix_trans;
    }
    match p {
        Platform::Bbb => {
            init_emif(m);
            init_vtp(m);
            init_ddr_phys(m);
            init_ddr_final(m);
        },
        Platform::Qemu => {
            // DRAM is already functional under the emulator.
        },
    }
    let base = m.layout.dram_base;
    let dwords = m.dram.len();
    proof {
        assert(base % 4096 == 0) by (nonlinear_arith)
            requires
                base % 0x10_0000 == 0,
        ;
        assert((base + 0x20000) % 4096 == 0) by (nonlinear_arith)
            requires
                base % 4096 == 0,
        ;
    }
    let end: u32 = base + ((4 * dwords) as u32);
    let start: u32 = match p {
        Platform::Bbb => base,
        // The boot image already sits at the bottom of DRAM here.
        Platform::Qemu => base + 0x20000,
    };
    let errors = simple_memtest_from(m, p, start, end);
    if errors == 0 {
        let ghost c2 = m@.console;
        let ok = msgs::dram_test_passed();
        put_line(m, p, ok.as_slice());
        proof {
            let mid = c2.skip(old(m)@.console.len() as int);
            assert(c2 =~= old(m)@.console + mid);
            assert(ok@ + seq![0x0Au8] =~= crate::msgs::s_dram_test_passed() + seq![0x0Au8]);
            assert(m@.console =~= old(m)@.console + mid + crate::uart::render(
                p,
                crate::msgs::s_dram_test_passed() + seq![0x0Au8],
            ));
        }
        Ok(())
    } else {
        Err(errors)
    }
}

/// Where the self-test window starts for the platform.
pub open spec fn memtest_start(mv: MachineV, p: Platform) -> u32 {
    match p {
        Platform::Bbb => mv.layout.dram_base,
        Platform::Qemu => (mv.layout.dram_base + 0x20000) as u32,
    }
}

/// The byte DRAM holds at the given address, as the little-endian lanes
/// of its words.
pub open spec fn dram_byte(mv: MachineV, addr: u32) -> u8 {
    ((mv.dram[(addr - mv.layout.dram_base) / 4] >> ((8 * ((addr - mv.layout.dram_base) % 4))
        as u32)) & 0xFF) as u8
}

/// Placing one byte into its lane of a word: the lane takes the byte and
/// the other lanes keep their values.
proof fn lemma_byte_lane(w: u32, b: u8, sh: u32, sh2: u32)
    by (bit_vector)
    requires
        sh == 0 || sh == 8 || sh == 16 || sh == 24,
        sh2 == 0 || sh2 == 8 || sh2 == 16 || sh2 == 24,
    ensures
        ((((w & !(0xFFu32 << sh)) | ((b as u32) << sh)) >> sh) & 0xFF) as u8 == b,
        sh2 != sh ==> ((((w & !(0xFFu32 << sh)) | ((b as u32) << sh)) >> sh2) & 0xFF) as u8 == ((w
            >> sh2) & 0xFF) as u8,
{
}

/// Stores a byte string into DRAM starting at the DRAM base, byte by byte
/// through read-modify-write of the word lanes.
#[verifier::rlimit(100)]
pub fn dram_store_bytes(m: &mut Machine, data: &[u8])
    requires
        m_wf(old(m)@),
        data@.len() <= 4 * old(m)@.dram.len(),
        old(m)@.faults.dram_stuck == 0,
    ensures
        m_wf(final(m)@),
        final(m)@.bank == old(m)@.bank,
        final(m)@.tables == old(m)@.tables,
        final(m)@.console == old(m)@.console,
        final(m)@.uart_rx == old(m)@.uart_rx,
        final(m)@.i2c == old(m)@.i2c,
        final(m)@.pmic == old(m)@.pmic,
        final(m)@.eeprom == old(m)@.eeprom,
        final(m)@.sd == old(m)@.sd,
        final(m)@.cpu == old(m)@.cpu,
        final(m)@.layout == old(m)@.layout,
        final(m)@.faults == old(m)@.faults,
        final(m)@.dram.len() == old(m)@.dram.len(),
        forall|i: int| 0 <= i < data@.len() ==> #[trigger] dram_byte(
            final(m)@,
            (old(m)@.layout.dram_base + i) as u32,
        ) == data@[i],
        forall|j: int| data@.len() <= j < 4 * old(m)@.dram.len() ==> #[trigger] dram_byte(
            final(m)@,
            (old(m)@.layout.dram_base + j) as u32,
        ) == dram_byte(old(m)@, (old(m)@.layout.dram_base + j) as u32),
{
    let base = m.layout.dram_base;
    let n = data.len();
    let mut i: usize = 0;
    while i < n
        invariant
            m_wf(m@),
            i <= n,
            n == data@.len(),
            n <= 4 * m@.dram.len(),
            base == m@.layout.dram_base,
            m@.bank == old(m)@.bank,
            m@.tables == old(m)@.tables,
            m@.console == old(m)@.console,
            m@.uart_rx == old(m)@.uart_rx,
            m@.i2c == old(m)@.i2c,
            m@.pmic == old(m)@.pmic,
            m@.eeprom == old(m)@.eeprom,
            m@.sd == old(m)@.sd,
            m@.cpu == old(m)@.cpu,
            m@.layout == old(m)@.layout,
            m@.faults == old(m)@.faults,
            m@.faults.dram_stuck == 0,
            m@.dram.len() == old(m)@.dram.len(),
            forall|j: int| 0 <= j < i ==> #[trigger] dram_byte(m@, (base + j) as u32) == data@[j],
            forall|j: int| i <= j < 4 * old(m)@.dram.len() ==> #[trigger] dram_byte(
                m@,
                (base + j) as u32,
            ) == dram_byte(old(m)@, (base + j) as u32),
        decreases n - i,
    {
        proof {
            lemma_dram_bits();
            crate::machine::lemma_div4_range(i as int, m@.dram.len() as int);
            assert((base + i - base) % 4 == i % 4 && (base + i - base) / 4 == i as int / 4)
                by (nonlinear_arith)
                requires
                    base >= 0,
                    i >= 0,
            ;
        }
        let b = data[i];
        let addr = base + (i as u32);
        let word_addr = addr - (addr % 4);
        let sh: u32 = 8 * (addr % 4);
        let ghost mv0 = m@;
        let w = m.read32(word_addr, 0);
        let nw = (w & !(0xFFu32 << sh)) | ((b as u32) << sh);
        m.write32(word_addr, 0, nw);
        proof {
            lemma_store_byte_step(mv0, m@, base, i as int, n as int, b, w, nw, sh);
        }
        i = i + 1;
    }
}

/// One byte store lands in its lane and leaves every other byte of DRAM
/// as it was.
proof fn lemma_store_byte_step(
    m0: MachineV,
    m1: MachineV,
    base: u32,
    i: int,
    n: int,
    b: u8,
    w: u32,
    nw: u32,
    sh: u32,
)
    requires
        m_wf(m0),
        0 <= i < n <= 4 * m0.dram.len(),
        base == m0.layout.dram_base,
        m0.faults.dram_stuck == 0,
        sh == (8 * (((base + i) as u32) % 4)) as u32,
        w == m0.dram[((base + i) as u32 - base) / 4],
        nw == (w & !(0xFFu32 << sh)) | ((b as u32) << sh),
        m1.dram == m0.dram.update(((base + i) as u32 - base) / 4, nw),
        m1.layout == m0.layout,
    ensures
        dram_byte(m1, (base + i) as u32) == b,
        forall|j: int| 0 <= j < 4 * m0.dram.len() && j != i ==> #[trigger] dram_byte(
            m1,
            (base + j) as u32,
        ) == dram_byte(m0, (base + j) as u32),
{
    assert forall|j: int| 0 <= j < 4 * m0.dram.len() && j != i implies #[trigger] dram_byte(
        m1,
        (base + j) as u32,
    ) == dram_byte(m0, (base + j) as u32) by {
        let shj = (8 * (((base + j) as u32) % 4)) as u32;
        lemma_lane_arith(base as int, i, j, m0.dram.len() as int);
        if ((base + j) as u32 - base) / 4 == ((base + i) as u32 - base) / 4 {
            lemma_byte_lane(w, b, sh, shj);
        }
    }
    lemma_byte_lane(w, b, sh, sh);
}

/// Lane arithmetic: distinct byte offsets in the same word have distinct
/// shifts, and the shift amounts are the four lane positions.
proof fn lemma_lane_arith(base: int, i: int, j: int, dlen: int)
    by (nonlinear_arith)
    requires
        0 <= i < 4 * dlen,
        0 <= j < 4 * dlen,
        base >= 0,
        base % 0x10_0000 == 0,
        base + 4 * dlen <= 0x1_0000_0000,
    ensures
        (8 * ((base + i) % 4)) == 0 || (8 * ((base + i) % 4)) == 8 || (8 * ((base + i) % 4)) == 16
            || (8 * ((base + i) % 4)) == 24,
        (8 * ((base + j) % 4)) == 0 || (8 * ((base + j) % 4)) == 8 || (8 * ((base + j) % 4)) == 16
            || (8 * ((base + j) % 4)) == 24,
        i != j && (base + i) / 4 == (base + j) / 4 ==> (base + i) % 4 != (base + j) % 4,
        (base + i) / 4 - base / 4 == ((base + i) - base) / 4,
        0 <= ((base + i) - base) / 4 < dlen,
{
}

// ------------------------------------------------------------------ laws

/// Round trip: reading a DRAM word immediately after writing it, with no
/// intervening write, yields the written value on a fault-free board.
pub proof fn lemma_dram_round_trip(mv: MachineV, addr: u32, v: u32)
    requires
        m_wf(mv),
        in_dram(mv, addr),
        (addr - mv.layout.dram_base) % 4 == 0,
        mv.faults.dram_stuck == 0,
    ensures
        s_read_val(s_write32(mv, addr, v), addr) == v,
{
    assert(v & !0u32 == v) by (bit_vector);
}

} // verus!
