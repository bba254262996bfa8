//! I2C master driver: module clocks, pin mux, controller configuration
//! and whole-transfer send helpers.

use vstd::prelude::*;

use crate::bank::reg_val;
use crate::machine::{in_i2c, m_wf, pmic_apply, I2cV, Machine, MachineV};
use crate::regs::{CLKCTRL_MODULEMODE, CLKCTRL_MODULEMODE_ENABLE, CLKTRCTRL_SW_WKUP,
    CM_WKUP_CM_L3_AON_CLKSTCTRL,
    CM_PER_BASE, CM_PER_L3S_CLKSTCTRL, CM_PER_L3_CLKCTRL, CM_PER_L3_CLKSTCTRL,
    CM_PER_L3_CLKSTCTRL_CLKACTIVITY_L3_GCLK, CM_PER_L3_INSTR_CLKCTRL, CM_PER_OCPWP_L3_CLKSTCTRL,
    CM_PER_OCPWP_L3_CLKSTCTRL_CLKACTIVITY_OCPWP_L3_GCLK, CM_WKUP_BASE, CM_WKUP_CLKSTCTRL,
    CM_WKUP_CONTROL_CLKCTRL, CM_WKUP_I2C0_CLKCTRL, CONTROL_CONF_I2C0_SCL, CONTROL_CONF_I2C0_SDA,
    CONF_I2C0_PUTYPESEL, CONF_I2C0_RXACTIVE, CONF_I2C0_SLEWCTRL, CONTROL_MODULE_BASE,
    I2C_BASE_ADDR, I2C_CFG_MST_TX, I2C_CNT, I2C_CON, I2C_CON_I2C_EN, I2C_CON_STP, I2C_CON_STT,
    I2C_DATA, I2C_INTERRUPT_FLAG_TO_CLR, I2C_INT_STOP_CONDITION, I2C_INT_TRANSMIT_READY,
    I2C_IRQENABLE_CLR, I2C_IRQSTATUS, I2C_IRQSTATUS_BF, I2C_IRQSTATUS_RAW, I2C_IRQSTATUS_RAW_BB,
    I2C_IRQSTATUS_XRDY, I2C_PSC, I2C_SA, I2C_SCLH, I2C_SCLL, I2C_SYSC, I2C_SYSC_SRST, I2C_SYSS,
    I2C_SYSS_RDONE, PMIC_TPS65217_I2C_SLAVE_ADDR};

verus! {

/// Flag decoding of the raw-interrupt word the engine derives: each bit
/// reads out exactly its own source.
pub proof fn lemma_raw_decode()
    by (bit_vector)
    ensures
        forall|bb: u32, x: u32, ar: u32, rr: u32, bf: u32|
            (bb == 0 || bb == 0x1000) && (x == 0 || x == 0x10) && (ar == 0 || ar == 0x4) && (rr
                == 0 || rr == 0x8) && (bf == 0 || bf == 0x100) ==> ((#[trigger] ((((bb | x) | ar)
                | rr) | bf)) & 0x1000 == bb && ((((bb | x) | ar) | rr) | bf) & 0x10 == x && ((((bb
                | x) | ar) | rr) | bf) & 0x4 == ar && ((((bb | x) | ar) | rr) | bf) & 0x8 == rr
                && ((((bb | x) | ar) | rr) | bf) & 0x100 == bf),
{
}

/// Control-word bit facts for the transfer sequences.
pub proof fn lemma_con_bits()
    by (bit_vector)
    ensures
        forall|a: u32| #![auto] (((a & !0x1u32) | (0x1u32 & 0x1)) & 0x1) != 0,
        forall|a: u32| #![auto] (((a & !0x1u32) | (0x1u32 & 0x1)) & 0x2) == (a & 0x2),
        forall|a: u32| #![auto] (((a & !0x1u32) | (0x1u32 & 0x1)) & 0x200) == (a & 0x200),
        forall|a: u32| #![auto] (((a & !0x1u32) | (0x1u32 & 0x1)) & 0x400) == (a & 0x400),
        forall|a: u32| #![auto] (((a & !0x1u32) | (0x1u32 & 0x1)) & 0x8000) == (a & 0x8000),
        forall|a: u32| #![auto] (((a & !0x2u32) | (0x2u32 & 0x2)) & 0x2) != 0,
        ((0x400u32 | 0x200) | 0x8000) & 0x2 == 0,
        (0x400u32 | 0x200) & 0x2 == 0,
        (0x400u32 | 0x200) & 0x1 == 0,
        0x400u32 & 0x2 == 0,
        0x400u32 & 0x1 == 0,
        0x1u32 & 0x1 == 0x1,
        ((0x400u32 | 0x200) | 0x8000) & 0x1 == 0,
        ((0x400u32 | 0x200) | 0x8000) & 0x200 != 0,
        ((0x400u32 | 0x200) | 0x8000) & 0x400 != 0,
        ((0x400u32 | 0x200) | 0x8000) & 0x8000 != 0,
        (0x400u32 | 0x8000) & 0x2 == 0,
        (0x400u32 | 0x8000) & 0x1 == 0,
        (0x400u32 | 0x8000) & 0x200 == 0,
        (0x400u32 | 0x8000) & 0x400 != 0,
        (0x400u32 | 0x8000) & 0x8000 != 0,
        0x1000u32 & 0x1000 == 0x1000,
        0x10u32 & 0x10 == 0x10,
        0x100u32 & 0x100 == 0x100,
        0x8u32 & 0x8 == 0x8,
        0x2u32 & 0x3 == 0x2,
        forall|v: u32| #![auto] (((v & !0x30000u32 & !0x3) | 0x2) & 0x3) == 0x2,
        forall|v: u32| #![auto] (((v & !0x30000u32 & !0x3) | 0x2) & 0x30000) == 0,
        forall|a: u32, mk: u32, v: u32| #![auto] (((a & !mk) | (v & mk)) & mk) == (v & mk),
        forall|a: u32, mk: u32| #![auto] ((a | mk) & mk) == mk,
        forall|a: u32| #![auto] ((a | 0xFFF0u32) & 0x10) == 0x10,
        forall|x: u32| #![auto] ((((x & !0x2u32) | (0x2u32 & 0x2)) | 0xFFF0) & 0x2) == 0x2,
        0x2u32 & 0x2 == 0x2,
        0u32 & 0x2 == 0,
        0u32 & 0x1 == 0,
        0u32 & 0x8000 == 0,
        0u32 & !0x8000 == 0,
        0x8000u32 & 0x2 == 0,
        0x8000u32 & 0x1 == 0,
        0x8000u32 & 0x8000 != 0,
        (0u32 & !0x8000) | (0x8000u32 & 0x8000) == 0x8000,
{
}

pub fn master_disable(m: &mut Machine)
    requires
        m_wf(old(m)@),
    ensures
        m_wf(final(m)@),
        final(m)@ == crate::machine::s_write32(
            crate::machine::s_read_step(old(m)@, (I2C_BASE_ADDR + I2C_CON) as u32),
            (I2C_BASE_ADDR + I2C_CON) as u32,
            crate::machine::s_read_val(old(m)@, (I2C_BASE_ADDR + I2C_CON) as u32)
                & !I2C_CON_I2C_EN,
        ),
{
    m.clear_bits(I2C_BASE_ADDR, I2C_CON, I2C_CON_I2C_EN);
}

pub fn soft_reset(m: &mut Machine)
    requires
        m_wf(old(m)@),
    ensures
        m_wf(final(m)@),
        final(m)@ == crate::machine::s_write32(
            crate::machine::s_read_step(old(m)@, (I2C_BASE_ADDR + I2C_SYSC) as u32),
            (I2C_BASE_ADDR + I2C_SYSC) as u32,
            (crate::machine::s_read_val(old(m)@, (I2C_BASE_ADDR + I2C_SYSC) as u32)
                & !I2C_SYSC_SRST) | (I2C_SYSC_SRST & I2C_SYSC_SRST),
        ),
{
    m.write_masked(I2C_BASE_ADDR, I2C_SYSC, I2C_SYSC_SRST, I2C_SYSC_SRST);
}

pub fn auto_idle_disable(m: &mut Machine)
    requires
        m_wf(old(m)@),
    ensures
        m_wf(final(m)@),
        final(m)@ == crate::machine::s_write32(
            crate::machine::s_read_step(old(m)@, (I2C_BASE_ADDR + I2C_SYSC) as u32),
            (I2C_BASE_ADDR + I2C_SYSC) as u32,
            crate::machine::s_read_val(old(m)@, (I2C_BASE_ADDR + I2C_SYSC) as u32)
                & !I2C_SYSS_RDONE,
        ),
{
    m.clear_bits(I2C_BASE_ADDR, I2C_SYSC, I2C_SYSS_RDONE);
}

/// Programs the prescaler and the clock high/low dividers for the target
/// bus speed.
pub fn master_init_clock(m: &mut Machine, sys_clock: u32, internal_clock: u32, output_clock: u32)
    requires
        m_wf(old(m)@),
        internal_clock > 0,
        output_clock > 0,
        sys_clock / internal_clock >= 1,
        (internal_clock / output_clock) / 2 >= 7,
    ensures
        m_wf(final(m)@),
        final(m)@ == crate::machine::s_write32(
            crate::machine::s_write32(
                crate::machine::s_write32(
                    old(m)@,
                    (I2C_BASE_ADDR + I2C_PSC) as u32,
                    (sys_clock / internal_clock - 1) as u32,
                ),
                (I2C_BASE_ADDR + I2C_SCLL) as u32,
                ((internal_clock / output_clock) / 2 - 7) as u32,
            ),
            (I2C_BASE_ADDR + I2C_SCLH) as u32,
            ((internal_clock / output_clock) / 2 - 5) as u32,
        ),
{
    let prescaler = (sys_clock / internal_clock) - 1;
    m.write32(I2C_BASE_ADDR, I2C_PSC, prescaler);
    let divider = (internal_clock / output_clock) / 2;
    m.write32(I2C_BASE_ADDR, I2C_SCLL, divider - 7);
    m.write32(I2C_BASE_ADDR, I2C_SCLH, divider - 5);
}

pub fn master_enable(m: &mut Machine)
    requires
        m_wf(old(m)@),
    ensures
        m_wf(final(m)@),
        reg_val(final(m)@.bank, (I2C_BASE_ADDR + I2C_SYSS) as u32) & I2C_SYSS_RDONE
            == I2C_SYSS_RDONE,
        final(m)@ == crate::machine::s_write32(
            crate::machine::s_read_step(old(m)@, (I2C_BASE_ADDR + I2C_CON) as u32),
            (I2C_BASE_ADDR + I2C_CON) as u32,
            (crate::machine::s_read_val(old(m)@, (I2C_BASE_ADDR + I2C_CON) as u32)
                & !I2C_CON_I2C_EN) | (I2C_CON_I2C_EN & I2C_CON_I2C_EN),
        ),
{
    proof {
        lemma_con_bits();
        assert(0x8000u32 & 0x8000 != 0) by (bit_vector);
        assert(forall|a: u32| #![auto] ((a | 0x1u32) & 0x1) == 0x1) by (bit_vector);
    }
    m.write_masked(I2C_BASE_ADDR, I2C_CON, I2C_CON_I2C_EN, I2C_CON_I2C_EN);
}

pub fn master_slave_addr_set(m: &mut Machine, addr: u8)
    requires
        m_wf(old(m)@),
    ensures
        m_wf(final(m)@),
        final(m)@ == (MachineV {
            bank: old(m)@.bank.insert((I2C_BASE_ADDR + I2C_SA) as u32, addr as u32),
            ..old(m)@
        }),
{
    m.write32(I2C_BASE_ADDR, I2C_SA, addr as u32);
    proof {
        assert(m@ =~~= (MachineV {
            bank: old(m)@.bank.insert((I2C_BASE_ADDR + I2C_SA) as u32, addr as u32),
            ..old(m)@
        }));
    }
}

pub fn master_int_disable_ex(m: &mut Machine, int_flag: u32)
    requires
        m_wf(old(m)@),
    ensures
        m_wf(final(m)@),
        final(m)@ == (MachineV {
            bank: old(m)@.bank.insert((I2C_BASE_ADDR + I2C_IRQENABLE_CLR) as u32, int_flag),
            ..old(m)@
        }),
{
    m.write32(I2C_BASE_ADDR, I2C_IRQENABLE_CLR, int_flag);
    proof {
        assert(m@ =~~= (MachineV {
            bank: old(m)@.bank.insert((I2C_BASE_ADDR + I2C_IRQENABLE_CLR) as u32, int_flag),
            ..old(m)@
        }));
    }
}

/// Queues one byte into the current send transfer.
pub fn master_data_put(m: &mut Machine, data: u8)
    requires
        m_wf(old(m)@),
    ensures
        m_wf(final(m)@),
        final(m)@ == crate::machine::s_write32(
            old(m)@,
            (I2C_BASE_ADDR + I2C_DATA) as u32,
            data as u32,
        ),
{
    m.write32(I2C_BASE_ADDR, I2C_DATA, data as u32);
}

/// Takes one byte out of the receive queue.
pub fn master_data_get(m: &mut Machine) -> (r: u8)
    requires
        m_wf(old(m)@),
    ensures
        m_wf(final(m)@),
        old(m)@.i2c.rx.len() > 0 ==> r == old(m)@.i2c.rx[0] && final(m)@ == (MachineV {
            i2c: I2cV { rx: old(m)@.i2c.rx.skip(1), ..old(m)@.i2c },
            ..old(m)@
        }),
        old(m)@.i2c.rx.len() == 0 ==> r == 0 && final(m)@ == old(m)@,
{
    let v = m.read32(I2C_BASE_ADDR, I2C_DATA);
    proof {
        if old(m)@.i2c.rx.len() > 0 {
            assert(m@ =~~= (MachineV {
                i2c: I2cV { rx: old(m)@.i2c.rx.skip(1), ..old(m)@.i2c },
                ..old(m)@
            }));
        }
    }
    v as u8
}

pub fn master_int_raw_status_ex(m: &mut Machine, int_flag: u32) -> (r: bool)
    requires
        m_wf(old(m)@),
    ensures
        m_wf(final(m)@),
        final(m)@ == old(m)@,
        r == (crate::machine::i2c_raw_status(old(m)@.i2c) & int_flag == int_flag),
{
    let v = m.read_masked(I2C_BASE_ADDR, I2C_IRQSTATUS_RAW, int_flag);
    v == int_flag
}

pub fn master_int_raw_status(m: &mut Machine) -> (r: u32)
    requires
        m_wf(old(m)@),
    ensures
        m_wf(final(m)@),
        final(m)@ == old(m)@,
        r == crate::machine::i2c_raw_status(old(m)@.i2c),
{
    m.read32(I2C_BASE_ADDR, I2C_IRQSTATUS_RAW)
}

pub fn master_stop(m: &mut Machine)
    requires
        m_wf(old(m)@),
    ensures
        m_wf(final(m)@),
        final(m)@.i2c.active == false,
        final(m)@.i2c.stop == true,
        final(m)@.i2c.tx == old(m)@.i2c.tx,
        final(m)@.i2c.rx == old(m)@.i2c.rx,
        final(m)@.i2c.cnt == old(m)@.i2c.cnt,
        final(m)@.i2c.txmode == old(m)@.i2c.txmode,
        final(m)@.pmic == (if old(m)@.i2c.active && old(m)@.i2c.txmode && reg_val(
            old(m)@.bank,
            (I2C_BASE_ADDR + I2C_SA) as u32,
        ) == PMIC_TPS65217_I2C_SLAVE_ADDR as u32 {
            pmic_apply(old(m)@.pmic, old(m)@.i2c.tx)
        } else {
            old(m)@.pmic
        }),
        final(m)@.dram == old(m)@.dram,
        final(m)@.tables == old(m)@.tables,
        final(m)@.console == old(m)@.console,
        final(m)@.uart_rx == old(m)@.uart_rx,
        final(m)@.eeprom == old(m)@.eeprom,
        final(m)@.sd == old(m)@.sd,
        final(m)@.cpu == old(m)@.cpu,
        final(m)@.layout == old(m)@.layout,
        final(m)@.faults == old(m)@.faults,
        forall|a: u32|
            a != ((I2C_BASE_ADDR + I2C_CON) as u32) && a != ((I2C_BASE_ADDR + I2C_SYSS) as u32)
                ==> #[trigger] reg_val(final(m)@.bank, a) == reg_val(old(m)@.bank, a),
{
    proof {
        lemma_con_bits();
    }
    m.write_masked(I2C_BASE_ADDR, I2C_CON, I2C_CON_STP, I2C_CON_STP);
}

pub fn set_data_count(m: &mut Machine, count: u32)
    requires
        m_wf(old(m)@),
    ensures
        m_wf(final(m)@),
        final(m)@ == (MachineV {
            bank: old(m)@.bank.insert((I2C_BASE_ADDR + I2C_CNT) as u32, count),
            i2c: I2cV { cnt: count, ..old(m)@.i2c },
            ..old(m)@
        }),
{
    m.write32(I2C_BASE_ADDR, I2C_CNT, count);
    proof {
        assert(m@ =~~= (MachineV {
            bank: old(m)@.bank.insert((I2C_BASE_ADDR + I2C_CNT) as u32, count),
            i2c: I2cV { cnt: count, ..old(m)@.i2c },
            ..old(m)@
        }));
    }
}

pub fn master_int_clear_ex(m: &mut Machine, int_flag: u32)
    requires
        m_wf(old(m)@),
    ensures
        m_wf(final(m)@),
        final(m)@ == (MachineV {
            bank: old(m)@.bank.insert((I2C_BASE_ADDR + I2C_IRQSTATUS) as u32, int_flag),
            ..old(m)@
        }),
{
    m.write32(I2C_BASE_ADDR, I2C_IRQSTATUS, int_flag);
    proof {
        assert(m@ =~~= (MachineV {
            bank: old(m)@.bank.insert((I2C_BASE_ADDR + I2C_IRQSTATUS) as u32, int_flag),
            ..old(m)@
        }));
    }
}

/// Writes the control word with the enable bit; no transfer starts until
/// the start bit is raised.
pub fn master_control(m: &mut Machine, cmd: u32)
    requires
        m_wf(old(m)@),
        cmd & I2C_CON_STP == 0,
        cmd & I2C_CON_STT == 0,
    ensures
        m_wf(final(m)@),
        final(m)@ == crate::machine::s_write32(
            old(m)@,
            (I2C_BASE_ADDR + I2C_CON) as u32,
            cmd | I2C_CON_I2C_EN,
        ),
{
    m.write32(I2C_BASE_ADDR, I2C_CON, cmd | I2C_CON_I2C_EN);
}

/// Raises the start bit, beginning the transfer the control word set up.
pub fn master_start(m: &mut Machine)
    requires
        m_wf(old(m)@),
    ensures
        m_wf(final(m)@),
        final(m)@ == crate::machine::s_write32(
            crate::machine::s_read_step(old(m)@, (I2C_BASE_ADDR + I2C_CON) as u32),
            (I2C_BASE_ADDR + I2C_CON) as u32,
            (crate::machine::s_read_val(old(m)@, (I2C_BASE_ADDR + I2C_CON) as u32)
                & !I2C_CON_STT) | (I2C_CON_STT & I2C_CON_STT),
        ),
{
    m.write_masked(I2C_BASE_ADDR, I2C_CON, I2C_CON_STT, I2C_CON_STT);
}

pub fn master_bus_busy(m: &mut Machine) -> (r: bool)
    requires
        m_wf(old(m)@),
    ensures
        m_wf(final(m)@),
        final(m)@ == old(m)@,
        r == (crate::machine::i2c_raw_status(old(m)@.i2c) & I2C_IRQSTATUS_RAW_BB
            == I2C_IRQSTATUS_RAW_BB),
{
    let v = m.read_masked(I2C_BASE_ADDR, I2C_IRQSTATUS_RAW, I2C_IRQSTATUS_RAW_BB);
    v == I2C_IRQSTATUS_RAW_BB
}

pub fn system_status_ready(m: &mut Machine) -> (r: bool)
    requires
        m_wf(old(m)@),
    ensures
        m_wf(final(m)@),
        final(m)@ == old(m)@,
        r == (reg_val(old(m)@.bank, (I2C_BASE_ADDR + I2C_SYSS) as u32) & I2C_SYSS_RDONE
            == I2C_SYSS_RDONE),
{
    let v = m.read_masked(I2C_BASE_ADDR, I2C_SYSS, I2C_SYSS_RDONE);
    v == I2C_SYSS_RDONE
}

/// Wakes the interconnect and wakeup-domain clocks the I2C module needs.
#[verifier::rlimit(100)]
pub fn init_clocks(m: &mut Machine)
    requires
        m_wf(old(m)@),
    ensures
        m_wf(final(m)@),
        crate::machine::keeps_devices(old(m)@, final(m)@),
        final(m)@.console == old(m)@.console,
        crate::uart::uart_untouched(old(m)@, final(m)@),
        crate::uart::ids_untouched(old(m)@, final(m)@),
        reg_val(final(m)@.bank, (I2C_BASE_ADDR + I2C_CON) as u32) == reg_val(
            old(m)@.bank,
            (I2C_BASE_ADDR + I2C_CON) as u32,
        ),
        reg_val(final(m)@.bank, (CM_PER_BASE + CM_PER_L3_CLKCTRL) as u32) & CLKCTRL_MODULEMODE
            == CLKCTRL_MODULEMODE_ENABLE,
        reg_val(final(m)@.bank, (CM_PER_BASE + CM_PER_L3_INSTR_CLKCTRL) as u32)
            & CLKCTRL_MODULEMODE == CLKCTRL_MODULEMODE_ENABLE,
        reg_val(final(m)@.bank, (CM_WKUP_BASE + CM_WKUP_CONTROL_CLKCTRL) as u32)
            & CLKCTRL_MODULEMODE == CLKCTRL_MODULEMODE_ENABLE,
        reg_val(final(m)@.bank, (CM_WKUP_BASE + CM_WKUP_I2C0_CLKCTRL) as u32)
            & CLKCTRL_MODULEMODE == CLKCTRL_MODULEMODE_ENABLE,
        reg_val(final(m)@.bank, (CM_PER_BASE + CM_PER_L3_CLKSTCTRL) as u32) & CLKTRCTRL_SW_WKUP
            == CLKTRCTRL_SW_WKUP,
        reg_val(final(m)@.bank, (CM_PER_BASE + CM_PER_OCPWP_L3_CLKSTCTRL) as u32)
            & CLKTRCTRL_SW_WKUP == CLKTRCTRL_SW_WKUP,
        reg_val(final(m)@.bank, (CM_PER_BASE + CM_PER_L3S_CLKSTCTRL) as u32) & CLKTRCTRL_SW_WKUP
            == CLKTRCTRL_SW_WKUP,
        reg_val(final(m)@.bank, (CM_WKUP_BASE + CM_WKUP_CLKSTCTRL) as u32) & CLKTRCTRL_SW_WKUP
            == CLKTRCTRL_SW_WKUP,
        reg_val(final(m)@.bank, (CM_WKUP_BASE + CM_WKUP_CM_L3_AON_CLKSTCTRL) as u32)
            & CLKTRCTRL_SW_WKUP == CLKTRCTRL_SW_WKUP,
{
    proof {
        lemma_con_bits();
    }
    m.write_masked(CM_PER_BASE, CM_PER_L3_CLKCTRL, CLKCTRL_MODULEMODE_ENABLE,
        CLKCTRL_MODULEMODE_ENABLE);
    m.wait_masked_eq(CM_PER_BASE, CM_PER_L3_CLKCTRL, CLKCTRL_MODULEMODE,
        CLKCTRL_MODULEMODE_ENABLE);
    m.write_masked(CM_PER_BASE, CM_PER_L3_INSTR_CLKCTRL, CLKCTRL_MODULEMODE_ENABLE,
        CLKCTRL_MODULEMODE_ENABLE);
    m.wait_masked_eq(CM_PER_BASE, CM_PER_L3_INSTR_CLKCTRL, CLKCTRL_MODULEMODE,
        CLKCTRL_MODULEMODE_ENABLE);
    m.write_masked(CM_PER_BASE, CM_PER_L3_CLKSTCTRL, CLKTRCTRL_SW_WKUP, CLKTRCTRL_SW_WKUP);
    m.write_masked(CM_PER_BASE, CM_PER_OCPWP_L3_CLKSTCTRL, CLKTRCTRL_SW_WKUP, CLKTRCTRL_SW_WKUP);
    m.write_masked(CM_PER_BASE, CM_PER_L3S_CLKSTCTRL, CLKTRCTRL_SW_WKUP, CLKTRCTRL_SW_WKUP);
    m.wait_masked_eq(
        CM_PER_BASE,
        CM_PER_L3_CLKSTCTRL,
        CM_PER_L3_CLKSTCTRL_CLKACTIVITY_L3_GCLK,
        CM_PER_L3_CLKSTCTRL_CLKACTIVITY_L3_GCLK,
    );
    m.wait_masked_eq(
        CM_PER_BASE,
        CM_PER_OCPWP_L3_CLKSTCTRL,
        CM_PER_OCPWP_L3_CLKSTCTRL_CLKACTIVITY_OCPWP_L3_GCLK,
        CM_PER_OCPWP_L3_CLKSTCTRL_CLKACTIVITY_OCPWP_L3_GCLK,
    );
    m.write_masked(CM_WKUP_BASE, CM_WKUP_CONTROL_CLKCTRL, CLKCTRL_MODULEMODE_ENABLE,
        CLKCTRL_MODULEMODE_ENABLE);
    m.wait_masked_eq(CM_WKUP_BASE, CM_WKUP_CONTROL_CLKCTRL, CLKCTRL_MODULEMODE,
        CLKCTRL_MODULEMODE_ENABLE);
    m.write_masked(CM_WKUP_BASE, CM_WKUP_CLKSTCTRL, CLKTRCTRL_SW_WKUP, CLKTRCTRL_SW_WKUP);
    m.write_masked(CM_WKUP_BASE, CM_WKUP_CM_L3_AON_CLKSTCTRL, CLKTRCTRL_SW_WKUP,
        CLKTRCTRL_SW_WKUP);
    m.write_masked(CM_WKUP_BASE, CM_WKUP_I2C0_CLKCTRL, CLKCTRL_MODULEMODE_ENABLE,
        CLKCTRL_MODULEMODE_ENABLE);
    m.wait_masked_eq(CM_WKUP_BASE, CM_WKUP_I2C0_CLKCTRL, CLKCTRL_MODULEMODE,
        CLKCTRL_MODULEMODE_ENABLE);
}

/// Pad configuration for the I2C0 data and clock lines.
pub fn mux_pins(m: &mut Machine, instance: u32)
    requires
        m_wf(old(m)@),
    ensures
        m_wf(final(m)@),
        crate::machine::keeps_devices(old(m)@, final(m)@),
        final(m)@.console == old(m)@.console,
        crate::uart::uart_untouched(old(m)@, final(m)@),
        crate::uart::ids_untouched(old(m)@, final(m)@),
        reg_val(final(m)@.bank, (I2C_BASE_ADDR + I2C_CON) as u32) == reg_val(
            old(m)@.bank,
            (I2C_BASE_ADDR + I2C_CON) as u32,
        ),
        instance == 0 ==> reg_val(
            final(m)@.bank,
            (CONTROL_MODULE_BASE + CONTROL_CONF_I2C0_SDA) as u32,
        ) == (CONF_I2C0_RXACTIVE | CONF_I2C0_SLEWCTRL | CONF_I2C0_PUTYPESEL) && reg_val(
            final(m)@.bank,
            (CONTROL_MODULE_BASE + CONTROL_CONF_I2C0_SCL) as u32,
        ) == (CONF_I2C0_RXACTIVE | CONF_I2C0_SLEWCTRL | CONF_I2C0_PUTYPESEL),
        instance != 0 ==> final(m)@ == old(m)@,
{
    if instance == 0 {
        m.write32(
            CONTROL_MODULE_BASE,
            CONTROL_CONF_I2C0_SDA,
            CONF_I2C0_RXACTIVE | CONF_I2C0_SLEWCTRL | CONF_I2C0_PUTYPESEL,
        );
        m.write32(
            CONTROL_MODULE_BASE,
            CONTROL_CONF_I2C0_SCL,
            CONF_I2C0_RXACTIVE | CONF_I2C0_SLEWCTRL | CONF_I2C0_PUTYPESEL,
        );
    }
}

/// Sends a whole byte string to the device at `addr` as one write
/// transaction: address, length, start, the data bytes under the
/// transmit-ready flag, then the stop condition.
#[verifier::rlimit(100)]
pub fn device_write(m: &mut Machine, addr: u8, data: &[u8])
    requires
        m_wf(old(m)@),
        old(m)@.i2c.rx.len() == 0,
        data@.len() <= 255,
    ensures
        m_wf(final(m)@),
        final(m)@.pmic == (if addr == PMIC_TPS65217_I2C_SLAVE_ADDR {
            pmic_apply(old(m)@.pmic, data@)
        } else {
            old(m)@.pmic
        }),
        final(m)@.i2c.active == false,
        final(m)@.i2c.stop == true,
        final(m)@.i2c.cnt == data@.len(),
        final(m)@.i2c.rx.len() == 0,
        final(m)@.dram == old(m)@.dram,
        final(m)@.tables == old(m)@.tables,
        final(m)@.console == old(m)@.console,
        final(m)@.uart_rx == old(m)@.uart_rx,
        final(m)@.eeprom == old(m)@.eeprom,
        final(m)@.sd == old(m)@.sd,
        final(m)@.cpu == old(m)@.cpu,
        final(m)@.layout == old(m)@.layout,
        final(m)@.faults == old(m)@.faults,
        reg_val(final(m)@.bank, (I2C_BASE_ADDR + I2C_SA) as u32) == addr as u32,
        forall|a: u32| !in_i2c(a) ==> #[trigger] reg_val(final(m)@.bank, a) == reg_val(
            old(m)@.bank,
            a,
        ),
{
    proof {
        lemma_con_bits();
        lemma_raw_decode();
    }
    let n = data.len();
    master_slave_addr_set(m, addr);
    set_data_count(m, n as u32);
    master_int_clear_ex(m, I2C_INTERRUPT_FLAG_TO_CLR);
    master_control(m, I2C_CFG_MST_TX);
    master_start(m);
    proof {
        assert(data@.take(0) =~= Seq::<u8>::empty());
    }
    m.wait_masked_eq(I2C_BASE_ADDR, I2C_IRQSTATUS_RAW, I2C_IRQSTATUS_RAW_BB, I2C_IRQSTATUS_RAW_BB);

    let mut i: usize = 0;
    let mut len = n;
    while len > 0
        invariant
            m_wf(m@),
            i + len == n,
            n == data@.len(),
            n <= 255,
            m@.i2c.active,
            m@.i2c.txmode,
            m@.i2c.stop == false,
            m@.i2c.cnt == n,
            m@.i2c.rx.len() == 0,
            m@.i2c.tx == data@.take(i as int),
            m@.pmic == old(m)@.pmic,
            m@.dram == old(m)@.dram,
            m@.tables == old(m)@.tables,
            m@.console == old(m)@.console,
            m@.uart_rx == old(m)@.uart_rx,
            m@.eeprom == old(m)@.eeprom,
            m@.sd == old(m)@.sd,
            m@.cpu == old(m)@.cpu,
            m@.layout == old(m)@.layout,
            m@.faults == old(m)@.faults,
            reg_val(m@.bank, (I2C_BASE_ADDR + I2C_SA) as u32) == addr as u32,
            forall|a: u32| !in_i2c(a) ==> #[trigger] reg_val(m@.bank, a) == reg_val(
                old(m)@.bank,
                a,
            ),
        decreases len,
    {
        proof {
            lemma_con_bits();
            lemma_raw_decode();
        }
        let ghost mb = m@;
        let ready = master_int_raw_status_ex(m, I2C_INT_TRANSMIT_READY);
        if ready {
            let b = data[i];
            master_data_put(m, b);
            master_int_clear_ex(m, I2C_INT_TRANSMIT_READY);
            proof {
                assert(m@.i2c.tx =~= data@.take(i + 1));
                assert forall|a: u32| !in_i2c(a) implies reg_val(m@.bank, a) == reg_val(
                    old(m)@.bank,
                    a,
                ) by {
                    assert(in_i2c((I2C_BASE_ADDR + I2C_DATA) as u32));
                    assert(in_i2c((I2C_BASE_ADDR + I2C_IRQSTATUS) as u32));
                    assert(reg_val(mb.bank, a) == reg_val(old(m)@.bank, a));
                }
            }
            i = i + 1;
            len = len - 1;
        } else {
            proof {
                // With bytes still to send the engine reports transmit
                // ready, so this path never runs.
                assert(false);
            }
        }
    }
    proof {
        assert(data@.take(n as int) =~= data@);
    }
    let ghost ml = m@;
    master_stop(m);
    m.wait_masked_eq(I2C_BASE_ADDR, I2C_IRQSTATUS_RAW, I2C_IRQSTATUS_BF, I2C_IRQSTATUS_BF);
    let ghost ms = m@;
    master_int_clear_ex(m, I2C_INT_STOP_CONDITION);
    proof {
        assert forall|a: u32| !in_i2c(a) implies reg_val(m@.bank, a) == reg_val(
            old(m)@.bank,
            a,
        ) by {
            assert(in_i2c((I2C_BASE_ADDR + I2C_CON) as u32));
            assert(in_i2c((I2C_BASE_ADDR + I2C_IRQSTATUS) as u32));
            assert(in_i2c((I2C_BASE_ADDR + I2C_SYSS) as u32));
            assert(reg_val(ml.bank, a) == reg_val(old(m)@.bank, a));
            assert(reg_val(ms.bank, a) == reg_val(ml.bank, a));
        }
        assert(reg_val(ms.bank, (I2C_BASE_ADDR + I2C_SA) as u32) == reg_val(
            ml.bank,
            (I2C_BASE_ADDR + I2C_SA) as u32,
        ));
        assert(reg_val(m@.bank, (I2C_BASE_ADDR + I2C_SA) as u32) == addr as u32);
    }
}

/// Brings the I2C module up: clocks, pads, reset, bus timing, enable.
/// The control register still holds its reset value when this runs.
pub fn init(m: &mut Machine)
    requires
        m_wf(old(m)@),
        reg_val(old(m)@.bank, (I2C_BASE_ADDR + I2C_CON) as u32) == 0,
    ensures
        m_wf(final(m)@),
        reg_val(final(m)@.bank, (I2C_BASE_ADDR + I2C_SYSS) as u32) & I2C_SYSS_RDONE
            == I2C_SYSS_RDONE,
        crate::machine::keeps_devices(old(m)@, final(m)@),
        final(m)@.console == old(m)@.console,
        crate::uart::uart_untouched(old(m)@, final(m)@),
        crate::uart::ids_untouched(old(m)@, final(m)@),
        final(m)@.i2c.rx == old(m)@.i2c.rx,
        reg_val(final(m)@.bank, (I2C_BASE_ADDR + I2C_PSC) as u32) == 3,
        reg_val(final(m)@.bank, (I2C_BASE_ADDR + I2C_SCLL) as u32) == 53,
        reg_val(final(m)@.bank, (I2C_BASE_ADDR + I2C_SCLH) as u32) == 55,
        reg_val(final(m)@.bank, (I2C_BASE_ADDR + I2C_CON) as u32) & I2C_CON_I2C_EN
            == I2C_CON_I2C_EN,
{
    proof {
        lemma_con_bits();
        assert(forall|a: u32| #![auto] (((a & !0x8000u32) | (0x8000u32 & 0x8000)) & 0x8000)
            == 0x8000) by (bit_vector);
    }
    init_clocks(m);
    let ghost ga = m@;
    mux_pins(m, 0);
    proof {
        assert(reg_val(m@.bank, (I2C_BASE_ADDR + I2C_CON) as u32) == reg_val(
            ga.bank,
            (I2C_BASE_ADDR + I2C_CON) as u32,
        ));
    }
    master_disable(m);
    soft_reset(m);
    auto_idle_disable(m);
    master_init_clock(m, 48_000_000, 12_000_000, 100_000);
    master_enable(m);
    m.wait_masked_eq(I2C_BASE_ADDR, I2C_SYSS, I2C_SYSS_RDONE, I2C_SYSS_RDONE);
}

} // verus!
