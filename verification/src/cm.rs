//! Clock-module driver: device identification, the four PLL state
//! machines, interface clocks and power-domain wakeups.
//!
//! Every PLL runs the same lifecycle: request bypass, wait for the bypass
//! status, reprogram multiplier and dividers, request lock, wait for the
//! lock status. The MPU multiplier comes from the selected operating
//! point; CORE, PER and DDR use the fixed DDR3 configuration.

use vstd::prelude::*;

use crate::bank::reg_val;
use crate::machine::{keeps_devices, m_wf, Machine, MachineV};
use crate::regs::{CLKCTRL_MODULEMODE, CLKCTRL_MODULEMODE_ENABLE, CLKTRCTRL_SW_WKUP,
    CM_CLKMODE_DPLL_MPU, CM_PER_BASE, CM_PER_L3S_CLKSTCTRL, CM_PER_L3_CLKCTRL,
    CM_PER_L3_CLKSTCTRL, CM_PER_L3_INSTR_CLKCTRL, CM_PER_L4FW_CLKCTRL, CM_PER_L4FW_CLKSTCTRL,
    CM_PER_L4HS_CLKCTRL, CM_PER_L4LS_CLKCTRL, CM_PER_L4LS_CLKSTCTRL, CM_WKUP_BASE,
    CM_WKUP_CLKSTCTRL, CM_WKUP_CM_CLKMODE_DPLL_CORE, CM_WKUP_CM_CLKMODE_DPLL_DDR,
    CM_WKUP_CM_CLKMODE_DPLL_PER, CM_WKUP_CM_CLKSEL_DPLL_CORE, CM_WKUP_CM_CLKSEL_DPLL_DDR,
    CM_WKUP_CM_CLKSEL_DPLL_MPU, CM_WKUP_CM_CLKSEL_DPLL_PERIPH, CM_WKUP_CM_DIV_M2_DPLL_DDR,
    CM_WKUP_CM_DIV_M2_DPLL_MPU, CM_WKUP_CM_DIV_M2_DPLL_PER, CM_WKUP_CM_DIV_M4_DPLL_CORE,
    CM_WKUP_CM_DIV_M5_DPLL_CORE, CM_WKUP_CM_DIV_M6_DPLL_CORE, CM_WKUP_CM_IDLEST_DPLL_CORE,
    CM_WKUP_CM_IDLEST_DPLL_DDR, CM_WKUP_CM_IDLEST_DPLL_MPU, CM_WKUP_CM_IDLEST_DPLL_PER,
    CM_WKUP_L4WKUP_CLKCTRL, CONTROL_DEVICE_ID, CONTROL_DEVICE_ID_DEVREV_SHIFT,
    CONTROL_MODULE_BASE, COREPLL_HSD_M4, COREPLL_HSD_M5, COREPLL_HSD_M6, COREPLL_M, COREPLL_N,
    DDRPLL_M2, DDRPLL_M_DDR3, DDRPLL_N, DPLL_CLKOUT_DIV, DPLL_DIV, DPLL_DIV_SHIFT, DPLL_EN,
    DPLL_EN_LOCK_MODE, DPLL_EN_MN_BYP_MODE, DPLL_MULT, DPLL_MULT_SHIFT, HSDIVIDER_CLKOUT_DIV,
    MPUPLL_M2, MPUPLL_N, PERPLL_M, PERPLL_M2, PERPLL_N, ST_DPLL_CLK, ST_MN_BYPASS};
use crate::uart::uart_untouched;

verus! {

/// The device-version field of the control module's device-ID register.
pub fn get_device_version(m: &mut Machine) -> (r: u32)
    requires
        m_wf(old(m)@),
    ensures
        final(m)@ == old(m)@,
        r == reg_val(old(m)@.bank, (CONTROL_MODULE_BASE + CONTROL_DEVICE_ID) as u32) >> 28,
{
    let id = m.read32(CONTROL_MODULE_BASE, CONTROL_DEVICE_ID);
    id >> CONTROL_DEVICE_ID_DEVREV_SHIFT
}

/// The PLL behind the given idle-status register shows the locked status.
pub open spec fn pll_locked(mv: MachineV, idlest_off: u32) -> bool {
    reg_val(mv.bank, (CM_WKUP_BASE + idlest_off) as u32) == ST_DPLL_CLK
}

/// Multiplier and divider the given clock-select register holds.
pub open spec fn pll_mult_of(mv: MachineV, clksel_off: u32) -> u32 {
    (reg_val(mv.bank, (CM_WKUP_BASE + clksel_off) as u32) >> 8) & 0x7FF
}

pub open spec fn pll_div_of(mv: MachineV, clksel_off: u32) -> u32 {
    reg_val(mv.bank, (CM_WKUP_BASE + clksel_off) as u32) & 0x7F
}

/// Registers the MPU PLL sequence touches.
pub open spec fn mpu_pll_touches(a: u32) -> bool {
    ||| a == CM_WKUP_BASE + CM_CLKMODE_DPLL_MPU
    ||| a == CM_WKUP_BASE + CM_WKUP_CM_IDLEST_DPLL_MPU
    ||| a == CM_WKUP_BASE + CM_WKUP_CM_CLKSEL_DPLL_MPU
    ||| a == CM_WKUP_BASE + CM_WKUP_CM_DIV_M2_DPLL_MPU
}

/// Registers the CORE PLL sequence touches.
pub open spec fn core_pll_touches(a: u32) -> bool {
    ||| a == CM_WKUP_BASE + CM_WKUP_CM_CLKMODE_DPLL_CORE
    ||| a == CM_WKUP_BASE + CM_WKUP_CM_IDLEST_DPLL_CORE
    ||| a == CM_WKUP_BASE + CM_WKUP_CM_CLKSEL_DPLL_CORE
    ||| a == CM_WKUP_BASE + CM_WKUP_CM_DIV_M4_DPLL_CORE
    ||| a == CM_WKUP_BASE + CM_WKUP_CM_DIV_M5_DPLL_CORE
    ||| a == CM_WKUP_BASE + CM_WKUP_CM_DIV_M6_DPLL_CORE
}

/// Registers the PER PLL sequence touches.
pub open spec fn per_pll_touches(a: u32) -> bool {
    ||| a == CM_WKUP_BASE + CM_WKUP_CM_CLKMODE_DPLL_PER
    ||| a == CM_WKUP_BASE + CM_WKUP_CM_IDLEST_DPLL_PER
    ||| a == CM_WKUP_BASE + CM_WKUP_CM_CLKSEL_DPLL_PERIPH
    ||| a == CM_WKUP_BASE + CM_WKUP_CM_DIV_M2_DPLL_PER
}

/// Registers the DDR PLL sequence touches.
pub open spec fn ddr_pll_touches(a: u32) -> bool {
    ||| a == CM_WKUP_BASE + CM_WKUP_CM_CLKMODE_DPLL_DDR
    ||| a == CM_WKUP_BASE + CM_WKUP_CM_IDLEST_DPLL_DDR
    ||| a == CM_WKUP_BASE + CM_WKUP_CM_CLKSEL_DPLL_DDR
    ||| a == CM_WKUP_BASE + CM_WKUP_CM_DIV_M2_DPLL_DDR
}

/// Registers the interface-clock sequence touches.
pub open spec fn iface_touches(a: u32) -> bool {
    ||| a == CM_PER_BASE + CM_PER_L3_CLKCTRL
    ||| a == CM_PER_BASE + CM_PER_L4LS_CLKCTRL
    ||| a == CM_PER_BASE + CM_PER_L4FW_CLKCTRL
    ||| a == CM_WKUP_BASE + CM_WKUP_L4WKUP_CLKCTRL
    ||| a == CM_PER_BASE + CM_PER_L3_INSTR_CLKCTRL
    ||| a == CM_PER_BASE + CM_PER_L4HS_CLKCTRL
}

/// Registers the power-domain sequence touches.
pub open spec fn pd_touches(a: u32) -> bool {
    ||| a == CM_PER_BASE + CM_PER_L3_CLKSTCTRL
    ||| a == CM_PER_BASE + CM_PER_L4LS_CLKSTCTRL
    ||| a == CM_PER_BASE + CM_PER_L4FW_CLKSTCTRL
    ||| a == CM_WKUP_BASE + CM_WKUP_CLKSTCTRL
    ||| a == CM_PER_BASE + CM_PER_L3S_CLKSTCTRL
}

/// Bit identities of the PLL register updates.
proof fn lemma_pll_bits()
    by (bit_vector)
    ensures
        forall|x: u32| #![auto] (((x & !0x7u32) | 0x4) & 0x7) == 0x4,

        forall|x: u32| #![auto] (((x & !0x7u32) | (0x7u32 & 0x7)) & 0x7) == 0x7,
        forall|x: u32, v: u32, mk: u32| #![auto] (((x & !mk) | (v & mk)) & mk) == (v & mk),
        0x7u32 & 0x7 == 0x7,
        0x4u32 & 0x7 == 0x4,
        0x2u32 & 0x3 == 0x2,
        0x100u32 & 0x100 == 0x100,
        0x1u32 & 0x1 == 0x1,
        forall|v: u32| #![auto] (((v & !0x30000u32 & !0x3) | 0x2) & 0x30000) == 0,
        forall|x: u32| #![auto] ((((x & !0x2u32) | (0x2u32 & 0x2)) | 0xFFF0) & 0x2) == 0x2,
        forall|y: u32| #![auto] ((y | 0xFFF0u32) & 0xFFF0) == 0xFFF0,
        forall|v: u32| #![auto] (((v & !0x30000u32 & !0x3) | 0x2) & 0x3) == 0x2,
        2u32 & 2 == 2,
        forall|y: u32, u: u32, mlt: u32| mlt <= 0x7FF && u == (mlt << 8u32) | (23u32 << 0u32)
            ==> ((((y & !(0x7FF00u32 | 0x7F)) & !u) | (u & u)) >> 8u32) & 0x7FF == mlt,
        forall|y: u32, u: u32, mlt: u32| mlt <= 0x7FF && u == (mlt << 8u32) | (23u32 << 0u32)
            ==> ((((y & !(0x7FF00u32 | 0x7F)) & !u) | (u & u)) & 0x7F) == 23,
        ((1000u32 << 8u32) | (23u32 << 0u32)) >> 8u32 == 1000 && (((1000u32 << 8u32) | (23u32
            << 0u32)) >> 8u32) & 0x7FF == 1000 && (((1000u32 << 8u32) | (23u32 << 0u32)) & 0x7F)
            == 23,
        (((960u32 << 8u32) | (23u32 << 0u32)) >> 8u32) & 0x7FF == 960 && (((960u32 << 8u32) | (
        23u32 << 0u32)) & 0x7F) == 23,
        forall|y: u32, u: u32| u == (400u32 << 8u32) | (23u32 << 0u32) ==> ((((y & !(0x7FF00u32
            | 0x7F)) & !(0x7FF00u32 | 0x7F)) | (u & (0x7FF00u32 | 0x7F))) >> 8u32) & 0x7FF == 400,
        forall|y: u32, u: u32| u == (400u32 << 8u32) | (23u32 << 0u32) ==> (((y & !(0x7FF00u32
            | 0x7F)) & !(0x7FF00u32 | 0x7F)) | (u & (0x7FF00u32 | 0x7F))) & 0x7F == 23,
{
}

/// A post-divider update: clearing the five-bit field and ORing a value
/// into it yields exactly that field, with the other bits kept.
proof fn lemma_div_field(x: u32, c: u32)
    by (bit_vector)
    requires
        c <= 0x1F,
    ensures
        (((x & !0x1Fu32) | c) & 0x1F) == c,
        (((x & !0x1Fu32) | c) & !0x1F) == (x & !0x1F),
{
}

/// Locks the MPU PLL at the given multiplier over the fixed reference
/// divider, through bypass, reprogram and relock.
#[verifier::rlimit(100)]
pub fn init_mpu_pll(m: &mut Machine, pll_mult: u32)
    requires
        m_wf(old(m)@),
        pll_mult <= 0x7FF,
    ensures
        m_wf(final(m)@),
        keeps_devices(old(m)@, final(m)@),
        final(m)@.console == old(m)@.console,
        pll_locked(final(m)@, CM_WKUP_CM_IDLEST_DPLL_MPU),
        pll_mult_of(final(m)@, CM_WKUP_CM_CLKSEL_DPLL_MPU) == pll_mult,
        pll_div_of(final(m)@, CM_WKUP_CM_CLKSEL_DPLL_MPU) == MPUPLL_N,
        reg_val(final(m)@.bank, (CM_WKUP_BASE + CM_WKUP_CM_DIV_M2_DPLL_MPU) as u32)
            & DPLL_CLKOUT_DIV == MPUPLL_M2,
        reg_val(final(m)@.bank, (CM_WKUP_BASE + CM_WKUP_CM_DIV_M2_DPLL_MPU) as u32)
            & !DPLL_CLKOUT_DIV == reg_val(
            old(m)@.bank,
            (CM_WKUP_BASE + CM_WKUP_CM_DIV_M2_DPLL_MPU) as u32,
        ) & !DPLL_CLKOUT_DIV,
        forall|a: u32| !mpu_pll_touches(a) ==> #[trigger] reg_val(final(m)@.bank, a) == reg_val(
            old(m)@.bank,
            a,
        ),
{
    proof {
        lemma_pll_bits();
    }
    // Enter bypass and wait for it.
    let mut reg_v = m.read_masked(CM_WKUP_BASE, CM_CLKMODE_DPLL_MPU, !DPLL_EN);
    reg_v = reg_v | DPLL_EN_MN_BYP_MODE;
    m.write32(CM_WKUP_BASE, CM_CLKMODE_DPLL_MPU, reg_v);
    m.wait_masked_eq(CM_WKUP_BASE, CM_WKUP_CM_IDLEST_DPLL_MPU, ST_MN_BYPASS, ST_MN_BYPASS);

    // Multiplier and divider.
    m.clear_bits(CM_WKUP_BASE, CM_WKUP_CM_CLKSEL_DPLL_MPU, DPLL_MULT | DPLL_DIV);
    let update = (pll_mult << DPLL_MULT_SHIFT) | (MPUPLL_N << DPLL_DIV_SHIFT);
    m.write_masked(CM_WKUP_BASE, CM_WKUP_CM_CLKSEL_DPLL_MPU, update, update);

    // Post divider.
    let mut m2 = m.read32(CM_WKUP_BASE, CM_WKUP_CM_DIV_M2_DPLL_MPU);
    proof {
        lemma_div_field(m2, MPUPLL_M2);
    }
    m2 = m2 & !DPLL_CLKOUT_DIV;
    m2 = m2 | MPUPLL_M2;
    m.write32(CM_WKUP_BASE, CM_WKUP_CM_DIV_M2_DPLL_MPU, m2);

    // Lock and wait for it.
    m.write_masked(CM_WKUP_BASE, CM_CLKMODE_DPLL_MPU, DPLL_EN, DPLL_EN);
    m.wait_masked_eq(CM_WKUP_BASE, CM_WKUP_CM_IDLEST_DPLL_MPU, ST_DPLL_CLK, ST_DPLL_CLK);
}

/// Locks the CORE PLL at the fixed DDR3 multiplier and programs the three
/// high-speed dividers.
#[verifier::rlimit(100)]
pub fn init_core_pll(m: &mut Machine)
    requires
        m_wf(old(m)@),
    ensures
        m_wf(final(m)@),
        keeps_devices(old(m)@, final(m)@),
        final(m)@.console == old(m)@.console,
        pll_locked(final(m)@, CM_WKUP_CM_IDLEST_DPLL_CORE),
        pll_mult_of(final(m)@, CM_WKUP_CM_CLKSEL_DPLL_CORE) == COREPLL_M,
        pll_div_of(final(m)@, CM_WKUP_CM_CLKSEL_DPLL_CORE) == COREPLL_N,
        reg_val(final(m)@.bank, (CM_WKUP_BASE + CM_WKUP_CM_DIV_M4_DPLL_CORE) as u32)
            & HSDIVIDER_CLKOUT_DIV == COREPLL_HSD_M4,
        reg_val(final(m)@.bank, (CM_WKUP_BASE + CM_WKUP_CM_DIV_M5_DPLL_CORE) as u32)
            & HSDIVIDER_CLKOUT_DIV == COREPLL_HSD_M5,
        reg_val(final(m)@.bank, (CM_WKUP_BASE + CM_WKUP_CM_DIV_M6_DPLL_CORE) as u32)
            & HSDIVIDER_CLKOUT_DIV == COREPLL_HSD_M6,
        reg_val(final(m)@.bank, (CM_WKUP_BASE + CM_WKUP_CM_DIV_M4_DPLL_CORE) as u32)
            & !HSDIVIDER_CLKOUT_DIV == reg_val(
            old(m)@.bank,
            (CM_WKUP_BASE + CM_WKUP_CM_DIV_M4_DPLL_CORE) as u32,
        ) & !HSDIVIDER_CLKOUT_DIV,
        reg_val(final(m)@.bank, (CM_WKUP_BASE + CM_WKUP_CM_DIV_M5_DPLL_CORE) as u32)
            & !HSDIVIDER_CLKOUT_DIV == reg_val(
            old(m)@.bank,
            (CM_WKUP_BASE + CM_WKUP_CM_DIV_M5_DPLL_CORE) as u32,
        ) & !HSDIVIDER_CLKOUT_DIV,
        reg_val(final(m)@.bank, (CM_WKUP_BASE + CM_WKUP_CM_DIV_M6_DPLL_CORE) as u32)
            & !HSDIVIDER_CLKOUT_DIV == reg_val(
            old(m)@.bank,
            (CM_WKUP_BASE + CM_WKUP_CM_DIV_M6_DPLL_CORE) as u32,
        ) & !HSDIVIDER_CLKOUT_DIV,
        forall|a: u32| !core_pll_touches(a) ==> #[trigger] reg_val(final(m)@.bank, a) == reg_val(
            old(m)@.bank,
            a,
        ),
{
    proof {
        lemma_pll_bits();
    }
    m.write_masked(
        CM_WKUP_BASE,
        CM_WKUP_CM_CLKMODE_DPLL_CORE,
        DPLL_EN,
        DPLL_EN_MN_BYP_MODE,
    );
    m.wait_masked_eq(CM_WKUP_BASE, CM_WKUP_CM_IDLEST_DPLL_CORE, ST_MN_BYPASS, ST_MN_BYPASS);

    m.write32(
        CM_WKUP_BASE,
        CM_WKUP_CM_CLKSEL_DPLL_CORE,
        (COREPLL_M << DPLL_MULT_SHIFT) | (COREPLL_N << DPLL_DIV_SHIFT),
    );

    let ghost x4 = reg_val(m@.bank, (CM_WKUP_BASE + CM_WKUP_CM_DIV_M4_DPLL_CORE) as u32);
    let mut reg_v = m.read_masked(CM_WKUP_BASE, CM_WKUP_CM_DIV_M4_DPLL_CORE, !HSDIVIDER_CLKOUT_DIV);
    proof {
        lemma_div_field(x4, COREPLL_HSD_M4);
    }
    reg_v = reg_v | COREPLL_HSD_M4;
    m.write32(CM_WKUP_BASE, CM_WKUP_CM_DIV_M4_DPLL_CORE, reg_v);

    let ghost x5 = reg_val(m@.bank, (CM_WKUP_BASE + CM_WKUP_CM_DIV_M5_DPLL_CORE) as u32);
    reg_v = m.read_masked(CM_WKUP_BASE, CM_WKUP_CM_DIV_M5_DPLL_CORE, !HSDIVIDER_CLKOUT_DIV);
    proof {
        lemma_div_field(x5, COREPLL_HSD_M5);
    }
    reg_v = reg_v | COREPLL_HSD_M5;
    m.write32(CM_WKUP_BASE, CM_WKUP_CM_DIV_M5_DPLL_CORE, reg_v);

    let ghost x6 = reg_val(m@.bank, (CM_WKUP_BASE + CM_WKUP_CM_DIV_M6_DPLL_CORE) as u32);
    reg_v = m.read_masked(CM_WKUP_BASE, CM_WKUP_CM_DIV_M6_DPLL_CORE, !HSDIVIDER_CLKOUT_DIV);
    proof {
        lemma_div_field(x6, COREPLL_HSD_M6);
    }
    reg_v = reg_v | COREPLL_HSD_M6;
    m.write32(CM_WKUP_BASE, CM_WKUP_CM_DIV_M6_DPLL_CORE, reg_v);

    m.write_masked(CM_WKUP_BASE, CM_WKUP_CM_CLKMODE_DPLL_CORE, DPLL_EN, DPLL_EN);
    m.wait_masked_eq(CM_WKUP_BASE, CM_WKUP_CM_IDLEST_DPLL_CORE, ST_DPLL_CLK, ST_DPLL_CLK);
}

/// Locks the peripheral PLL at the fixed DDR3 multiplier.
#[verifier::rlimit(100)]
pub fn init_per_pll(m: &mut Machine)
    requires
        m_wf(old(m)@),
    ensures
        m_wf(final(m)@),
        keeps_devices(old(m)@, final(m)@),
        final(m)@.console == old(m)@.console,
        pll_locked(final(m)@, CM_WKUP_CM_IDLEST_DPLL_PER),
        pll_mult_of(final(m)@, CM_WKUP_CM_CLKSEL_DPLL_PERIPH) == PERPLL_M,
        pll_div_of(final(m)@, CM_WKUP_CM_CLKSEL_DPLL_PERIPH) == PERPLL_N,
        reg_val(final(m)@.bank, (CM_WKUP_BASE + CM_WKUP_CM_DIV_M2_DPLL_PER) as u32)
            & DPLL_CLKOUT_DIV == PERPLL_M2,
        reg_val(final(m)@.bank, (CM_WKUP_BASE + CM_WKUP_CM_DIV_M2_DPLL_PER) as u32)
            & !DPLL_CLKOUT_DIV == reg_val(
            old(m)@.bank,
            (CM_WKUP_BASE + CM_WKUP_CM_DIV_M2_DPLL_PER) as u32,
        ) & !DPLL_CLKOUT_DIV,
        forall|a: u32| !per_pll_touches(a) ==> #[trigger] reg_val(final(m)@.bank, a) == reg_val(
            old(m)@.bank,
            a,
        ),
{
    proof {
        lemma_pll_bits();
    }
    let mut reg_v = m.read_masked(CM_WKUP_BASE, CM_WKUP_CM_CLKMODE_DPLL_PER, !DPLL_EN);
    reg_v = reg_v | DPLL_EN_MN_BYP_MODE;
    m.write32(CM_WKUP_BASE, CM_WKUP_CM_CLKMODE_DPLL_PER, reg_v);
    m.wait_masked_eq(CM_WKUP_BASE, CM_WKUP_CM_IDLEST_DPLL_PER, ST_MN_BYPASS, ST_MN_BYPASS);

    m.clear_bits(CM_WKUP_BASE, CM_WKUP_CM_CLKSEL_DPLL_PERIPH, DPLL_MULT | DPLL_DIV);
    m.write32(
        CM_WKUP_BASE,
        CM_WKUP_CM_CLKSEL_DPLL_PERIPH,
        (PERPLL_M << DPLL_MULT_SHIFT) | (PERPLL_N << DPLL_DIV_SHIFT),
    );

    let ghost xp = reg_val(m@.bank, (CM_WKUP_BASE + CM_WKUP_CM_DIV_M2_DPLL_PER) as u32);
    reg_v = m.read_masked(CM_WKUP_BASE, CM_WKUP_CM_DIV_M2_DPLL_PER, !DPLL_CLKOUT_DIV);
    proof {
        lemma_div_field(xp, PERPLL_M2);
    }
    reg_v = reg_v | PERPLL_M2;
    m.write32(CM_WKUP_BASE, CM_WKUP_CM_DIV_M2_DPLL_PER, reg_v);

    m.write_masked(CM_WKUP_BASE, CM_WKUP_CM_CLKMODE_DPLL_PER, DPLL_EN, DPLL_EN);
    m.wait_masked_eq(CM_WKUP_BASE, CM_WKUP_CM_IDLEST_DPLL_PER, ST_DPLL_CLK, ST_DPLL_CLK);
}

/// Locks the DDR PLL at the DDR3 multiplier.
#[verifier::rlimit(100)]
pub fn init_ddr_pll(m: &mut Machine)
    requires
        m_wf(old(m)@),
    ensures
        m_wf(final(m)@),
        keeps_devices(old(m)@, final(m)@),
        final(m)@.console == old(m)@.console,
        pll_locked(final(m)@, CM_WKUP_CM_IDLEST_DPLL_DDR),
        pll_mult_of(final(m)@, CM_WKUP_CM_CLKSEL_DPLL_DDR) == DDRPLL_M_DDR3,
        pll_div_of(final(m)@, CM_WKUP_CM_CLKSEL_DPLL_DDR) == DDRPLL_N,
        reg_val(final(m)@.bank, (CM_WKUP_BASE + CM_WKUP_CM_DIV_M2_DPLL_DDR) as u32)
            & DPLL_CLKOUT_DIV == DDRPLL_M2,
        reg_val(final(m)@.bank, (CM_WKUP_BASE + CM_WKUP_CM_DIV_M2_DPLL_DDR) as u32)
            & !DPLL_CLKOUT_DIV == reg_val(
            old(m)@.bank,
            (CM_WKUP_BASE + CM_WKUP_CM_DIV_M2_DPLL_DDR) as u32,
        ) & !DPLL_CLKOUT_DIV,
        forall|a: u32| !ddr_pll_touches(a) ==> #[trigger] reg_val(final(m)@.bank, a) == reg_val(
            old(m)@.bank,
            a,
        ),
{
    proof {
        lemma_pll_bits();
    }
    let mut reg_v = m.read_masked(CM_WKUP_BASE, CM_WKUP_CM_CLKMODE_DPLL_DDR, !DPLL_EN);
    reg_v = reg_v | DPLL_EN_MN_BYP_MODE;
    m.write32(CM_WKUP_BASE, CM_WKUP_CM_CLKMODE_DPLL_DDR, reg_v);
    m.wait_masked_eq(CM_WKUP_BASE, CM_WKUP_CM_IDLEST_DPLL_DDR, ST_MN_BYPASS, ST_MN_BYPASS);

    m.clear_bits(CM_WKUP_BASE, CM_WKUP_CM_CLKSEL_DPLL_DDR, DPLL_MULT | DPLL_DIV);
    let update = (DDRPLL_M_DDR3 << DPLL_MULT_SHIFT) | (DDRPLL_N << DPLL_DIV_SHIFT);
    m.write_masked(CM_WKUP_BASE, CM_WKUP_CM_CLKSEL_DPLL_DDR, DPLL_MULT | DPLL_DIV, update);

    let ghost xd = reg_val(m@.bank, (CM_WKUP_BASE + CM_WKUP_CM_DIV_M2_DPLL_DDR) as u32);
    reg_v = m.read_masked(CM_WKUP_BASE, CM_WKUP_CM_DIV_M2_DPLL_DDR, !DPLL_CLKOUT_DIV);
    proof {
        lemma_div_field(xd, DDRPLL_M2);
    }
    reg_v = reg_v | DDRPLL_M2;
    m.write32(CM_WKUP_BASE, CM_WKUP_CM_DIV_M2_DPLL_DDR, reg_v);

    m.write_masked(CM_WKUP_BASE, CM_WKUP_CM_CLKMODE_DPLL_DDR, DPLL_EN, DPLL_EN);
    m.wait_masked_eq(CM_WKUP_BASE, CM_WKUP_CM_IDLEST_DPLL_DDR, ST_DPLL_CLK, ST_DPLL_CLK);
}

/// Enables the interconnect module clocks and waits for each to report
/// the enabled mode.
#[verifier::rlimit(100)]
pub fn init_interface_clk(m: &mut Machine)
    requires
        m_wf(old(m)@),
    ensures
        m_wf(final(m)@),
        keeps_devices(old(m)@, final(m)@),
        final(m)@.console == old(m)@.console,
        uart_untouched(old(m)@, final(m)@),
        reg_val(final(m)@.bank, (CM_PER_BASE + CM_PER_L3_CLKCTRL) as u32) & CLKCTRL_MODULEMODE
            == CLKCTRL_MODULEMODE_ENABLE,
        reg_val(final(m)@.bank, (CM_PER_BASE + CM_PER_L4LS_CLKCTRL) as u32) & CLKCTRL_MODULEMODE
            == CLKCTRL_MODULEMODE_ENABLE,
        reg_val(final(m)@.bank, (CM_PER_BASE + CM_PER_L4FW_CLKCTRL) as u32) & CLKCTRL_MODULEMODE
            == CLKCTRL_MODULEMODE_ENABLE,
        reg_val(final(m)@.bank, (CM_WKUP_BASE + CM_WKUP_L4WKUP_CLKCTRL) as u32)
            & CLKCTRL_MODULEMODE == CLKCTRL_MODULEMODE_ENABLE,
        reg_val(final(m)@.bank, (CM_PER_BASE + CM_PER_L3_INSTR_CLKCTRL) as u32)
            & CLKCTRL_MODULEMODE == CLKCTRL_MODULEMODE_ENABLE,
        reg_val(final(m)@.bank, (CM_PER_BASE + CM_PER_L4HS_CLKCTRL) as u32) & CLKCTRL_MODULEMODE
            == CLKCTRL_MODULEMODE_ENABLE,
        forall|a: u32| !iface_touches(a) ==> #[trigger] reg_val(final(m)@.bank, a) == reg_val(
            old(m)@.bank,
            a,
        ),
{
    proof {
        lemma_pll_bits();
    }
    m.write_masked(CM_PER_BASE, CM_PER_L3_CLKCTRL, CLKCTRL_MODULEMODE_ENABLE,
        CLKCTRL_MODULEMODE_ENABLE);
    m.wait_masked_eq(CM_PER_BASE, CM_PER_L3_CLKCTRL, CLKCTRL_MODULEMODE,
        CLKCTRL_MODULEMODE_ENABLE);
    m.write_masked(CM_PER_BASE, CM_PER_L4LS_CLKCTRL, CLKCTRL_MODULEMODE_ENABLE,
        CLKCTRL_MODULEMODE_ENABLE);
    m.wait_masked_eq(CM_PER_BASE, CM_PER_L4LS_CLKCTRL, CLKCTRL_MODULEMODE,
        CLKCTRL_MODULEMODE_ENABLE);
    m.write_masked(CM_PER_BASE, CM_PER_L4FW_CLKCTRL, CLKCTRL_MODULEMODE_ENABLE,
        CLKCTRL_MODULEMODE_ENABLE);
    m.wait_masked_eq(CM_PER_BASE, CM_PER_L4FW_CLKCTRL, CLKCTRL_MODULEMODE,
        CLKCTRL_MODULEMODE_ENABLE);
    m.write_masked(CM_WKUP_BASE, CM_WKUP_L4WKUP_CLKCTRL, CLKCTRL_MODULEMODE_ENABLE,
        CLKCTRL_MODULEMODE_ENABLE);
    m.wait_masked_eq(CM_WKUP_BASE, CM_WKUP_L4WKUP_CLKCTRL, CLKCTRL_MODULEMODE,
        CLKCTRL_MODULEMODE_ENABLE);
    m.write_masked(CM_PER_BASE, CM_PER_L3_INSTR_CLKCTRL, CLKCTRL_MODULEMODE_ENABLE,
        CLKCTRL_MODULEMODE_ENABLE);
    m.wait_masked_eq(CM_PER_BASE, CM_PER_L3_INSTR_CLKCTRL, CLKCTRL_MODULEMODE,
        CLKCTRL_MODULEMODE_ENABLE);
    m.write_masked(CM_PER_BASE, CM_PER_L4HS_CLKCTRL, CLKCTRL_MODULEMODE_ENABLE,
        CLKCTRL_MODULEMODE_ENABLE);
    m.wait_masked_eq(CM_PER_BASE, CM_PER_L4HS_CLKCTRL, CLKCTRL_MODULEMODE,
        CLKCTRL_MODULEMODE_ENABLE);
}

/// Requests the software wakeup of the interconnect power domains.
#[verifier::rlimit(100)]
pub fn init_power_domain_transition(m: &mut Machine)
    requires
        m_wf(old(m)@),
    ensures
        m_wf(final(m)@),
        keeps_devices(old(m)@, final(m)@),
        final(m)@.console == old(m)@.console,
        uart_untouched(old(m)@, final(m)@),
        reg_val(final(m)@.bank, (CM_PER_BASE + CM_PER_L3_CLKSTCTRL) as u32) & CLKTRCTRL_SW_WKUP
            == CLKTRCTRL_SW_WKUP,
        reg_val(final(m)@.bank, (CM_PER_BASE + CM_PER_L4LS_CLKSTCTRL) as u32) & CLKTRCTRL_SW_WKUP
            == CLKTRCTRL_SW_WKUP,
        reg_val(final(m)@.bank, (CM_PER_BASE + CM_PER_L4FW_CLKSTCTRL) as u32) & CLKTRCTRL_SW_WKUP
            == CLKTRCTRL_SW_WKUP,
        reg_val(final(m)@.bank, (CM_WKUP_BASE + CM_WKUP_CLKSTCTRL) as u32) & CLKTRCTRL_SW_WKUP
            == CLKTRCTRL_SW_WKUP,
        reg_val(final(m)@.bank, (CM_PER_BASE + CM_PER_L3S_CLKSTCTRL) as u32) & CLKTRCTRL_SW_WKUP
            == CLKTRCTRL_SW_WKUP,
        forall|a: u32| !pd_touches(a) ==> #[trigger] reg_val(final(m)@.bank, a) == reg_val(
            old(m)@.bank,
            a,
        ),
{
    proof {
        lemma_pll_bits();
    }
    m.write_masked(CM_PER_BASE, CM_PER_L3_CLKSTCTRL, CLKTRCTRL_SW_WKUP, CLKTRCTRL_SW_WKUP);
    m.write_masked(CM_PER_BASE, CM_PER_L4LS_CLKSTCTRL, CLKTRCTRL_SW_WKUP, CLKTRCTRL_SW_WKUP);
    m.write_masked(CM_PER_BASE, CM_PER_L4FW_CLKSTCTRL, CLKTRCTRL_SW_WKUP, CLKTRCTRL_SW_WKUP);
    m.write_masked(CM_WKUP_BASE, CM_WKUP_CLKSTCTRL, CLKTRCTRL_SW_WKUP, CLKTRCTRL_SW_WKUP);
    m.write_masked(CM_PER_BASE, CM_PER_L3S_CLKSTCTRL, CLKCTRL_MODULEMODE_ENABLE,
        CLKCTRL_MODULEMODE_ENABLE);
}

/// Locks all four PLLs at the selected operating point, then brings up
/// the interconnect clocks and power domains.
#[verifier::rlimit(100)]
pub fn init_plls(m: &mut Machine)
    requires
        m_wf(old(m)@),
        crate::tps::spec_max_opp(
            crate::tps::spec_device_version(old(m)@),
            crate::tps::spec_efuse(old(m)@),
        ) <= 9,
    ensures
        m_wf(final(m)@),
        keeps_devices(old(m)@, final(m)@),
        final(m)@.console == old(m)@.console,
        pll_locked(final(m)@, CM_WKUP_CM_IDLEST_DPLL_MPU),
        pll_locked(final(m)@, CM_WKUP_CM_IDLEST_DPLL_CORE),
        pll_locked(final(m)@, CM_WKUP_CM_IDLEST_DPLL_PER),
        pll_locked(final(m)@, CM_WKUP_CM_IDLEST_DPLL_DDR),
        pll_mult_of(final(m)@, CM_WKUP_CM_CLKSEL_DPLL_MPU) == crate::tps::opp_table(
            crate::tps::spec_max_opp(
                crate::tps::spec_device_version(old(m)@),
                crate::tps::spec_efuse(old(m)@),
            ) as int,
        ).mpupll_m,
        pll_mult_of(final(m)@, CM_WKUP_CM_CLKSEL_DPLL_CORE) == COREPLL_M,
        pll_mult_of(final(m)@, CM_WKUP_CM_CLKSEL_DPLL_PERIPH) == PERPLL_M,
        pll_mult_of(final(m)@, CM_WKUP_CM_CLKSEL_DPLL_DDR) == DDRPLL_M_DDR3,
        uart_untouched(old(m)@, final(m)@),
{
    let opp_config = crate::tps::get_opp_config(m);
    proof {
        assert(opp_config.mpupll_m <= 0x7FF);
    }
    init_mpu_pll(m, opp_config.mpupll_m);
    let ghost g1 = m@;
    init_core_pll(m);
    let ghost g2 = m@;
    init_per_pll(m);
    let ghost g3 = m@;
    init_ddr_pll(m);
    let ghost g4 = m@;
    init_interface_clk(m);
    let ghost g5 = m@;
    init_power_domain_transition(m);
    proof {
        let im = (CM_WKUP_BASE + CM_WKUP_CM_IDLEST_DPLL_MPU) as u32;
        let sm = (CM_WKUP_BASE + CM_WKUP_CM_CLKSEL_DPLL_MPU) as u32;
        let ic = (CM_WKUP_BASE + CM_WKUP_CM_IDLEST_DPLL_CORE) as u32;
        let sc = (CM_WKUP_BASE + CM_WKUP_CM_CLKSEL_DPLL_CORE) as u32;
        let ip = (CM_WKUP_BASE + CM_WKUP_CM_IDLEST_DPLL_PER) as u32;
        let sp = (CM_WKUP_BASE + CM_WKUP_CM_CLKSEL_DPLL_PERIPH) as u32;
        let id = (CM_WKUP_BASE + CM_WKUP_CM_IDLEST_DPLL_DDR) as u32;
        let sdl = (CM_WKUP_BASE + CM_WKUP_CM_CLKSEL_DPLL_DDR) as u32;
        assert(reg_val(g2.bank, im) == reg_val(g1.bank, im));
        assert(reg_val(g3.bank, im) == reg_val(g2.bank, im));
        assert(reg_val(g4.bank, im) == reg_val(g3.bank, im));
        assert(reg_val(g5.bank, im) == reg_val(g4.bank, im));
        assert(reg_val(m@.bank, im) == reg_val(g5.bank, im));
        assert(reg_val(g2.bank, sm) == reg_val(g1.bank, sm));
        assert(reg_val(g3.bank, sm) == reg_val(g2.bank, sm));
        assert(reg_val(g4.bank, sm) == reg_val(g3.bank, sm));
        assert(reg_val(g5.bank, sm) == reg_val(g4.bank, sm));
        assert(reg_val(m@.bank, sm) == reg_val(g5.bank, sm));
        assert(reg_val(g3.bank, ic) == reg_val(g2.bank, ic));
        assert(reg_val(g4.bank, ic) == reg_val(g3.bank, ic));
        assert(reg_val(g5.bank, ic) == reg_val(g4.bank, ic));
        assert(reg_val(m@.bank, ic) == reg_val(g5.bank, ic));
        assert(reg_val(g3.bank, sc) == reg_val(g2.bank, sc));
        assert(reg_val(g4.bank, sc) == reg_val(g3.bank, sc));
        assert(reg_val(g5.bank, sc) == reg_val(g4.bank, sc));
        assert(reg_val(m@.bank, sc) == reg_val(g5.bank, sc));
        assert(reg_val(g4.bank, ip) == reg_val(g3.bank, ip));
        assert(reg_val(g5.bank, ip) == reg_val(g4.bank, ip));
        assert(reg_val(m@.bank, ip) == reg_val(g5.bank, ip));
        assert(reg_val(g4.bank, sp) == reg_val(g3.bank, sp));
        assert(reg_val(g5.bank, sp) == reg_val(g4.bank, sp));
        assert(reg_val(m@.bank, sp) == reg_val(g5.bank, sp));
        assert(reg_val(g5.bank, id) == reg_val(g4.bank, id));
        assert(reg_val(m@.bank, id) == reg_val(g5.bank, id));
        assert(reg_val(g5.bank, sdl) == reg_val(g4.bank, sdl));
        assert(reg_val(m@.bank, sdl) == reg_val(g5.bank, sdl));
        let lb = (crate::regs::UART0_BASE_BBB + crate::regs::UART_LCR_OFF) as u32;
        let lq = (crate::regs::UART0_BASE_QEMU + crate::regs::UART_LCR_OFF) as u32;
        assert(reg_val(g1.bank, lb) == reg_val(old(m)@.bank, lb));
        assert(reg_val(g2.bank, lb) == reg_val(g1.bank, lb));
        assert(reg_val(g3.bank, lb) == reg_val(g2.bank, lb));
        assert(reg_val(g4.bank, lb) == reg_val(g3.bank, lb));
        assert(reg_val(g5.bank, lb) == reg_val(g4.bank, lb));
        assert(reg_val(m@.bank, lb) == reg_val(g5.bank, lb));
        assert(reg_val(g1.bank, lq) == reg_val(old(m)@.bank, lq));
        assert(reg_val(g2.bank, lq) == reg_val(g1.bank, lq));
        assert(reg_val(g3.bank, lq) == reg_val(g2.bank, lq));
        assert(reg_val(g4.bank, lq) == reg_val(g3.bank, lq));
        assert(reg_val(g5.bank, lq) == reg_val(g4.bank, lq));
        assert(reg_val(m@.bank, lq) == reg_val(g5.bank, lq));
    }
}

} // verus!
