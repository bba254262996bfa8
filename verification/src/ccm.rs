//! Clock-and-power sequencing: PMIC voltage configuration, operating
//! point selection and the PLL lock sequence for the board target; the
//! emulator needs none of it.

use vstd::prelude::*;

use crate::machine::{m_wf, Machine};
use crate::tps::{spec_device_version, spec_efuse, spec_max_opp};
use crate::uart::Platform;

verus! {

/// The clock subsystem could not identify the device.
#[derive(Clone, Copy, PartialEq, Eq, Structural, Debug)]
pub enum CcmError {
    /// The device-version field matches no known silicon.
    UnknownDevice,
}

/// Clock-and-power bring-up: PMIC rails, operating-point voltage, then
/// the four PLLs and the interconnect clocks. An unrecognized device
/// version is fatal before any voltage is pushed for it.
pub fn init(m: &mut Machine, p: Platform) -> (r: Result<(), CcmError>)
    requires
        m_wf(old(m)@),
        old(m)@.i2c.rx.len() == 0,
    ensures
        m_wf(final(m)@),
        final(m)@.dram == old(m)@.dram,
        final(m)@.tables == old(m)@.tables,
        final(m)@.console == old(m)@.console,
        final(m)@.uart_rx == old(m)@.uart_rx,
        final(m)@.sd == old(m)@.sd,
        final(m)@.cpu == old(m)@.cpu,
        final(m)@.layout == old(m)@.layout,
        final(m)@.faults == old(m)@.faults,
        final(m)@.i2c.rx.len() == 0,
        crate::uart::uart_untouched(old(m)@, final(m)@),
        r is Ok <==> (p == Platform::Qemu || spec_max_opp(
            spec_device_version(old(m)@),
            spec_efuse(old(m)@),
        ) <= 9),
        p == Platform::Qemu ==> final(m)@ == old(m)@,
        p == Platform::Bbb && r is Ok ==> crate::cm::pll_locked(
            final(m)@,
            crate::regs::CM_WKUP_CM_IDLEST_DPLL_MPU,
        ) && crate::cm::pll_mult_of(final(m)@, crate::regs::CM_WKUP_CM_CLKSEL_DPLL_MPU)
            == crate::tps::opp_table(
            spec_max_opp(spec_device_version(old(m)@), spec_efuse(old(m)@)) as int,
        ).mpupll_m && final(m)@.pmic.regs[crate::regs::DEFDCDC1 as int] == crate::tps::opp_table(
            spec_max_opp(spec_device_version(old(m)@), spec_efuse(old(m)@)) as int,
        ).volt_sel,
{
    match p {
        Platform::Qemu => Ok(()),
        Platform::Bbb => {
            crate::tps::config_vdd_op_voltage(m);
            let ghost h1 = m@;
            let opp_max_idx = crate::tps::boot_max_opp_get(m);
            if opp_max_idx > 9 {
                proof {
                    lemma_ccm_lcr(old(m)@, h1, m@);
                }
                return Err(CcmError::UnknownDevice);
            }
            let row = crate::tps::opp_row(opp_max_idx);
            proof {
                assert(!crate::machine::pmic_level2(crate::regs::PASSWORD));
            }
            crate::tps::set_vdd10p_voltage(m, row.volt_sel);
            let ghost h2 = m@;
            crate::cm::init_plls(m);
            proof {
                lemma_ccm_lcr(old(m)@, h1, h2);
                let lb = (crate::regs::UART0_BASE_BBB + crate::regs::UART_LCR_OFF) as u32;
                let lq = (crate::regs::UART0_BASE_QEMU + crate::regs::UART_LCR_OFF) as u32;
                assert(crate::bank::reg_val(m@.bank, lb) == crate::bank::reg_val(h2.bank, lb));
                assert(crate::bank::reg_val(m@.bank, lq) == crate::bank::reg_val(h2.bank, lq));
            }
            Ok(())
        },
    }
}

/// The console configuration registers survive the PMIC traffic: they
/// are not I2C registers.
proof fn lemma_ccm_lcr(a: crate::machine::MachineV, b: crate::machine::MachineV, c: crate::machine::MachineV)
    requires
        forall|x: u32| !crate::machine::in_i2c(x) ==> #[trigger] crate::bank::reg_val(b.bank, x)
            == crate::bank::reg_val(a.bank, x),
        forall|x: u32| !crate::machine::in_i2c(x) ==> #[trigger] crate::bank::reg_val(c.bank, x)
            == crate::bank::reg_val(b.bank, x),
    ensures
        crate::uart::uart_untouched(a, c),
{
    let lb = (crate::regs::UART0_BASE_BBB + crate::regs::UART_LCR_OFF) as u32;
    let lq = (crate::regs::UART0_BASE_QEMU + crate::regs::UART_LCR_OFF) as u32;
    assert(!crate::machine::in_i2c(lb));
    assert(!crate::machine::in_i2c(lq));
    assert(crate::bank::reg_val(c.bank, lb) == crate::bank::reg_val(a.bank, lb));
    assert(crate::bank::reg_val(c.bank, lq) == crate::bank::reg_val(a.bank, lq));
}

} // verus!
