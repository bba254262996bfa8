//! PMIC driver: register reads over the receive path, the level-2
//! password-protected double-write protocol, and selection of the
//! operating performance point from the device version and OPP efuse.

use vstd::prelude::*;

use crate::bank::reg_val;
use crate::i2c::{device_write, master_control, master_data_get, master_data_put,
    master_int_clear_ex, master_slave_addr_set, master_start, master_stop, set_data_count};
use crate::machine::{dev_read, in_i2c, m_wf, pmic_apply, pmic_level2, Machine, MachineV};
use crate::regs::{CONTROL_EFUSE_SMA, CONTROL_MODULE_BASE, DCDC_GO, DCDC_VOLT_SEL_1275MV,
    DEFDCDC1, DEFDCDC2, DEFLS1, DEFLS2, DEFSLEW, DEVICE_VERSION_1_0, DEVICE_VERSION_2_0,
    DEVICE_VERSION_2_1, EFUSE_OPP100_300, EFUSE_OPP100_300_MASK, EFUSE_OPP100_600,
    EFUSE_OPP100_600_MASK, EFUSE_OPP120_720, EFUSE_OPP120_720_MASK, EFUSE_OPP50_300,
    EFUSE_OPPNT_1000, EFUSE_OPPNT_1000_MASK, EFUSE_OPPTB_720, EFUSE_OPPTB_800,
    EFUSE_OPPTB_800_MASK, EFUSE_OPP_MASK, I2C_BASE_ADDR, I2C_CFG_MST_RX, I2C_CFG_MST_TX,
    I2C_INTERRUPT_FLAG_TO_CLR, I2C_INT_RECEIVE_READY, I2C_INT_STOP_CONDITION,
    I2C_INT_TRANSMIT_READY, I2C_IRQSTATUS_ARDY, I2C_IRQSTATUS_BF, I2C_IRQSTATUS_RAW,
    I2C_IRQSTATUS_RAW_BB, I2C_SA, LDO_MASK, LDO_VOLTAGE_OUT_3_3, MASK_ALL_BITS, MPUPLL_M_1000_MHZ,
    MPUPLL_M_275_MHZ, MPUPLL_M_300_MHZ, MPUPLL_M_500_MHZ, MPUPLL_M_600_MHZ, MPUPLL_M_720_MHZ,
    MPUPLL_M_800_MHZ, OPP_NONE, PASSWORD, PASSWORD_UNLOCK, PMIC_TPS65217_I2C_SLAVE_ADDR,
    PMIC_VOLT_SEL_0950MV, PMIC_VOLT_SEL_1100MV, PMIC_VOLT_SEL_1200MV, PMIC_VOLT_SEL_1260MV,
    PMIC_VOLT_SEL_1325MV, POWER_PATH, PROT_LEVEL_2, PROT_LEVEL_NONE, STATUS,
    USB_INPUT_CUR_LIMIT_1300MA, USB_INPUT_CUR_LIMIT_MASK};

verus! {

/// One row of the operating-performance-point table.
#[derive(Clone, Copy, PartialEq, Eq, Structural, Debug)]
pub struct OppConfig {
    /// MPU PLL multiplier for this point.
    pub mpupll_m: u32,
    /// PMIC voltage selector for this point.
    pub volt_sel: u8,
}

/// The fixed ten-row OPP table.
pub open spec fn opp_table(idx: int) -> OppConfig {
    if idx == 0 {
        OppConfig { mpupll_m: MPUPLL_M_275_MHZ, volt_sel: PMIC_VOLT_SEL_1100MV }
    } else if idx == 1 {
        OppConfig { mpupll_m: MPUPLL_M_500_MHZ, volt_sel: PMIC_VOLT_SEL_1100MV }
    } else if idx == 2 {
        OppConfig { mpupll_m: MPUPLL_M_600_MHZ, volt_sel: PMIC_VOLT_SEL_1200MV }
    } else if idx == 3 {
        OppConfig { mpupll_m: MPUPLL_M_720_MHZ, volt_sel: PMIC_VOLT_SEL_1260MV }
    } else if idx == 4 {
        OppConfig { mpupll_m: MPUPLL_M_300_MHZ, volt_sel: PMIC_VOLT_SEL_0950MV }
    } else if idx == 5 {
        OppConfig { mpupll_m: MPUPLL_M_300_MHZ, volt_sel: PMIC_VOLT_SEL_1100MV }
    } else if idx == 6 {
        OppConfig { mpupll_m: MPUPLL_M_600_MHZ, volt_sel: PMIC_VOLT_SEL_1100MV }
    } else if idx == 7 {
        OppConfig { mpupll_m: MPUPLL_M_720_MHZ, volt_sel: PMIC_VOLT_SEL_1200MV }
    } else if idx == 8 {
        OppConfig { mpupll_m: MPUPLL_M_800_MHZ, volt_sel: PMIC_VOLT_SEL_1260MV }
    } else {
        OppConfig { mpupll_m: MPUPLL_M_1000_MHZ, volt_sel: PMIC_VOLT_SEL_1325MV }
    }
}

/// The table row for an index, matching [`opp_table`].
pub fn opp_row(idx: u32) -> (r: OppConfig)
    requires
        idx <= 9,
    ensures
        r == opp_table(idx as int),
{
    if idx == 0 {
        OppConfig { mpupll_m: MPUPLL_M_275_MHZ, volt_sel: PMIC_VOLT_SEL_1100MV }
    } else if idx == 1 {
        OppConfig { mpupll_m: MPUPLL_M_500_MHZ, volt_sel: PMIC_VOLT_SEL_1100MV }
    } else if idx == 2 {
        OppConfig { mpupll_m: MPUPLL_M_600_MHZ, volt_sel: PMIC_VOLT_SEL_1200MV }
    } else if idx == 3 {
        OppConfig { mpupll_m: MPUPLL_M_720_MHZ, volt_sel: PMIC_VOLT_SEL_1260MV }
    } else if idx == 4 {
        OppConfig { mpupll_m: MPUPLL_M_300_MHZ, volt_sel: PMIC_VOLT_SEL_0950MV }
    } else if idx == 5 {
        OppConfig { mpupll_m: MPUPLL_M_300_MHZ, volt_sel: PMIC_VOLT_SEL_1100MV }
    } else if idx == 6 {
        OppConfig { mpupll_m: MPUPLL_M_600_MHZ, volt_sel: PMIC_VOLT_SEL_1100MV }
    } else if idx == 7 {
        OppConfig { mpupll_m: MPUPLL_M_720_MHZ, volt_sel: PMIC_VOLT_SEL_1200MV }
    } else if idx == 8 {
        OppConfig { mpupll_m: MPUPLL_M_800_MHZ, volt_sel: PMIC_VOLT_SEL_1260MV }
    } else {
        OppConfig { mpupll_m: MPUPLL_M_1000_MHZ, volt_sel: PMIC_VOLT_SEL_1325MV }
    }
}

/// The device version the control module reports.
pub open spec fn spec_device_version(mv: MachineV) -> u32 {
    reg_val(mv.bank, (CONTROL_MODULE_BASE + crate::regs::CONTROL_DEVICE_ID) as u32) >> 28
}

/// The supported-OPP efuse field.
pub open spec fn spec_efuse(mv: MachineV) -> u32 {
    reg_val(mv.bank, (CONTROL_MODULE_BASE + CONTROL_EFUSE_SMA) as u32) & EFUSE_OPP_MASK
}

/// The fixed decision tree from device version and efuse bits to the
/// highest supported OPP table index.
pub open spec fn spec_max_opp(version: u32, opp_support: u32) -> u32 {
    if version == DEVICE_VERSION_1_0 {
        EFUSE_OPPTB_720
    } else if version == DEVICE_VERSION_2_0 {
        EFUSE_OPPTB_800
    } else if version == DEVICE_VERSION_2_1 {
        if opp_support & EFUSE_OPPNT_1000_MASK != 0 {
            EFUSE_OPPNT_1000
        } else if opp_support & EFUSE_OPPTB_800_MASK != 0 {
            EFUSE_OPPTB_800
        } else if opp_support & EFUSE_OPP120_720_MASK != 0 {
            EFUSE_OPP120_720
        } else if opp_support & EFUSE_OPP100_600_MASK != 0 {
            EFUSE_OPP100_600
        } else if opp_support & EFUSE_OPP100_300_MASK != 0 {
            EFUSE_OPP100_300
        } else {
            EFUSE_OPP50_300
        }
    } else {
        OPP_NONE
    }
}

/// Reads the supported-OPP efuse field.
pub fn get_opp_data(m: &mut Machine) -> (r: u32)
    requires
        m_wf(old(m)@),
    ensures
        final(m)@ == old(m)@,
        r == spec_efuse(old(m)@),
{
    m.read_masked(CONTROL_MODULE_BASE, CONTROL_EFUSE_SMA, EFUSE_OPP_MASK)
}

/// The highest OPP this device supports, per the fixed decision tree.
pub fn boot_max_opp_get(m: &mut Machine) -> (r: u32)
    requires
        m_wf(old(m)@),
    ensures
        final(m)@ == old(m)@,
        r == spec_max_opp(spec_device_version(old(m)@), spec_efuse(old(m)@)),
{
    let opp_support = get_opp_data(m);
    let device_version = crate::cm::get_device_version(m);
    if device_version == DEVICE_VERSION_1_0 {
        EFUSE_OPPTB_720
    } else if device_version == DEVICE_VERSION_2_0 {
        EFUSE_OPPTB_800
    } else if device_version == DEVICE_VERSION_2_1 {
        if opp_support & EFUSE_OPPNT_1000_MASK != 0 {
            EFUSE_OPPNT_1000
        } else if opp_support & EFUSE_OPPTB_800_MASK != 0 {
            EFUSE_OPPTB_800
        } else if opp_support & EFUSE_OPP120_720_MASK != 0 {
            EFUSE_OPP120_720
        } else if opp_support & EFUSE_OPP100_600_MASK != 0 {
            EFUSE_OPP100_600
        } else if opp_support & EFUSE_OPP100_300_MASK != 0 {
            EFUSE_OPP100_300
        } else {
            EFUSE_OPP50_300
        }
    } else {
        OPP_NONE
    }
}

/// The OPP table row for this device's highest supported point.
pub fn get_opp_config(m: &mut Machine) -> (r: OppConfig)
    requires
        m_wf(old(m)@),
        spec_max_opp(spec_device_version(old(m)@), spec_efuse(old(m)@)) <= 9,
    ensures
        final(m)@ == old(m)@,
        r == opp_table(spec_max_opp(spec_device_version(old(m)@), spec_efuse(old(m)@)) as int),
{
    let opp_max_idx = boot_max_opp_get(m);
    opp_row(opp_max_idx)
}

/// Clears the interrupt sources the transfer helpers poll.
pub fn cleanup_interrupt(m: &mut Machine)
    requires
        m_wf(old(m)@),
    ensures
        m_wf(final(m)@),
        final(m)@ == (MachineV {
            bank: old(m)@.bank.insert(
                (I2C_BASE_ADDR + crate::regs::I2C_IRQSTATUS) as u32,
                I2C_INTERRUPT_FLAG_TO_CLR,
            ),
            ..old(m)@
        }),
{
    master_int_clear_ex(m, I2C_INTERRUPT_FLAG_TO_CLR);
}

/// Receives `dcount` bytes from the addressed device, starting at the
/// device register `offset`: a one-byte send phase addresses the
/// register, a repeated start turns the bus around, and the bytes stream
/// out of the data register. Returns the number of bytes received.
#[verifier::rlimit(100)]
pub fn setup_reception(m: &mut Machine, offset: u8, dcount: u32, buffer: &mut Vec<u8>) -> (r: u32)
    requires
        m_wf(old(m)@),
        old(m)@.i2c.rx.len() == 0,
        1 <= dcount <= 256,
        old(buffer)@.len() >= dcount,
    ensures
        m_wf(final(m)@),
        r == dcount,
        final(buffer)@.len() == old(buffer)@.len(),
        final(buffer)@ == dev_read(
            old(m)@,
            reg_val(old(m)@.bank, (I2C_BASE_ADDR + I2C_SA) as u32),
            seq![offset],
            dcount,
        ) + old(buffer)@.skip(dcount as int),
        final(m)@.i2c.rx.len() == 0,
        final(m)@.i2c.active == false,
        final(m)@.pmic == old(m)@.pmic,
        final(m)@.dram == old(m)@.dram,
        final(m)@.tables == old(m)@.tables,
        final(m)@.console == old(m)@.console,
        final(m)@.uart_rx == old(m)@.uart_rx,
        final(m)@.eeprom == old(m)@.eeprom,
        final(m)@.sd == old(m)@.sd,
        final(m)@.cpu == old(m)@.cpu,
        final(m)@.layout == old(m)@.layout,
        final(m)@.faults == old(m)@.faults,
        reg_val(final(m)@.bank, (I2C_BASE_ADDR + I2C_SA) as u32) == reg_val(
            old(m)@.bank,
            (I2C_BASE_ADDR + I2C_SA) as u32,
        ),
        forall|a: u32| !in_i2c(a) ==> #[trigger] reg_val(final(m)@.bank, a) == reg_val(
            old(m)@.bank,
            a,
        ),
{
    proof {
        crate::i2c::lemma_con_bits();
        crate::i2c::lemma_raw_decode();
    }
    let ghost sa = reg_val(old(m)@.bank, (I2C_BASE_ADDR + I2C_SA) as u32);
    set_data_count(m, 1);
    cleanup_interrupt(m);
    master_control(m, I2C_CFG_MST_TX);
    master_start(m);
    m.wait_masked_eq(I2C_BASE_ADDR, I2C_IRQSTATUS_RAW, I2C_IRQSTATUS_RAW_BB, I2C_IRQSTATUS_RAW_BB);

    master_data_put(m, offset);
    master_int_clear_ex(m, I2C_INT_TRANSMIT_READY);
    proof {
        assert(m@.i2c.tx =~= seq![offset]);
    }
    m.wait_masked_eq(I2C_BASE_ADDR, I2C_IRQSTATUS_RAW, I2C_IRQSTATUS_ARDY, I2C_IRQSTATUS_ARDY);

    set_data_count(m, dcount);
    cleanup_interrupt(m);
    master_control(m, I2C_CFG_MST_RX);
    master_start(m);
    let ghost devbytes = m@.i2c.rx;
    proof {
        assert(devbytes =~= dev_read(old(m)@, sa, seq![offset], dcount));
    }

    let mut dc = dcount;
    let mut received: usize = 0;
    while dc > 0
        invariant
            m_wf(m@),
            received + dc == dcount,
            1 <= dcount <= 256,
            buffer@.len() >= dcount,
            buffer@.len() == old(buffer)@.len(),
            devbytes.len() == dcount,
            m@.i2c.rx == devbytes.skip(received as int),
            m@.i2c.txmode == false,
            buffer@ == devbytes.take(received as int) + old(buffer)@.skip(received as int),
            m@.pmic == old(m)@.pmic,
            m@.dram == old(m)@.dram,
            m@.tables == old(m)@.tables,
            m@.console == old(m)@.console,
            m@.uart_rx == old(m)@.uart_rx,
            m@.eeprom == old(m)@.eeprom,
            m@.sd == old(m)@.sd,
            m@.cpu == old(m)@.cpu,
            m@.layout == old(m)@.layout,
            m@.faults == old(m)@.faults,
            reg_val(m@.bank, (I2C_BASE_ADDR + I2C_SA) as u32) == sa,
            forall|a: u32| !in_i2c(a) ==> #[trigger] reg_val(m@.bank, a) == reg_val(
                old(m)@.bank,
                a,
            ),
        decreases dc,
    {
        proof {
            crate::i2c::lemma_con_bits();
            crate::i2c::lemma_raw_decode();
        }
        let ghost mb = m@;
        m.wait_masked_eq(
            I2C_BASE_ADDR,
            I2C_IRQSTATUS_RAW,
            crate::regs::I2C_IRQSTATUS_RRDY,
            crate::regs::I2C_IRQSTATUS_RRDY,
        );
        let b = master_data_get(m);
        buffer.set(received, b);
        master_int_clear_ex(m, I2C_INT_RECEIVE_READY);
        proof {
            assert(m@.i2c.rx =~= devbytes.skip(received + 1));
            assert(buffer@ =~= devbytes.take(received + 1) + old(buffer)@.skip(received + 1));
            assert forall|a: u32| !in_i2c(a) implies reg_val(m@.bank, a) == reg_val(
                old(m)@.bank,
                a,
            ) by {
                assert(in_i2c((I2C_BASE_ADDR + crate::regs::I2C_IRQSTATUS) as u32));
                assert(reg_val(mb.bank, a) == reg_val(old(m)@.bank, a));
            }
            assert(reg_val(m@.bank, (I2C_BASE_ADDR + I2C_SA) as u32) == sa);
        }
        dc = dc - 1;
        received = received + 1;
    }

    let ghost ml = m@;
    master_stop(m);
    m.wait_masked_eq(I2C_BASE_ADDR, I2C_IRQSTATUS_RAW, I2C_IRQSTATUS_BF, I2C_IRQSTATUS_BF);
    let ghost ms = m@;
    master_int_clear_ex(m, I2C_INT_STOP_CONDITION);
    proof {
        assert(buffer@ =~= devbytes + old(buffer)@.skip(dcount as int));
        assert(m@.i2c.rx =~= Seq::<u8>::empty());
        assert forall|a: u32| !in_i2c(a) implies reg_val(m@.bank, a) == reg_val(
            old(m)@.bank,
            a,
        ) by {
            assert(in_i2c((I2C_BASE_ADDR + crate::regs::I2C_CON) as u32));
            assert(in_i2c((I2C_BASE_ADDR + crate::regs::I2C_IRQSTATUS) as u32));
            assert(in_i2c((I2C_BASE_ADDR + crate::regs::I2C_SYSS) as u32));
            assert(reg_val(ml.bank, a) == reg_val(old(m)@.bank, a));
            assert(reg_val(ms.bank, a) == reg_val(ml.bank, a));
        }
        assert(reg_val(ms.bank, (I2C_BASE_ADDR + I2C_SA) as u32) == reg_val(
            ml.bank,
            (I2C_BASE_ADDR + I2C_SA) as u32,
        ));
        assert(reg_val(m@.bank, (I2C_BASE_ADDR + I2C_SA) as u32) == sa);
    }
    received as u32
}

/// Applies `voltage_update` to the given buck converter: the selector
/// under level 2, then the go bit.
pub fn voltage_update(m: &mut Machine, dc_cntrl_reg: u8, volt_sel: u8)
    requires
        m_wf(old(m)@),
        old(m)@.i2c.rx.len() == 0,
        reg_val(old(m)@.bank, (I2C_BASE_ADDR + I2C_SA) as u32) == PMIC_TPS65217_I2C_SLAVE_ADDR
            as u32,
        pmic_level2(dc_cntrl_reg),
        dc_cntrl_reg != PASSWORD,
        dc_cntrl_reg != DEFSLEW,
    ensures
        m_wf(final(m)@),
        final(m)@.pmic.regs == old(m)@.pmic.regs.update(dc_cntrl_reg as int, volt_sel).update(
            DEFSLEW as int,
            ((old(m)@.pmic.regs.update(dc_cntrl_reg as int, volt_sel)[DEFSLEW as int] & !DCDC_GO)
                | (DCDC_GO & DCDC_GO)) as u8,
        ),
        reg_val(final(m)@.bank, (I2C_BASE_ADDR + I2C_SA) as u32) == reg_val(
            old(m)@.bank,
            (I2C_BASE_ADDR + I2C_SA) as u32,
        ),
        final(m)@.i2c.rx.len() == 0,
        final(m)@.dram == old(m)@.dram,
        final(m)@.tables == old(m)@.tables,
        final(m)@.console == old(m)@.console,
        final(m)@.uart_rx == old(m)@.uart_rx,
        final(m)@.eeprom == old(m)@.eeprom,
        final(m)@.sd == old(m)@.sd,
        final(m)@.cpu == old(m)@.cpu,
        final(m)@.layout == old(m)@.layout,
        final(m)@.faults == old(m)@.faults,
        forall|a: u32| !in_i2c(a) ==> #[trigger] reg_val(final(m)@.bank, a) == reg_val(
            old(m)@.bank,
            a,
        ),
{
    write_reg(m, PROT_LEVEL_2, dc_cntrl_reg, volt_sel, MASK_ALL_BITS);
    write_reg(m, PROT_LEVEL_2, DEFSLEW, DCDC_GO, DCDC_GO);
}

/// Reads one PMIC register.
pub fn read_reg(m: &mut Machine, offset: u8) -> (r: u8)
    requires
        m_wf(old(m)@),
        old(m)@.i2c.rx.len() == 0,
        reg_val(old(m)@.bank, (I2C_BASE_ADDR + I2C_SA) as u32) == PMIC_TPS65217_I2C_SLAVE_ADDR
            as u32,
    ensures
        m_wf(final(m)@),
        r == old(m)@.pmic.regs[offset as int],
        reg_val(final(m)@.bank, (I2C_BASE_ADDR + I2C_SA) as u32) == reg_val(
            old(m)@.bank,
            (I2C_BASE_ADDR + I2C_SA) as u32,
        ),

        final(m)@.pmic == old(m)@.pmic,
        final(m)@.i2c.rx.len() == 0,
        final(m)@.dram == old(m)@.dram,
        final(m)@.tables == old(m)@.tables,
        final(m)@.console == old(m)@.console,
        final(m)@.uart_rx == old(m)@.uart_rx,
        final(m)@.eeprom == old(m)@.eeprom,
        final(m)@.sd == old(m)@.sd,
        final(m)@.cpu == old(m)@.cpu,
        final(m)@.layout == old(m)@.layout,
        final(m)@.faults == old(m)@.faults,
        forall|a: u32| !in_i2c(a) ==> #[trigger] reg_val(final(m)@.bank, a) == reg_val(
            old(m)@.bank,
            a,
        ),
{
    let mut buffer: Vec<u8> = Vec::new();
    buffer.push(0);
    setup_reception(m, offset, 1, &mut buffer);
    proof {
        assert(buffer@[0] == old(m)@.pmic.regs[(offset as int + 0) % 256]);
        assert((offset as int + 0) % 256 == offset as int);
    }
    buffer[0]
}

/// Writes one PMIC register under the given protection level. A partial
/// mask first read-merges the current value; a protected write sends the
/// password-unlocked pair twice, as the PMIC demands.
#[verifier::rlimit(100)]
pub fn write_reg(m: &mut Machine, port_level: u32, offset: u8, dest_val: u8, mask: u8)
    requires
        m_wf(old(m)@),
        old(m)@.i2c.rx.len() == 0,
        reg_val(old(m)@.bank, (I2C_BASE_ADDR + I2C_SA) as u32) == PMIC_TPS65217_I2C_SLAVE_ADDR
            as u32,
        offset != PASSWORD,
        port_level == PROT_LEVEL_2 || port_level == PROT_LEVEL_NONE,
        port_level == PROT_LEVEL_2 <==> pmic_level2(offset),
    ensures
        m_wf(final(m)@),
        final(m)@.pmic.regs == old(m)@.pmic.regs.update(
            offset as int,
            (if mask == MASK_ALL_BITS {
                dest_val
            } else {
                ((old(m)@.pmic.regs[offset as int] & !mask) | (dest_val & mask)) as u8
            }),
        ),
        reg_val(final(m)@.bank, (I2C_BASE_ADDR + I2C_SA) as u32) == reg_val(
            old(m)@.bank,
            (I2C_BASE_ADDR + I2C_SA) as u32,
        ),
        final(m)@.i2c.rx.len() == 0,
        final(m)@.dram == old(m)@.dram,
        final(m)@.tables == old(m)@.tables,
        final(m)@.console == old(m)@.console,
        final(m)@.uart_rx == old(m)@.uart_rx,
        final(m)@.eeprom == old(m)@.eeprom,
        final(m)@.sd == old(m)@.sd,
        final(m)@.cpu == old(m)@.cpu,
        final(m)@.layout == old(m)@.layout,
        final(m)@.faults == old(m)@.faults,
        forall|a: u32| !in_i2c(a) ==> #[trigger] reg_val(final(m)@.bank, a) == reg_val(
            old(m)@.bank,
            a,
        ),
{
    let mut dest = dest_val;
    if mask != MASK_ALL_BITS {
        let mut buffer: Vec<u8> = Vec::new();
        buffer.push(0);
        setup_reception(m, offset, 1, &mut buffer);
        proof {
            assert(buffer@[0] == old(m)@.pmic.regs[(offset as int + 0) % 256]);
            assert((offset as int + 0) % 256 == offset as int);
        }
        let mut received = buffer[0];
        received = received & !mask;
        received = received | (dest_val & mask);
        dest = received;
    }

    let mut xor_reg: u8 = 0;
    if port_level > 0 {
        xor_reg = offset ^ PASSWORD_UNLOCK;
        let mut pw: Vec<u8> = Vec::new();
        pw.push(PASSWORD);
        pw.push(xor_reg);
        proof {
            assert(pw@ =~= seq![PASSWORD, (offset ^ PASSWORD_UNLOCK) as u8]);
        }
        device_write(m, PMIC_TPS65217_I2C_SLAVE_ADDR, pw.as_slice());
    }

    let mut wr: Vec<u8> = Vec::new();
    wr.push(offset);
    wr.push(dest);
    proof {
        assert(wr@ =~= seq![offset, dest]);
    }
    device_write(m, PMIC_TPS65217_I2C_SLAVE_ADDR, wr.as_slice());

    if port_level == PROT_LEVEL_2 {
        let mut pw2: Vec<u8> = Vec::new();
        pw2.push(PASSWORD);
        pw2.push(xor_reg);
        proof {
            assert(pw2@ =~= seq![PASSWORD, (offset ^ PASSWORD_UNLOCK) as u8]);
        }
        device_write(m, PMIC_TPS65217_I2C_SLAVE_ADDR, pw2.as_slice());

        let mut wr2: Vec<u8> = Vec::new();
        wr2.push(offset);
        wr2.push(dest);
        proof {
            assert(wr2@ =~= seq![offset, dest]);
        }
        device_write(m, PMIC_TPS65217_I2C_SLAVE_ADDR, wr2.as_slice());
        proof {
            assert(m@.pmic.regs =~= old(m)@.pmic.regs.update(offset as int, dest));
        }
    } else {
        proof {
            assert(m@.pmic.regs =~= old(m)@.pmic.regs.update(offset as int, dest));
        }
    }
}

/// Writes the DCDC1 rail selector for the chosen operating point.
pub fn set_vdd10p_voltage(m: &mut Machine, vol_selector: u8)
    requires
        m_wf(old(m)@),
        old(m)@.i2c.rx.len() == 0,
        reg_val(old(m)@.bank, (I2C_BASE_ADDR + I2C_SA) as u32) == PMIC_TPS65217_I2C_SLAVE_ADDR
            as u32,
    ensures
        m_wf(final(m)@),
        final(m)@.pmic.regs == old(m)@.pmic.regs.update(DEFDCDC1 as int, vol_selector).update(
            DEFSLEW as int,
            ((old(m)@.pmic.regs.update(DEFDCDC1 as int, vol_selector)[DEFSLEW as int] & !DCDC_GO)
                | (DCDC_GO & DCDC_GO)) as u8,
        ),
        final(m)@.pmic.regs[DEFDCDC1 as int] == vol_selector,
        reg_val(final(m)@.bank, (I2C_BASE_ADDR + I2C_SA) as u32) == reg_val(
            old(m)@.bank,
            (I2C_BASE_ADDR + I2C_SA) as u32,
        ),
        final(m)@.i2c.rx.len() == 0,
        final(m)@.dram == old(m)@.dram,
        final(m)@.tables == old(m)@.tables,
        final(m)@.console == old(m)@.console,
        final(m)@.uart_rx == old(m)@.uart_rx,
        final(m)@.eeprom == old(m)@.eeprom,
        final(m)@.sd == old(m)@.sd,
        final(m)@.cpu == old(m)@.cpu,
        final(m)@.layout == old(m)@.layout,
        final(m)@.faults == old(m)@.faults,
        forall|a: u32| !in_i2c(a) ==> #[trigger] reg_val(final(m)@.bank, a) == reg_val(
            old(m)@.bank,
            a,
        ),
{
    voltage_update(m, DEFDCDC1, vol_selector);
}

/// Initial PMIC configuration: USB current limit, the DCDC2 rail and
/// both load-switch LDO voltages.
pub fn config_vdd_op_voltage(m: &mut Machine)
    requires
        m_wf(old(m)@),
        old(m)@.i2c.rx.len() == 0,
    ensures
        m_wf(final(m)@),
        final(m)@.pmic.regs[POWER_PATH as int] == ((old(m)@.pmic.regs[POWER_PATH as int]
            & !USB_INPUT_CUR_LIMIT_MASK) | (USB_INPUT_CUR_LIMIT_1300MA
            & USB_INPUT_CUR_LIMIT_MASK)) as u8,
        final(m)@.pmic.regs[DEFDCDC2 as int] == DCDC_VOLT_SEL_1275MV,
        final(m)@.pmic.regs[DEFSLEW as int] & DCDC_GO == DCDC_GO,
        final(m)@.pmic.regs[DEFLS1 as int] == ((old(m)@.pmic.regs[DEFLS1 as int] & !LDO_MASK) | (
        LDO_VOLTAGE_OUT_3_3 & LDO_MASK)) as u8,
        final(m)@.pmic.regs[DEFLS2 as int] == ((old(m)@.pmic.regs[DEFLS2 as int] & !LDO_MASK) | (
        LDO_VOLTAGE_OUT_3_3 & LDO_MASK)) as u8,
        forall|o: int|
            0 <= o < 256 && o != POWER_PATH as int && o != DEFDCDC2 as int && o != DEFSLEW as int
                && o != DEFLS1 as int && o != DEFLS2 as int ==> #[trigger] final(m)@.pmic.regs[o]
                == old(m)@.pmic.regs[o],
        final(m)@.i2c.rx.len() == 0,
        reg_val(final(m)@.bank, (I2C_BASE_ADDR + I2C_SA) as u32) == PMIC_TPS65217_I2C_SLAVE_ADDR
            as u32,
        final(m)@.dram == old(m)@.dram,
        final(m)@.tables == old(m)@.tables,
        final(m)@.console == old(m)@.console,
        final(m)@.uart_rx == old(m)@.uart_rx,
        final(m)@.eeprom == old(m)@.eeprom,
        final(m)@.sd == old(m)@.sd,
        final(m)@.cpu == old(m)@.cpu,
        final(m)@.layout == old(m)@.layout,
        final(m)@.faults == old(m)@.faults,
        forall|a: u32| !in_i2c(a) ==> #[trigger] reg_val(final(m)@.bank, a) == reg_val(
            old(m)@.bank,
            a,
        ),
{
    proof {
        assert(forall|a: u8| #![auto] (((a & !0x80u8) | (0x80u8 & 0x80)) & 0x80) == 0x80)
            by (bit_vector);
    }
    master_slave_addr_set(m, PMIC_TPS65217_I2C_SLAVE_ADDR);
    let _pmic_status = read_reg(m, STATUS);

    // USB input current limit 1300 mA.
    write_reg(
        m,
        PROT_LEVEL_NONE,
        POWER_PATH,
        USB_INPUT_CUR_LIMIT_1300MA,
        USB_INPUT_CUR_LIMIT_MASK,
    );
    voltage_update(m, DEFDCDC2, DCDC_VOLT_SEL_1275MV);
    write_reg(m, PROT_LEVEL_2, DEFLS1, LDO_VOLTAGE_OUT_3_3, LDO_MASK);
    write_reg(m, PROT_LEVEL_2, DEFLS2, LDO_VOLTAGE_OUT_3_3, LDO_MASK);
}

// ------------------------------------------------------------------ laws

/// The level-2 write protocol lands the value: after a full-mask level-2
/// `write_reg` of `v` at `off`, a `read_reg` of `off` returns `v`.
pub proof fn lemma_level2_write_read_back(regs: Seq<u8>, off: u8, v: u8)
    requires
        regs.len() == 256,
    ensures
        regs.update(off as int, v)[off as int] == v,
{
}

} // verus!
