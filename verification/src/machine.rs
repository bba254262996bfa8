//! The board model the drivers run against.
//!
//! A [`Machine`] holds everything the bootloader can observe or change: the
//! MMIO register bank, DRAM, the linker-reserved page-table region, the
//! UART console and its input queue, the I2C engine with the PMIC and the
//! board EEPROM behind it, the SD card with both controller front ends, the
//! CPU control registers, the address layout the linker fixed, and the
//! fault knobs a test may set.
//!
//! The five MMIO primitives of the hardware layer — `read32`, `write32`,
//! `read_masked`, `write_masked` and `clear_bits` — are methods here. Their
//! contracts are the spec transitions [`s_write32`], [`s_read_val`] and
//! [`s_read_step`], which also encode how a healthy SoC answers: writing a
//! PLL mode register settles the matching idle-status register, waking a
//! clock domain raises its activity bits, a started I2C transfer moves
//! bytes, a loaded MMC command produces a response.

use vstd::prelude::*;

use crate::bank::{reg_val, RegBank};
use crate::regs::{CM_PER_L3_CLKCTRL, CM_PER_L3_INSTR_CLKCTRL, CM_PER_L4LS_CLKCTRL, CM_PER_L4FW_CLKCTRL, CM_PER_L4HS_CLKCTRL, CM_PER_MMC0_CLKCTRL, CM_WKUP_CONTROL_CLKCTRL, CM_WKUP_L4WKUP_CLKCTRL, CM_WKUP_I2C0_CLKCTRL, CM_WKUP_UART0_CLKCTRL, CLKCTRL_IDLEST, CLKCTRL_MODULEMODE, CLKCTRL_MODULEMODE_ENABLE, CLKSTCTRL_ACTIVITY_BITS,
    CLKTRCTRL, CLKTRCTRL_SW_WKUP, CM_CLKMODE_DPLL_MPU, CM_PER_BASE, CM_PER_EMIF_CLKCTRL,
    CM_PER_EMIF_FW_CLKCTRL, CM_PER_L3S_CLKSTCTRL, CM_PER_L3_CLKSTCTRL,
    CM_PER_L3_CLKSTCTRL_CLKACTIVITY_EMIF_GCLK, CM_PER_L3_CLKSTCTRL_CLKACTIVITY_L3_GCLK,
    CM_PER_L4FW_CLKSTCTRL, CM_PER_L4LS_CLKSTCTRL, CM_PER_OCPWP_L3_CLKSTCTRL, CM_WKUP_BASE,
    CM_WKUP_CLKSTCTRL, CM_WKUP_CM_CLKMODE_DPLL_CORE, CM_WKUP_CM_CLKMODE_DPLL_DDR,
    CM_WKUP_CM_CLKMODE_DPLL_PER, CM_WKUP_CM_IDLEST_DPLL_CORE, CM_WKUP_CM_IDLEST_DPLL_DDR,
    CM_WKUP_CM_IDLEST_DPLL_MPU, CM_WKUP_CM_IDLEST_DPLL_PER, CM_WKUP_CM_L3_AON_CLKSTCTRL,
    CM_WKUP_CM_L4_WKUP_AON_CLKSTCTRL, CONTROL_MODULE_BASE, CONTROL_VTP_CTRL,
    CONTROL_VTP_CTRL_CLRZ, CONTROL_VTP_CTRL_ENABLE, CONTROL_VTP_CTRL_READY, DEFDCDC1, DEFDCDC2,
    DEFDCDC3, DEFLS1, DEFLS2, DEFSLEW, DPLL_EN, DPLL_EN_LOCK_MODE, DPLL_EN_MN_BYP_MODE,
    EEPROM_I2C_SLAVE_ADDR, I2C_BASE_ADDR, I2C_CNT, I2C_CON, I2C_CON_I2C_EN, I2C_CON_MST,
    I2C_CON_STP, I2C_CON_STT, I2C_CON_TRX, I2C_DATA, I2C_IRQSTATUS_ARDY, I2C_IRQSTATUS_BF,
    I2C_IRQSTATUS_RAW, I2C_IRQSTATUS_RAW_BB, I2C_IRQSTATUS_RRDY, I2C_IRQSTATUS_XRDY, I2C_SA,
    I2C_SYSS, I2C_SYSS_RDONE, MMC0_BASE_BBB, MMC0_BASE_QEMU, MMCHS_STAT_CC, MMC_ARG, MMC_CMD,
    MMC_FIFO, MMC_GCTRL, MMC_QARG, MMC_QCMD, MMC_RESP0, MMC_RINT, MMC_RSP10, MMC_STAT,
    MMC_SYSCONFIG, MMC_SYSCONFIG_SOFTRESET, MMC_SYSCTL, MMC_SYSCTL_ICE, MMC_SYSCTL_ICS,
    MMC_SYSCTL_SRA, MMC_SYSCTL_SRC, MMC_SYSCTL_SRD, MMC_SYSSTATUS, MMC_SYSSTATUS_RESETDONE,
    PASSWORD, PASSWORD_UNLOCK, PMIC_TPS65217_I2C_SLAVE_ADDR, SD_CMDR_LOAD, SD_GCTL_SOFT_RST,
    SD_RISR_CMD_COMPLETE, SD_RISR_NO_RESPONSE, ST_DPLL_CLK, ST_MN_BYPASS, UART0_BASE_BBB,
    UART0_BASE_QEMU, UART_LCR_OFF, UART_LSR_OFF, UART_SYSC_OFF, UART_SYSS_OFF, UART_THR_OFF};

verus! {

// ------------------------------------------------------------ components

/// CPU control state: translation-table bases, domain access control and
/// the system control register.
#[derive(Clone, Copy, PartialEq, Eq, Structural, Debug)]
pub struct Cpu {
    pub ttbr0: u32,
    pub ttbr1: u32,
    pub dacr: u32,
    pub sctlr: u32,
}

/// Addresses the linker fixed for this image.
#[derive(Clone, Copy, PartialEq, Eq, Structural, Debug)]
pub struct BoardLayout {
    /// First physical DRAM address.
    pub dram_base: u32,
    /// Start of the reserved first-level page-table region.
    pub tables_start: u32,
    /// One past the end of the reserved page-table region.
    pub tables_end: u32,
    /// Address of the boot image's own entry symbol.
    pub init_addr: u32,
}

/// Defects a test may inject into the modeled board.
#[derive(Clone, Copy, PartialEq, Eq, Structural, Debug)]
pub struct Faults {
    /// Bits stuck low in the first DRAM word.
    pub dram_stuck: u32,
    /// Forced CMD8 response in place of the argument echo.
    pub cmd8_override: Option<u32>,
    /// The card answers no command at all.
    pub sd_no_response: bool,
}

/// The I2C master engine, as far as the drivers observe it.
pub struct I2cEngine {
    /// A transfer is in progress.
    pub active: bool,
    /// The transfer sends (true) or receives (false).
    pub txmode: bool,
    /// Programmed transfer length.
    pub cnt: u32,
    /// Bytes collected by the current or last send phase.
    pub tx: Vec<u8>,
    /// Bytes waiting to be read out of the data register.
    pub rx: Vec<u8>,
    /// A stop condition was issued.
    pub stop: bool,
}

#[verifier::ext_equal]
pub ghost struct I2cV {
    pub active: bool,
    pub txmode: bool,
    pub cnt: u32,
    pub tx: Seq<u8>,
    pub rx: Seq<u8>,
    pub stop: bool,
}

impl View for I2cEngine {
    type V = I2cV;

    open spec fn view(&self) -> I2cV {
        I2cV {
            active: self.active,
            txmode: self.txmode,
            cnt: self.cnt,
            tx: self.tx@,
            rx: self.rx@,
            stop: self.stop,
        }
    }
}

/// The PMIC: a byte-wide register file behind the two-write password
/// unlock protocol of its level-2 registers.
pub struct Pmic {
    /// The 256 byte-wide registers.
    pub regs: Vec<u8>,
    /// Value last written to the password register, if still armed.
    pub unlock: Option<u8>,
    /// First half of a level-2 double write, waiting for its repeat.
    pub pending: Option<(u8, u8)>,
}

#[verifier::ext_equal]
pub ghost struct PmicV {
    pub regs: Seq<u8>,
    pub unlock: Option<u8>,
    pub pending: Option<(u8, u8)>,
}

impl View for Pmic {
    type V = PmicV;

    open spec fn view(&self) -> PmicV {
        PmicV { regs: self.regs@, unlock: self.unlock, pending: self.pending }
    }
}

/// The SD card and the per-controller state the drivers poll.
pub struct SdCard {
    /// Card contents, byte-addressed.
    pub disk: Vec<u8>,
    /// Raw-interrupt status of the lowspeed controller.
    pub rint: u32,
    /// Short response register of the lowspeed controller.
    pub resp0: u32,
    /// Read FIFO of the lowspeed controller.
    pub fifo: Vec<u32>,
    /// Status register of the highspeed controller.
    pub stat: u32,
    /// Short response register of the highspeed controller.
    pub rsp10: u32,
}

#[verifier::ext_equal]
pub ghost struct SdV {
    pub disk: Seq<u8>,
    pub rint: u32,
    pub resp0: u32,
    pub fifo: Seq<u32>,
    pub stat: u32,
    pub rsp10: u32,
}

impl View for SdCard {
    type V = SdV;

    open spec fn view(&self) -> SdV {
        SdV {
            disk: self.disk@,
            rint: self.rint,
            resp0: self.resp0,
            fifo: self.fifo@,
            stat: self.stat,
            rsp10: self.rsp10,
        }
    }
}

// --------------------------------------------------------------- machine

pub struct Machine {
    pub bank: RegBank,
    /// DRAM as an array of 32-bit words starting at `layout.dram_base`.
    pub dram: Vec<u32>,
    /// The linker-reserved page-table region, 4096 word entries.
    pub tables: Vec<u32>,
    /// Every byte written out of the serial port.
    pub console: Vec<u8>,
    /// Bytes waiting in the serial receiver.
    pub uart_rx: Vec<u8>,
    pub i2c: I2cEngine,
    pub pmic: Pmic,
    /// Board-identification EEPROM contents.
    pub eeprom: Vec<u8>,
    pub sd: SdCard,
    pub cpu: Cpu,
    pub layout: BoardLayout,
    pub faults: Faults,
}

#[verifier::ext_equal]
pub ghost struct MachineV {
    pub bank: Map<u32, u32>,
    pub dram: Seq<u32>,
    pub tables: Seq<u32>,
    pub console: Seq<u8>,
    pub uart_rx: Seq<u8>,
    pub i2c: I2cV,
    pub pmic: PmicV,
    pub eeprom: Seq<u8>,
    pub sd: SdV,
    pub cpu: Cpu,
    pub layout: BoardLayout,
    pub faults: Faults,
}

impl View for Machine {
    type V = MachineV;

    open spec fn view(&self) -> MachineV {
        MachineV {
            bank: self.bank@,
            dram: self.dram@,
            tables: self.tables@,
            console: self.console@,
            uart_rx: self.uart_rx@,
            i2c: self.i2c@,
            pmic: self.pmic@,
            eeprom: self.eeprom@,
            sd: self.sd@,
            cpu: self.cpu,
            layout: self.layout,
            faults: self.faults,
        }
    }
}

/// Shape every driver relies on: fixed table and PMIC sizes, and DRAM
/// sitting above the device windows with a 32-bit end address.
pub open spec fn m_wf(m: MachineV) -> bool {
    &&& m.tables.len() == 4096
    &&& m.pmic.regs.len() == 256
    &&& m.layout.dram_base >= 0x5000_0000
    &&& m.layout.dram_base % 0x10_0000 == 0
    &&& m.layout.dram_base + 4 * m.dram.len() <= 0x1_0000_0000
}

// ------------------------------------------------------- address helpers

pub open spec fn in_dram(m: MachineV, addr: u32) -> bool {
    m.layout.dram_base <= addr < m.layout.dram_base + 4 * m.dram.len()
}

pub open spec fn dram_widx(m: MachineV, addr: u32) -> int {
    (addr - m.layout.dram_base) / 4
}

pub open spec fn in_i2c(addr: u32) -> bool {
    I2C_BASE_ADDR <= addr < I2C_BASE_ADDR + 0x100
}

pub open spec fn in_uart_bbb(addr: u32) -> bool {
    UART0_BASE_BBB <= addr < UART0_BASE_BBB + 0x100
}

pub open spec fn in_uart_qemu(addr: u32) -> bool {
    UART0_BASE_QEMU <= addr < UART0_BASE_QEMU + 0x100
}

pub open spec fn in_mmc_bbb(addr: u32) -> bool {
    MMC0_BASE_BBB <= addr < MMC0_BASE_BBB + 0x300
}

pub open spec fn in_mmc_qemu(addr: u32) -> bool {
    MMC0_BASE_QEMU <= addr < MMC0_BASE_QEMU + 0x300
}

/// The four PLL mode registers, each paired with its idle-status register.
pub open spec fn pll_idlest_of(addr: u32) -> Option<u32> {
    if addr == CM_WKUP_BASE + CM_CLKMODE_DPLL_MPU {
        Some((CM_WKUP_BASE + CM_WKUP_CM_IDLEST_DPLL_MPU) as u32)
    } else if addr == CM_WKUP_BASE + CM_WKUP_CM_CLKMODE_DPLL_CORE {
        Some((CM_WKUP_BASE + CM_WKUP_CM_IDLEST_DPLL_CORE) as u32)
    } else if addr == CM_WKUP_BASE + CM_WKUP_CM_CLKMODE_DPLL_PER {
        Some((CM_WKUP_BASE + CM_WKUP_CM_IDLEST_DPLL_PER) as u32)
    } else if addr == CM_WKUP_BASE + CM_WKUP_CM_CLKMODE_DPLL_DDR {
        Some((CM_WKUP_BASE + CM_WKUP_CM_IDLEST_DPLL_DDR) as u32)
    } else {
        None
    }
}

/// Idle status a healthy PLL settles to under the given mode word.
pub open spec fn pll_status(v: u32) -> u32 {
    if v & DPLL_EN == DPLL_EN_LOCK_MODE {
        ST_DPLL_CLK
    } else if v & DPLL_EN == DPLL_EN_MN_BYP_MODE {
        ST_MN_BYPASS
    } else {
        0
    }
}

/// A module-clock register once the module ran up: the idle-status field
/// shows functional and the mode field reads back as enabled.
pub open spec fn clkctrl_settled(v: u32) -> u32 {
    (v & !CLKCTRL_IDLEST & !CLKCTRL_MODULEMODE) | CLKCTRL_MODULEMODE_ENABLE
}

/// Clock-state-control registers whose activity bits rise on `SW_WKUP`.
pub open spec fn is_clkstctrl(addr: u32) -> bool {
    ||| addr == CM_PER_BASE + CM_PER_L3_CLKSTCTRL
    ||| addr == CM_PER_BASE + CM_PER_L4LS_CLKSTCTRL
    ||| addr == CM_PER_BASE + CM_PER_L3S_CLKSTCTRL
    ||| addr == CM_PER_BASE + CM_PER_L4FW_CLKSTCTRL
    ||| addr == CM_PER_BASE + CM_PER_OCPWP_L3_CLKSTCTRL
    ||| addr == CM_WKUP_BASE + CM_WKUP_CLKSTCTRL
    ||| addr == CM_WKUP_BASE + CM_WKUP_CM_L3_AON_CLKSTCTRL
    ||| addr == CM_WKUP_BASE + CM_WKUP_CM_L4_WKUP_AON_CLKSTCTRL
}

/// Module-clock-control registers whose idle-status field settles to
/// functional once the module mode is set to enabled.
pub open spec fn is_clkctrl(addr: u32) -> bool {
    ||| addr == CM_PER_BASE + CM_PER_L3_CLKCTRL
    ||| addr == CM_PER_BASE + CM_PER_L3_INSTR_CLKCTRL
    ||| addr == CM_PER_BASE + CM_PER_L4LS_CLKCTRL
    ||| addr == CM_PER_BASE + CM_PER_L4FW_CLKCTRL
    ||| addr == CM_PER_BASE + CM_PER_L4HS_CLKCTRL
    ||| addr == CM_PER_BASE + CM_PER_MMC0_CLKCTRL
    ||| addr == CM_WKUP_BASE + CM_WKUP_CONTROL_CLKCTRL
    ||| addr == CM_WKUP_BASE + CM_WKUP_L4WKUP_CLKCTRL
    ||| addr == CM_WKUP_BASE + CM_WKUP_I2C0_CLKCTRL
    ||| addr == CM_WKUP_BASE + CM_WKUP_UART0_CLKCTRL
}

pub open spec fn is_emif_clkctrl(addr: u32) -> bool {
    ||| addr == CM_PER_BASE + CM_PER_EMIF_FW_CLKCTRL
    ||| addr == CM_PER_BASE + CM_PER_EMIF_CLKCTRL
}

// -------------------------------------------------------- device replies

/// Little-endian 32-bit word read out of a byte sequence, zero past its end.
pub open spec fn le32_at(d: Seq<u8>, off: int) -> u32 {
    (byte_at(d, off) as u32) | (byte_at(d, off + 1) as u32) << 8 | (byte_at(d, off + 2) as u32)
        << 16 | (byte_at(d, off + 3) as u32) << 24
}

pub open spec fn byte_at(d: Seq<u8>, off: int) -> u8 {
    if 0 <= off < d.len() {
        d[off]
    } else {
        0
    }
}

/// The card's short response to a command, before fault injection of the
/// no-response kind.
pub open spec fn sd_resp(m: MachineV, cmd: u32, arg: u32) -> u32 {
    if cmd == 8 {
        match m.faults.cmd8_override {
            Some(x) => x,
            None => arg & 0xFFF,
        }
    } else if cmd == 41 {
        0x80FF_8000
    } else if cmd == 3 {
        0x1234_0500
    } else {
        0
    }
}

/// The 128 words the card streams for a single-sector read at byte
/// address `arg`.
pub open spec fn fifo_load(d: Seq<u8>, arg: u32) -> Seq<u32> {
    Seq::new(128, |i: int| le32_at(d, arg + 4 * i))
}

/// Bytes a receive transfer of length `cnt` yields from the device at
/// `sa`, addressed by the bytes of the preceding send phase.
pub open spec fn dev_read(m: MachineV, sa: u32, tx: Seq<u8>, cnt: u32) -> Seq<u8> {
    let n = if cnt <= 256 {
        cnt as int
    } else {
        256
    };
    if sa == PMIC_TPS65217_I2C_SLAVE_ADDR as u32 {
        let off = if tx.len() > 0 {
            tx[0] as int
        } else {
            0
        };
        Seq::new(n as nat, |i: int| m.pmic.regs[(off + i) % 256])
    } else if sa == EEPROM_I2C_SLAVE_ADDR as u32 {
        let off = if tx.len() >= 2 {
            tx[0] * 256 + tx[1]
        } else {
            0
        };
        Seq::new(n as nat, |i: int| byte_at(m.eeprom, off + i))
    } else {
        Seq::new(n as nat, |i: int| 0u8)
    }
}

/// One write transaction arriving at the PMIC: `tx` holds the bytes of the
/// transfer. A two-byte transfer addresses a register; the password
/// register arms an unlock, a level-2 register takes effect only on the
/// second armed write of the same pair, anything else is stored directly.
pub open spec fn pmic_apply(p: PmicV, tx: Seq<u8>) -> PmicV {
    if tx.len() == 2 {
        let a = tx[0];
        let b = tx[1];
        if a == PASSWORD {
            PmicV { unlock: Some(b), ..p }
        } else if pmic_level2(a) {
            if p.unlock == Some((a ^ PASSWORD_UNLOCK) as u8) {
                if p.pending == Some((a, b)) {
                    PmicV {
                        regs: p.regs.update(a as int, b),
                        unlock: None,
                        pending: None,
                    }
                } else {
                    PmicV { unlock: None, pending: Some((a, b)), ..p }
                }
            } else {
                PmicV { unlock: None, ..p }
            }
        } else {
            PmicV { regs: p.regs.update(a as int, b), ..p }
        }
    } else {
        p
    }
}

/// Registers the PMIC protects behind the level-2 double write.
pub open spec fn pmic_level2(a: u8) -> bool {
    ||| a == DEFDCDC1
    ||| a == DEFDCDC2
    ||| a == DEFDCDC3
    ||| a == DEFSLEW
    ||| a == DEFLS1
    ||| a == DEFLS2
}

// ------------------------------------------------------ spec transitions

pub open spec fn bank_only(m: MachineV, b: Map<u32, u32>) -> MachineV {
    MachineV { bank: b, ..m }
}

/// Effect of a DRAM store; the first word loses the stuck-low bits.
pub open spec fn s_write_dram(m: MachineV, addr: u32, v: u32) -> MachineV {
    if (addr - m.layout.dram_base) % 4 == 0 {
        let stored = if addr == m.layout.dram_base {
            v & !m.faults.dram_stuck
        } else {
            v
        };
        MachineV { dram: m.dram.update(dram_widx(m, addr), stored), ..m }
    } else {
        m
    }
}

pub open spec fn s_write_i2c(m: MachineV, addr: u32, v: u32) -> MachineV {
    let off = addr - I2C_BASE_ADDR;
    if off == I2C_CON {
        let b0 = m.bank.insert(addr, v);
        let b = if v & I2C_CON_I2C_EN != 0 {
            let sa_syss = (I2C_BASE_ADDR + I2C_SYSS) as u32;
            b0.insert(sa_syss, reg_val(b0, sa_syss) | I2C_SYSS_RDONE)
        } else {
            b0
        };
        if v & I2C_CON_STP != 0 {
            let pm = if m.i2c.active && m.i2c.txmode && reg_val(m.bank, (I2C_BASE_ADDR + I2C_SA) as u32)
                == PMIC_TPS65217_I2C_SLAVE_ADDR as u32 {
                pmic_apply(m.pmic, m.i2c.tx)
            } else {
                m.pmic
            };
            MachineV {
                bank: b,
                pmic: pm,
                i2c: I2cV { active: false, stop: true, ..m.i2c },
                ..m
            }
        } else if v & I2C_CON_STT != 0 && v & I2C_CON_MST != 0 {
            if v & I2C_CON_TRX != 0 {
                MachineV {
                    bank: b,
                    i2c: I2cV { active: true, txmode: true, tx: Seq::empty(), stop: false, ..m.i2c },
                    ..m
                }
            } else {
                let sa = reg_val(m.bank, (I2C_BASE_ADDR + I2C_SA) as u32);
                MachineV {
                    bank: b,
                    i2c: I2cV {
                        active: true,
                        txmode: false,
                        rx: dev_read(m, sa, m.i2c.tx, m.i2c.cnt),
                        stop: false,
                        ..m.i2c
                    },
                    ..m
                }
            }
        } else {
            MachineV { bank: b, ..m }
        }
    } else if off == I2C_CNT {
        MachineV { bank: m.bank.insert(addr, v), i2c: I2cV { cnt: v, ..m.i2c }, ..m }
    } else if off == I2C_DATA {
        if m.i2c.active && m.i2c.txmode && m.i2c.tx.len() < m.i2c.cnt {
            MachineV {
                bank: m.bank.insert(addr, v),
                i2c: I2cV { tx: m.i2c.tx.push(v as u8), ..m.i2c },
                ..m
            }
        } else {
            bank_only(m, m.bank.insert(addr, v))
        }
    } else {
        bank_only(m, m.bank.insert(addr, v))
    }
}

pub open spec fn s_write_uart(m: MachineV, base: u32, addr: u32, v: u32) -> MachineV {
    let off = addr - base;
    if off == UART_THR_OFF {
        if reg_val(m.bank, (base + UART_LCR_OFF) as u32) & 0x80 == 0 {
            MachineV { console: m.console.push(v as u8), ..m }
        } else {
            bank_only(m, m.bank.insert(addr, v))
        }
    } else if off == UART_SYSC_OFF && v & 0x2 != 0 {
        let sy = (base + UART_SYSS_OFF) as u32;
        bank_only(m, m.bank.insert(addr, v).insert(sy, reg_val(m.bank, sy) | 0x1))
    } else {
        bank_only(m, m.bank.insert(addr, v))
    }
}

pub open spec fn s_write_mmc_bbb(m: MachineV, addr: u32, v: u32) -> MachineV {
    let off = addr - MMC0_BASE_BBB;
    if off == MMC_SYSCONFIG && v & MMC_SYSCONFIG_SOFTRESET != 0 {
        let sy = (MMC0_BASE_BBB + MMC_SYSSTATUS) as u32;
        bank_only(
            m,
            m.bank.insert(addr, v & !MMC_SYSCONFIG_SOFTRESET).insert(
                sy,
                reg_val(m.bank, sy) | MMC_SYSSTATUS_RESETDONE,
            ),
        )
    } else if off == MMC_STAT {
        MachineV { sd: SdV { stat: m.sd.stat & !v, ..m.sd }, ..m }
    } else if off == MMC_CMD {
        let arg = reg_val(m.bank, (MMC0_BASE_BBB + MMC_ARG) as u32);
        if m.faults.sd_no_response {
            bank_only(m, m.bank.insert(addr, v))
        } else {
            MachineV {
                bank: m.bank.insert(addr, v),
                sd: SdV {
                    stat: m.sd.stat | MMCHS_STAT_CC,
                    rsp10: sd_resp(m, v >> 24, arg),
                    ..m.sd
                },
                ..m
            }
        }
    } else {
        bank_only(m, m.bank.insert(addr, v))
    }
}

pub open spec fn s_write_mmc_qemu(m: MachineV, addr: u32, v: u32) -> MachineV {
    let off = addr - MMC0_BASE_QEMU;
    if off == MMC_GCTRL {
        bank_only(m, m.bank.insert(addr, v & !SD_GCTL_SOFT_RST))
    } else if off == MMC_QCMD && v & SD_CMDR_LOAD != 0 {
        let cmd = v & 0x3F;
        let arg = reg_val(m.bank, (MMC0_BASE_QEMU + MMC_QARG) as u32);
        let sd = if m.faults.sd_no_response {
            SdV { rint: m.sd.rint | SD_RISR_NO_RESPONSE, ..m.sd }
        } else {
            let loaded = SdV {
                rint: m.sd.rint | SD_RISR_CMD_COMPLETE,
                resp0: sd_resp(m, cmd, arg),
                ..m.sd
            };
            if cmd == 17 {
                SdV { fifo: fifo_load(m.sd.disk, arg), ..loaded }
            } else {
                loaded
            }
        };
        MachineV { bank: m.bank.insert(addr, v), sd, ..m }
    } else {
        bank_only(m, m.bank.insert(addr, v))
    }
}

pub open spec fn s_write_cm(m: MachineV, addr: u32, v: u32) -> MachineV {
    if pll_idlest_of(addr) is Some {
        let ia = pll_idlest_of(addr)->Some_0;
        bank_only(m, m.bank.insert(addr, v).insert(ia, pll_status(v)))
    } else if is_clkstctrl(addr) {
        if v & CLKTRCTRL_SW_WKUP == CLKTRCTRL_SW_WKUP {
            bank_only(m, m.bank.insert(addr, v | CLKSTCTRL_ACTIVITY_BITS))
        } else {
            bank_only(m, m.bank.insert(addr, v))
        }
    } else if is_emif_clkctrl(addr) && v & CLKCTRL_MODULEMODE_ENABLE == CLKCTRL_MODULEMODE_ENABLE {
        let l3 = (CM_PER_BASE + CM_PER_L3_CLKSTCTRL) as u32;
        bank_only(
            m,
            m.bank.insert(addr, clkctrl_settled(v)).insert(
                l3,
                reg_val(m.bank, l3) | CM_PER_L3_CLKSTCTRL_CLKACTIVITY_EMIF_GCLK
                    | CM_PER_L3_CLKSTCTRL_CLKACTIVITY_L3_GCLK,
            ),
        )
    } else if is_clkctrl(addr) && v & CLKCTRL_MODULEMODE_ENABLE == CLKCTRL_MODULEMODE_ENABLE {
        bank_only(m, m.bank.insert(addr, clkctrl_settled(v)))
    } else if addr == CONTROL_MODULE_BASE + CONTROL_VTP_CTRL {
        if v & CONTROL_VTP_CTRL_ENABLE != 0 && v & CONTROL_VTP_CTRL_CLRZ != 0 {
            bank_only(m, m.bank.insert(addr, v | CONTROL_VTP_CTRL_READY))
        } else {
            bank_only(m, m.bank.insert(addr, v))
        }
    } else {
        bank_only(m, m.bank.insert(addr, v))
    }
}

/// Full effect of a 32-bit store at `addr`.
pub open spec fn s_write32(m: MachineV, addr: u32, v: u32) -> MachineV {
    if in_dram(m, addr) {
        s_write_dram(m, addr, v)
    } else if in_i2c(addr) {
        s_write_i2c(m, addr, v)
    } else if in_uart_bbb(addr) {
        s_write_uart(m, UART0_BASE_BBB, addr, v)
    } else if in_uart_qemu(addr) {
        s_write_uart(m, UART0_BASE_QEMU, addr, v)
    } else if in_mmc_bbb(addr) {
        s_write_mmc_bbb(m, addr, v)
    } else if in_mmc_qemu(addr) {
        s_write_mmc_qemu(m, addr, v)
    } else {
        s_write_cm(m, addr, v)
    }
}

/// Value a 32-bit load at `addr` observes.
pub open spec fn s_read_val(m: MachineV, addr: u32) -> u32 {
    if in_dram(m, addr) {
        if (addr - m.layout.dram_base) % 4 == 0 {
            m.dram[dram_widx(m, addr)]
        } else {
            0
        }
    } else if addr == I2C_BASE_ADDR + I2C_IRQSTATUS_RAW {
        i2c_raw_status(m.i2c)
    } else if addr == I2C_BASE_ADDR + I2C_DATA {
        if m.i2c.rx.len() > 0 {
            m.i2c.rx[0] as u32
        } else {
            0
        }
    } else if addr == MMC0_BASE_QEMU + MMC_RINT {
        m.sd.rint
    } else if addr == MMC0_BASE_QEMU + MMC_RESP0 {
        m.sd.resp0
    } else if addr == MMC0_BASE_QEMU + MMC_FIFO {
        if m.sd.fifo.len() > 0 {
            m.sd.fifo[0]
        } else {
            0
        }
    } else if addr == MMC0_BASE_BBB + MMC_STAT {
        m.sd.stat
    } else if addr == MMC0_BASE_BBB + MMC_RSP10 {
        m.sd.rsp10
    } else if addr == MMC0_BASE_BBB + MMC_SYSCTL {
        reg_val(m.bank, addr) | MMC_SYSCTL_ICS
    } else if addr == UART0_BASE_BBB + UART_LSR_OFF {
        if m.uart_rx.len() > 0 {
            0x21
        } else {
            0x20
        }
    } else if addr == UART0_BASE_QEMU + UART_LSR_OFF {
        rx_ready(m)
    } else if addr == UART0_BASE_QEMU + UART_THR_OFF {
        if m.uart_rx.len() > 0 {
            m.uart_rx[0] as u32
        } else {
            0
        }
    } else {
        reg_val(m.bank, addr)
    }
}

pub open spec fn rx_ready(m: MachineV) -> u32 {
    if m.uart_rx.len() > 0 {
        1u32
    } else {
        0u32
    }
}

/// Raw interrupt status the I2C engine shows.
pub open spec fn i2c_raw_status(e: I2cV) -> u32 {
    (if e.active {
        I2C_IRQSTATUS_RAW_BB
    } else {
        0
    }) | (if e.active && e.txmode && e.tx.len() < e.cnt {
        I2C_IRQSTATUS_XRDY
    } else {
        0
    }) | (if e.active && e.txmode && e.tx.len() >= e.cnt {
        I2C_IRQSTATUS_ARDY
    } else {
        0
    }) | (if e.rx.len() > 0 {
        I2C_IRQSTATUS_RRDY
    } else {
        0
    }) | (if e.stop {
        I2C_IRQSTATUS_BF
    } else {
        0
    })
}

/// State change a 32-bit load leaves behind: data-register reads consume
/// their queues, and the self-clearing reset bits of the highspeed MMC
/// clock register drop once observed.
pub open spec fn s_read_step(m: MachineV, addr: u32) -> MachineV {
    if addr == I2C_BASE_ADDR + I2C_DATA && !in_dram(m, addr) {
        if m.i2c.rx.len() > 0 {
            MachineV { i2c: I2cV { rx: m.i2c.rx.skip(1), ..m.i2c }, ..m }
        } else {
            m
        }
    } else if addr == MMC0_BASE_QEMU + MMC_FIFO && !in_dram(m, addr) {
        if m.sd.fifo.len() > 0 {
            MachineV { sd: SdV { fifo: m.sd.fifo.skip(1), ..m.sd }, ..m }
        } else {
            m
        }
    } else if addr == UART0_BASE_QEMU + UART_THR_OFF && !in_dram(m, addr) {
        if m.uart_rx.len() > 0 {
            MachineV { uart_rx: m.uart_rx.skip(1), ..m }
        } else {
            m
        }
    } else if addr == MMC0_BASE_BBB + MMC_SYSCTL && !in_dram(m, addr) {
        bank_only(
            m,
            m.bank.insert(
                addr,
                reg_val(m.bank, addr) & !(MMC_SYSCTL_SRA | MMC_SYSCTL_SRC | MMC_SYSCTL_SRD),
            ),
        )
    } else {
        m
    }
}

/// Addresses whose load has no side effect on the machine.
pub open spec fn pure_read(addr: u32) -> bool {
    &&& addr != I2C_BASE_ADDR + I2C_DATA
    &&& addr != MMC0_BASE_QEMU + MMC_FIFO
    &&& addr != UART0_BASE_QEMU + UART_THR_OFF
    &&& addr != MMC0_BASE_BBB + MMC_SYSCTL
}

/// Identities over the masked-update shapes every driver produces: a
/// masked write leaves the cleared field empty, sets exactly the bits it
/// ORs in, and a set-bits update shows every subset of those bits.
pub proof fn lemma_bit_masks()
    by (bit_vector)
    ensures
        forall|a: u32, m: u32| #[trigger] ((a & !m) & m) == 0,
        forall|a: u32, m: u32| #[trigger] ((a | m) & m) == m,
        forall|a: u32, b: u32, c: u32| c & b == c ==> #[trigger] ((a | b) & c) == c,
        forall|a: u32, m: u32, v: u32| #[trigger] (((a & !m) | (v & m)) & m) == (v & m),
        forall|v: u32| #![auto] (((v & !0x30000u32 & !0x3) | 0x2) & 0x30000) == 0,
        forall|v: u32| #![auto] (((v & !0x30000u32 & !0x3) | 0x2) & 0x3) == 0x2,
        forall|a: u32, m: u32| #![auto] ((a & !m) & m) == ((a & !m) & m),
{
}

/// A prefix stays a prefix when more output is appended.
pub broadcast proof fn lemma_prefix_append(a: Seq<u8>, b: Seq<u8>, t: Seq<u8>)
    requires
        a.is_prefix_of(b),
    ensures
        #[trigger] a.is_prefix_of(b + t),
{
    assert((b + t).subrange(0, a.len() as int) =~= b.subrange(0, a.len() as int));
}

/// Prefixes chain across successive outputs.
pub broadcast proof fn lemma_prefix_trans(a: Seq<u8>, b: Seq<u8>, c: Seq<u8>)
    requires
        a.is_prefix_of(b),
        b.is_prefix_of(c),
    ensures
        #![trigger a.is_prefix_of(b), b.is_prefix_of(c)]
        a.is_prefix_of(c),
{
    assert(c.subrange(0, a.len() as int) =~= c.subrange(0, b.len() as int).subrange(
        0,
        a.len() as int,
    ));
}

/// A prefix splits the sequence at its length.
pub proof fn lemma_prefix_split(a: Seq<u8>, c: Seq<u8>)
    requires
        a.is_prefix_of(c),
    ensures
        c == a + c.skip(a.len() as int),
{
    assert(c =~= a + c.skip(a.len() as int));
}

/// A sequence is a prefix of itself.
pub broadcast proof fn lemma_prefix_refl(a: Seq<u8>)
    ensures
        #[trigger] a.is_prefix_of(a),
{
    assert(a.subrange(0, a.len() as int) =~= a);
}

/// Everything but the register bank and the console is kept between the
/// two states: how a driver says it only configured registers and spoke
/// on the console.
pub open spec fn keeps_devices(a: MachineV, b: MachineV) -> bool {
    &&& b.dram == a.dram
    &&& b.tables == a.tables
    &&& b.uart_rx == a.uart_rx
    &&& b.i2c == a.i2c
    &&& b.pmic == a.pmic
    &&& b.eeprom == a.eeprom
    &&& b.sd == a.sd
    &&& b.cpu == a.cpu
    &&& b.layout == a.layout
    &&& b.faults == a.faults
}

/// `x / 4 < n` and `x < 4 * n` say the same thing for whole numbers.
pub proof fn lemma_div4_range(x: int, n: int)
    by (nonlinear_arith)
    requires
        x >= 0,
        n >= 0,
    ensures
        (x / 4 < n) == (x < 4 * n),
{
}

// ------------------------------------------------------- exec primitives

impl Machine {
    /// Volatile 32-bit store at `base + off`.
    pub fn write32(&mut self, base: u32, off: u32, v: u32)
        requires
            base + off <= u32::MAX,
            m_wf(old(self)@),
        ensures
            final(self)@ == s_write32(old(self)@, (base + off) as u32, v),
            m_wf(final(self)@),
    {
        let addr = base + off;
        let dbase = self.layout.dram_base;
        let dlen = self.dram.len();
        if addr >= dbase && (((addr - dbase) / 4) as usize) < dlen {
            proof {
                lemma_div4_range(addr - dbase, dlen as int);
                assert(in_dram(self@, addr));
            }
            if (addr - dbase) % 4 == 0 {
                let stored = if addr == dbase {
                    v & !self.faults.dram_stuck
                } else {
                    v
                };
                let wi = ((addr - dbase) / 4) as usize;
                self.dram.set(wi, stored);
            }
            proof {
                assert(self@ =~= s_write32(old(self)@, addr, v));
            }
        } else if addr >= I2C_BASE_ADDR && addr < I2C_BASE_ADDR + 0x100 {
            self.write_i2c(addr, v);
            proof {
                assert(self@ =~= s_write32(old(self)@, addr, v));
            }
        } else if addr >= UART0_BASE_BBB && addr < UART0_BASE_BBB + 0x100 {
            self.write_uart(UART0_BASE_BBB, addr, v);
            proof {
                assert(self@ =~= s_write32(old(self)@, addr, v));
            }
        } else if addr >= UART0_BASE_QEMU && addr < UART0_BASE_QEMU + 0x100 {
            self.write_uart(UART0_BASE_QEMU, addr, v);
            proof {
                assert(self@ =~= s_write32(old(self)@, addr, v));
            }
        } else if addr >= MMC0_BASE_BBB && addr < MMC0_BASE_BBB + 0x300 {
            self.write_mmc_bbb(addr, v);
            proof {
                assert(self@ =~= s_write32(old(self)@, addr, v));
            }
        } else if addr >= MMC0_BASE_QEMU && addr < MMC0_BASE_QEMU + 0x300 {
            self.write_mmc_qemu(addr, v);
            proof {
                assert(self@ =~= s_write32(old(self)@, addr, v));
            }
        } else {
            proof {
                if addr >= dbase {
                    lemma_div4_range(addr - dbase, dlen as int);
                }
                assert(!in_dram(old(self)@, addr));
            }
            self.write_cm(addr, v);
            proof {
                assert(self@ =~= s_write32(old(self)@, addr, v));
            }
        }
    }

    fn write_i2c(&mut self, addr: u32, v: u32)
        requires
            in_i2c(addr),
            !in_dram(old(self)@, addr),
            m_wf(old(self)@),
        ensures
            final(self)@ == s_write_i2c(old(self)@, addr, v),
            m_wf(final(self)@),
    {
        let off = addr - I2C_BASE_ADDR;
        if off == I2C_CON {
            self.bank.set(addr, v);
            if v & I2C_CON_I2C_EN != 0 {
                let sy = I2C_BASE_ADDR + I2C_SYSS;
                let cur = self.bank.get(sy);
                self.bank.set(sy, cur | I2C_SYSS_RDONE);
            }
            if v & I2C_CON_STP != 0 {
                let sa = self.bank_get_old(I2C_BASE_ADDR + I2C_SA);
                if self.i2c.active && self.i2c.txmode && sa == PMIC_TPS65217_I2C_SLAVE_ADDR as u32 {
                    self.pmic_deliver();
                }
                self.i2c.active = false;
                self.i2c.stop = true;
                proof {
                    assert(self@ =~= s_write_i2c(old(self)@, addr, v));
                }
            } else if v & I2C_CON_STT != 0 && v & I2C_CON_MST != 0 {
                if v & I2C_CON_TRX != 0 {
                    self.i2c.active = true;
                    self.i2c.txmode = true;
                    self.i2c.tx = Vec::new();
                    self.i2c.stop = false;
                    proof {
                        assert(self@ =~= s_write_i2c(old(self)@, addr, v));
                    }
                } else {
                    let sa = self.bank_get_old(I2C_BASE_ADDR + I2C_SA);
                    let rx = self.dev_read_exec(sa);
                    self.i2c.active = true;
                    self.i2c.txmode = false;
                    self.i2c.rx = rx;
                    self.i2c.stop = false;
                    proof {
                        assert(self@ =~= s_write_i2c(old(self)@, addr, v));
                    }
                }
            } else {
                proof {
                    assert(self@ =~= s_write_i2c(old(self)@, addr, v));
                }
            }
        } else if off == I2C_CNT {
            self.bank.set(addr, v);
            self.i2c.cnt = v;
            proof {
                assert(self@ =~= s_write_i2c(old(self)@, addr, v));
            }
        } else if off == I2C_DATA {
            self.bank.set(addr, v);
            if self.i2c.active && self.i2c.txmode && (self.i2c.tx.len() as u64) < self.i2c.cnt as u64 {
                self.i2c.tx.push(v as u8);
            }
            proof {
                assert(self@ =~= s_write_i2c(old(self)@, addr, v));
            }
        } else {
            self.bank.set(addr, v);
            proof {
                assert(self@ =~= s_write_i2c(old(self)@, addr, v));
            }
        }
    }

    /// Register value before this mutation sequence began; only sound to
    /// call while the bank still holds its old value at `addr`.
    fn bank_get_old(&self, addr: u32) -> (r: u32)
        ensures
            r == reg_val(self@.bank, addr),
    {
        self.bank.get(addr)
    }

    /// Hands the collected send bytes to the PMIC.
    fn pmic_deliver(&mut self)
        requires
            old(self).pmic.regs.len() == 256,
        ensures
            final(self).pmic@ == pmic_apply(old(self).pmic@, old(self).i2c@.tx),
            final(self).bank == old(self).bank,
            final(self).dram == old(self).dram,
            final(self).tables == old(self).tables,
            final(self).console == old(self).console,
            final(self).uart_rx == old(self).uart_rx,
            final(self).i2c == old(self).i2c,
            final(self).eeprom == old(self).eeprom,
            final(self).sd == old(self).sd,
            final(self).cpu == old(self).cpu,
            final(self).layout == old(self).layout,
            final(self).faults == old(self).faults,
    {
        if self.i2c.tx.len() == 2 {
            let a = self.i2c.tx[0];
            let b = self.i2c.tx[1];
            if a == PASSWORD {
                self.pmic.unlock = Some(b);
            } else if a == DEFDCDC1 || a == DEFDCDC2 || a == DEFDCDC3 || a == DEFSLEW || a == DEFLS1
                || a == DEFLS2 {
                let armed = match self.pmic.unlock {
                    Some(u) => u == a ^ PASSWORD_UNLOCK,
                    None => false,
                };
                if armed {
                    let repeat = match self.pmic.pending {
                        Some(p) => p.0 == a && p.1 == b,
                        None => false,
                    };
                    if repeat {
                        self.pmic.regs.set(a as usize, b);
                        self.pmic.unlock = None;
                        self.pmic.pending = None;
                        proof {
                            assert(self.pmic@ =~= pmic_apply(old(self).pmic@, old(self).i2c@.tx));
                        }
                    } else {
                        self.pmic.unlock = None;
                        self.pmic.pending = Some((a, b));
                        proof {
                            assert(self.pmic@ =~= pmic_apply(old(self).pmic@, old(self).i2c@.tx));
                        }
                    }
                } else {
                    self.pmic.unlock = None;
                    proof {
                        assert(self.pmic@ =~= pmic_apply(old(self).pmic@, old(self).i2c@.tx));
                    }
                }
            } else {
                self.pmic.regs.set(a as usize, b);
                proof {
                    assert(self.pmic@ =~= pmic_apply(old(self).pmic@, old(self).i2c@.tx));
                }
            }
        }
    }

    /// Builds the receive queue for a started receive transfer.
    fn dev_read_exec(&self, sa: u32) -> (r: Vec<u8>)
        requires
            m_wf(self@),
        ensures
            r@ == dev_read(self@, sa, self.i2c@.tx, self.i2c.cnt),
    {
        let n: usize = if self.i2c.cnt <= 256 {
            self.i2c.cnt as usize
        } else {
            256
        };
        let mut out: Vec<u8> = Vec::new();
        if sa == PMIC_TPS65217_I2C_SLAVE_ADDR as u32 {
            let off: usize = if self.i2c.tx.len() > 0 {
                self.i2c.tx[0] as usize
            } else {
                0
            };
            let mut i: usize = 0;
            while i < n
                invariant
                    i <= n,
                    n == (if self.i2c.cnt <= 256 { self.i2c.cnt as int } else { 256 }),
                    self.pmic.regs.len() == 256,
                    off == (if self.i2c@.tx.len() > 0 { self.i2c@.tx[0] as int } else { 0 }),
                    off < 256,
                    out@ =~= Seq::new(i as nat, |j: int| pmic_byte(self@, off + j)),
                decreases n - i,
            {
                let idx = (off + i) % 256;
                let b = if idx < self.pmic.regs.len() {
                    self.pmic.regs[idx]
                } else {
                    0
                };
                out.push(b);
                i = i + 1;
            }
            proof {
                assert(out@ =~= dev_read(self@, sa, self.i2c@.tx, self.i2c.cnt));
            }
        } else if sa == EEPROM_I2C_SLAVE_ADDR as u32 {
            let off: usize = if self.i2c.tx.len() >= 2 {
                (self.i2c.tx[0] as usize) * 256 + self.i2c.tx[1] as usize
            } else {
                0
            };
            let mut i: usize = 0;
            while i < n
                invariant
                    i <= n,
                    n == (if self.i2c.cnt <= 256 { self.i2c.cnt as int } else { 256 }),
                    off == (if self.i2c@.tx.len() >= 2 {
                        self.i2c@.tx[0] * 256 + self.i2c@.tx[1]
                    } else {
                        0
                    }),
                    out@ =~= Seq::new(i as nat, |j: int| byte_at(self@.eeprom, off + j)),
                decreases n - i,
            {
                let b = if off + i < self.eeprom.len() {
                    self.eeprom[off + i]
                } else {
                    0
                };
                out.push(b);
                i = i + 1;
            }
            proof {
                assert(out@ =~= dev_read(self@, sa, self.i2c@.tx, self.i2c.cnt));
            }
        } else {
            let mut i: usize = 0;
            while i < n
                invariant
                    i <= n,
                    out@ =~= Seq::new(i as nat, |j: int| 0u8),
                decreases n - i,
            {
                out.push(0);
                i = i + 1;
            }
            proof {
                assert(out@ =~= dev_read(self@, sa, self.i2c@.tx, self.i2c.cnt));
            }
        }
        out
    }

    fn write_uart(&mut self, base: u32, addr: u32, v: u32)
        requires
            base == UART0_BASE_BBB || base == UART0_BASE_QEMU,
            base <= addr < base + 0x100,
            !in_dram(old(self)@, addr),
            m_wf(old(self)@),
        ensures
            final(self)@ == s_write_uart(old(self)@, base, addr, v),
            m_wf(final(self)@),
    {
        let off = addr - base;
        if off == UART_THR_OFF {
            let lcr = self.bank.get(base + UART_LCR_OFF);
            if lcr & 0x80 == 0 {
                self.console.push(v as u8);
            } else {
                self.bank.set(addr, v);
            }
        } else if off == UART_SYSC_OFF && v & 0x2 != 0 {
            let sy = base + UART_SYSS_OFF;
            let cur = self.bank.get(sy);
            self.bank.set(addr, v);
            self.bank.set(sy, cur | 0x1);
        } else {
            self.bank.set(addr, v);
        }
        proof {
            assert(self@ =~= s_write_uart(old(self)@, base, addr, v));
        }
    }

    fn write_mmc_bbb(&mut self, addr: u32, v: u32)
        requires
            in_mmc_bbb(addr),
            !in_dram(old(self)@, addr),
            m_wf(old(self)@),
        ensures
            final(self)@ == s_write_mmc_bbb(old(self)@, addr, v),
            m_wf(final(self)@),
    {
        let off = addr - MMC0_BASE_BBB;
        if off == MMC_SYSCONFIG && v & MMC_SYSCONFIG_SOFTRESET != 0 {
            let sy = MMC0_BASE_BBB + MMC_SYSSTATUS;
            let cur = self.bank.get(sy);
            self.bank.set(addr, v & !MMC_SYSCONFIG_SOFTRESET);
            self.bank.set(sy, cur | MMC_SYSSTATUS_RESETDONE);
        } else if off == MMC_STAT {
            self.sd.stat = self.sd.stat & !v;
        } else if off == MMC_CMD {
            let arg = self.bank.get(MMC0_BASE_BBB + MMC_ARG);
            let resp = self.sd_resp_exec(v >> 24, arg);
            self.bank.set(addr, v);
            if !self.faults.sd_no_response {
                self.sd.stat = self.sd.stat | MMCHS_STAT_CC;
                self.sd.rsp10 = resp;
            }
        } else {
            self.bank.set(addr, v);
        }
        proof {
            assert(self@ =~= s_write_mmc_bbb(old(self)@, addr, v));
        }
    }

    fn sd_resp_exec(&self, cmd: u32, arg: u32) -> (r: u32)
        ensures
            r == sd_resp(self@, cmd, arg),
    {
        if cmd == 8 {
            match self.faults.cmd8_override {
                Some(x) => x,
                None => arg & 0xFFF,
            }
        } else if cmd == 41 {
            0x80FF_8000
        } else if cmd == 3 {
            0x1234_0500
        } else {
            0
        }
    }

    fn write_mmc_qemu(&mut self, addr: u32, v: u32)
        requires
            in_mmc_qemu(addr),
            !in_dram(old(self)@, addr),
            m_wf(old(self)@),
        ensures
            final(self)@ == s_write_mmc_qemu(old(self)@, addr, v),
            m_wf(final(self)@),
    {
        let off = addr - MMC0_BASE_QEMU;
        if off == MMC_GCTRL {
            self.bank.set(addr, v & !SD_GCTL_SOFT_RST);
        } else if off == MMC_QCMD && v & SD_CMDR_LOAD != 0 {
            let cmd = v & 0x3F;
            let arg = self.bank.get(MMC0_BASE_QEMU + MMC_QARG);
            if self.faults.sd_no_response {
                self.sd.rint = self.sd.rint | SD_RISR_NO_RESPONSE;
            } else {
                let resp = self.sd_resp_exec(cmd, arg);
                self.sd.rint = self.sd.rint | SD_RISR_CMD_COMPLETE;
                self.sd.resp0 = resp;
                if cmd == 17 {
                    let w = self.fifo_load_exec(arg);
                    self.sd.fifo = w;
                }
            }
            self.bank.set(addr, v);
        } else {
            self.bank.set(addr, v);
        }
        proof {
            assert(self@ =~= s_write_mmc_qemu(old(self)@, addr, v));
        }
    }

    fn fifo_load_exec(&self, arg: u32) -> (r: Vec<u32>)
        ensures
            r@ == fifo_load(self@.sd.disk, arg),
    {
        let mut out: Vec<u32> = Vec::new();
        let mut i: usize = 0;
        while i < 128
            invariant
                i <= 128,
                out@ =~= Seq::new(i as nat, |j: int| le32_at(self@.sd.disk, arg + 4 * j)),
            decreases 128 - i,
        {
            let base: u64 = arg as u64 + 4 * i as u64;
            let b0 = self.disk_byte(base);
            let b1 = self.disk_byte(base + 1);
            let b2 = self.disk_byte(base + 2);
            let b3 = self.disk_byte(base + 3);
            let w = (b0 as u32) | (b1 as u32) << 8 | (b2 as u32) << 16 | (b3 as u32) << 24;
            out.push(w);
            i = i + 1;
        }
        proof {
            assert(out@ =~= fifo_load(self@.sd.disk, arg));
        }
        out
    }

    fn disk_byte(&self, off: u64) -> (r: u8)
        ensures
            r == byte_at(self@.sd.disk, off as int),
    {
        if off < self.sd.disk.len() as u64 {
            self.sd.disk[off as usize]
        } else {
            0
        }
    }

    fn write_cm(&mut self, addr: u32, v: u32)
        requires
            !in_dram(old(self)@, addr),
            !in_i2c(addr),
            !in_uart_bbb(addr),
            !in_uart_qemu(addr),
            !in_mmc_bbb(addr),
            !in_mmc_qemu(addr),
            m_wf(old(self)@),
        ensures
            final(self)@ == s_write_cm(old(self)@, addr, v),
            m_wf(final(self)@),
    {
        if addr == CM_WKUP_BASE + CM_CLKMODE_DPLL_MPU {
            self.bank.set(addr, v);
            self.bank.set(CM_WKUP_BASE + CM_WKUP_CM_IDLEST_DPLL_MPU, pll_status_exec(v));
        } else if addr == CM_WKUP_BASE + CM_WKUP_CM_CLKMODE_DPLL_CORE {
            self.bank.set(addr, v);
            self.bank.set(CM_WKUP_BASE + CM_WKUP_CM_IDLEST_DPLL_CORE, pll_status_exec(v));
        } else if addr == CM_WKUP_BASE + CM_WKUP_CM_CLKMODE_DPLL_PER {
            self.bank.set(addr, v);
            self.bank.set(CM_WKUP_BASE + CM_WKUP_CM_IDLEST_DPLL_PER, pll_status_exec(v));
        } else if addr == CM_WKUP_BASE + CM_WKUP_CM_CLKMODE_DPLL_DDR {
            self.bank.set(addr, v);
            self.bank.set(CM_WKUP_BASE + CM_WKUP_CM_IDLEST_DPLL_DDR, pll_status_exec(v));
        } else if is_clkstctrl_exec(addr) {
            if v & CLKTRCTRL_SW_WKUP == CLKTRCTRL_SW_WKUP {
                self.bank.set(addr, v | CLKSTCTRL_ACTIVITY_BITS);
            } else {
                self.bank.set(addr, v);
            }
        } else if (addr == CM_PER_BASE + CM_PER_EMIF_FW_CLKCTRL || addr == CM_PER_BASE
            + CM_PER_EMIF_CLKCTRL) && v & CLKCTRL_MODULEMODE_ENABLE == CLKCTRL_MODULEMODE_ENABLE {
            let l3 = CM_PER_BASE + CM_PER_L3_CLKSTCTRL;
            let cur = self.bank.get(l3);
            self.bank.set(addr, (v & !CLKCTRL_IDLEST & !CLKCTRL_MODULEMODE)
                | CLKCTRL_MODULEMODE_ENABLE);
            self.bank.set(
                l3,
                cur | CM_PER_L3_CLKSTCTRL_CLKACTIVITY_EMIF_GCLK
                    | CM_PER_L3_CLKSTCTRL_CLKACTIVITY_L3_GCLK,
            );
        } else if is_clkctrl_exec(addr) && v & CLKCTRL_MODULEMODE_ENABLE
            == CLKCTRL_MODULEMODE_ENABLE {
            self.bank.set(addr, (v & !CLKCTRL_IDLEST & !CLKCTRL_MODULEMODE)
                | CLKCTRL_MODULEMODE_ENABLE);
        } else if addr == CONTROL_MODULE_BASE + CONTROL_VTP_CTRL {
            if v & CONTROL_VTP_CTRL_ENABLE != 0 && v & CONTROL_VTP_CTRL_CLRZ != 0 {
                self.bank.set(addr, v | CONTROL_VTP_CTRL_READY);
            } else {
                self.bank.set(addr, v);
            }
        } else {
            self.bank.set(addr, v);
        }
        proof {
            assert(self@ =~= s_write_cm(old(self)@, addr, v));
        }
    }

    /// Volatile 32-bit load at `base + off`.
    pub fn read32(&mut self, base: u32, off: u32) -> (r: u32)
        requires
            base + off <= u32::MAX,
            m_wf(old(self)@),
        ensures
            r == s_read_val(old(self)@, (base + off) as u32),
            final(self)@ == s_read_step(old(self)@, (base + off) as u32),
            m_wf(final(self)@),
    {
        let addr = base + off;
        let dbase = self.layout.dram_base;
        let dlen = self.dram.len();
        if addr >= dbase && (((addr - dbase) / 4) as usize) < dlen {
            proof {
                lemma_div4_range(addr - dbase, dlen as int);
                assert(in_dram(self@, addr));
            }
            if (addr - dbase) % 4 == 0 {
                let wi = ((addr - dbase) / 4) as usize;
                self.dram[wi]
            } else {
                0
            }
        } else if addr == I2C_BASE_ADDR + I2C_IRQSTATUS_RAW {
            let e = &self.i2c;
            let bb: u32 = if e.active {
                I2C_IRQSTATUS_RAW_BB
            } else {
                0
            };
            let xrdy: u32 = if e.active && e.txmode && (e.tx.len() as u64) < e.cnt as u64 {
                I2C_IRQSTATUS_XRDY
            } else {
                0
            };
            let ardy: u32 = if e.active && e.txmode && (e.tx.len() as u64) >= e.cnt as u64 {
                I2C_IRQSTATUS_ARDY
            } else {
                0
            };
            let rrdy: u32 = if e.rx.len() > 0 {
                I2C_IRQSTATUS_RRDY
            } else {
                0
            };
            let bf: u32 = if e.stop {
                I2C_IRQSTATUS_BF
            } else {
                0
            };
            bb | xrdy | ardy | rrdy | bf
        } else if addr == I2C_BASE_ADDR + I2C_DATA {
            let r = if self.i2c.rx.len() > 0 {
                let b = self.i2c.rx.remove(0);
                b as u32
            } else {
                0
            };
            proof {
                if old(self).i2c.rx@.len() > 0 {
                    assert(self.i2c.rx@ =~= old(self).i2c.rx@.skip(1));
                }
                assert(self@ =~~= s_read_step(old(self)@, addr));
            }
            r
        } else if addr == MMC0_BASE_QEMU + MMC_RINT {
            self.sd.rint
        } else if addr == MMC0_BASE_QEMU + MMC_RESP0 {
            self.sd.resp0
        } else if addr == MMC0_BASE_QEMU + MMC_FIFO {
            let r = if self.sd.fifo.len() > 0 {
                self.sd.fifo.remove(0)
            } else {
                0
            };
            proof {
                if old(self).sd.fifo@.len() > 0 {
                    assert(self.sd.fifo@ =~= old(self).sd.fifo@.skip(1));
                }
                assert(self@ =~~= s_read_step(old(self)@, addr));
            }
            r
        } else if addr == MMC0_BASE_BBB + MMC_STAT {
            self.sd.stat
        } else if addr == MMC0_BASE_BBB + MMC_RSP10 {
            self.sd.rsp10
        } else if addr == MMC0_BASE_BBB + MMC_SYSCTL {
            let cur = self.bank.get(addr);
            let r = cur | MMC_SYSCTL_ICS;
            self.bank.set(addr, cur & !(MMC_SYSCTL_SRA | MMC_SYSCTL_SRC | MMC_SYSCTL_SRD));
            proof {
                assert(self@ =~= s_read_step(old(self)@, addr));
            }
            r
        } else if addr == UART0_BASE_BBB + UART_LSR_OFF {
            if self.uart_rx.len() > 0 {
                0x21
            } else {
                0x20
            }
        } else if addr == UART0_BASE_QEMU + UART_LSR_OFF {
            if self.uart_rx.len() > 0 {
                1
            } else {
                0
            }
        } else if addr == UART0_BASE_QEMU + UART_THR_OFF {
            let r = if self.uart_rx.len() > 0 {
                let b = self.uart_rx.remove(0);
                b as u32
            } else {
                0
            };
            proof {
                if old(self).uart_rx@.len() > 0 {
                    assert(self.uart_rx@ =~= old(self).uart_rx@.skip(1));
                }
                assert(self@ =~~= s_read_step(old(self)@, addr));
            }
            r
        } else {
            proof {
                if addr >= dbase {
                    lemma_div4_range(addr - dbase, dlen as int);
                }
            }
            self.bank.get(addr)
        }
    }

    /// Masked load: the §register value with only the `mask` bits kept.
    pub fn read_masked(&mut self, base: u32, off: u32, mask: u32) -> (r: u32)
        requires
            base + off <= u32::MAX,
            m_wf(old(self)@),
        ensures
            m_wf(final(self)@),
            r == s_read_val(old(self)@, (base + off) as u32) & mask,
            final(self)@ == s_read_step(old(self)@, (base + off) as u32),
    {
        let v = self.read32(base, off);
        v & mask
    }

    /// Read-modify-write: clears the `mask` bits and ORs in `v & mask`.
    pub fn write_masked(&mut self, base: u32, off: u32, mask: u32, v: u32)
        requires
            base + off <= u32::MAX,
            m_wf(old(self)@),
        ensures
            m_wf(final(self)@),
            final(self)@ == s_write32(
                s_read_step(old(self)@, (base + off) as u32),
                (base + off) as u32,
                (s_read_val(old(self)@, (base + off) as u32) & !mask) | (v & mask),
            ),
    {
        let cur = self.read32(base, off);
        self.write32(base, off, (cur & !mask) | (v & mask));
    }

    /// Read-modify-write clearing the given bits.
    pub fn clear_bits(&mut self, base: u32, off: u32, bits: u32)
        requires
            base + off <= u32::MAX,
            m_wf(old(self)@),
        ensures
            m_wf(final(self)@),
            final(self)@ == s_write32(
                s_read_step(old(self)@, (base + off) as u32),
                (base + off) as u32,
                s_read_val(old(self)@, (base + off) as u32) & !bits,
            ),
    {
        let cur = self.read32(base, off);
        self.write32(base, off, cur & !bits);
    }

    /// Busy-waits until the masked register value equals `want`; the
    /// address must be one whose load has no side effect. The board model
    /// is memoryless between polls, so the caller shows the condition
    /// already holds; the spin is kept because the sequence on real
    /// silicon reaches this point with the condition possibly still
    /// settling.
    pub fn wait_masked_eq(&mut self, base: u32, off: u32, mask: u32, want: u32)
        requires
            base + off <= u32::MAX,
            m_wf(old(self)@),
            pure_read((base + off) as u32),
            s_read_val(old(self)@, (base + off) as u32) & mask == want,
        ensures
            final(self)@ == old(self)@,
    {
        let mut v = self.read_masked(base, off, mask);
        while v != want
            invariant
                self@ == old(self)@,
                v == want,
            decreases 0int,
        {
            v = self.read_masked(base, off, mask);
        }
    }
}

/// A vector of `n` zero words.
pub fn zero_words(n: usize) -> (r: Vec<u32>)
    ensures
        r@ == Seq::new(n as nat, |i: int| 0u32),
{
    let mut out: Vec<u32> = Vec::new();
    let mut i: usize = 0;
    while i < n
        invariant
            i <= n,
            out@ =~= Seq::new(i as nat, |j: int| 0u32),
        decreases n - i,
    {
        out.push(0);
        i = i + 1;
    }
    proof {
        assert(out@ =~= Seq::new(n as nat, |i: int| 0u32));
    }
    out
}

/// A vector of `n` zero bytes.
pub fn zero_bytes(n: usize) -> (r: Vec<u8>)
    ensures
        r@ == Seq::new(n as nat, |i: int| 0u8),
{
    let mut out: Vec<u8> = Vec::new();
    let mut i: usize = 0;
    while i < n
        invariant
            i <= n,
            out@ =~= Seq::new(i as nat, |j: int| 0u8),
        decreases n - i,
    {
        out.push(0);
        i = i + 1;
    }
    proof {
        assert(out@ =~= Seq::new(n as nat, |i: int| 0u8));
    }
    out
}

impl Machine {
    /// A cold board with `dram_words` words of DRAM, everything at reset,
    /// no faults, and the default linker layout.
    pub fn new(dram_words: usize) -> (r: Machine)
        requires
            dram_words <= 0x800_0000,
        ensures
            m_wf(r@),
            r@.bank == Map::<u32, u32>::empty(),
            r@.dram == Seq::new(dram_words as nat, |i: int| 0u32),
            r@.tables == Seq::new(4096, |i: int| 0u32),
            r@.console == Seq::<u8>::empty(),
            r@.uart_rx == Seq::<u8>::empty(),
            r@.i2c == (I2cV {
                active: false,
                txmode: false,
                cnt: 0,
                tx: Seq::empty(),
                rx: Seq::empty(),
                stop: false,
            }),
            r@.pmic == (PmicV {
                regs: Seq::new(256, |i: int| 0u8),
                unlock: None,
                pending: None,
            }),
            r@.eeprom == Seq::<u8>::empty(),
            r@.sd == (SdV {
                disk: Seq::empty(),
                rint: 0,
                resp0: 0,
                fifo: Seq::empty(),
                stat: 0,
                rsp10: 0,
            }),
            r@.cpu == (Cpu { ttbr0: 0, ttbr1: 0, dacr: 0, sctlr: 0 }),
            r@.layout == (BoardLayout {
                dram_base: 0x8000_0000,
                tables_start: 0x402F_0000,
                tables_end: 0x402F_4000,
                init_addr: 0x402F_0400,
            }),
            r@.faults == (Faults { dram_stuck: 0, cmd8_override: None, sd_no_response: false }),
    {
        let m = Machine {
            bank: RegBank::new(),
            dram: zero_words(dram_words),
            tables: zero_words(4096),
            console: Vec::new(),
            uart_rx: Vec::new(),
            i2c: I2cEngine {
                active: false,
                txmode: false,
                cnt: 0,
                tx: Vec::new(),
                rx: Vec::new(),
                stop: false,
            },
            pmic: Pmic { regs: zero_bytes(256), unlock: None, pending: None },
            eeprom: Vec::new(),
            sd: SdCard { disk: Vec::new(), rint: 0, resp0: 0, fifo: Vec::new(), stat: 0, rsp10: 0 },
            cpu: Cpu { ttbr0: 0, ttbr1: 0, dacr: 0, sctlr: 0 },
            layout: BoardLayout {
                dram_base: 0x8000_0000,
                tables_start: 0x402F_0000,
                tables_end: 0x402F_4000,
                init_addr: 0x402F_0400,
            },
            faults: Faults { dram_stuck: 0, cmd8_override: None, sd_no_response: false },
        };
        proof {
            assert(m.i2c@ =~= I2cV {
                active: false,
                txmode: false,
                cnt: 0,
                tx: Seq::empty(),
                rx: Seq::empty(),
                stop: false,
            });
            assert(m.sd@ =~= SdV {
                disk: Seq::empty(),
                rint: 0,
                resp0: 0,
                fifo: Seq::empty(),
                stat: 0,
                rsp10: 0,
            });
            assert(m.pmic@ =~= PmicV {
                regs: Seq::new(256, |i: int| 0u8),
                unlock: None,
                pending: None,
            });
        }
        m
    }
}

pub fn pll_status_exec(v: u32) -> (r: u32)
    ensures
        r == pll_status(v),
{
    if v & DPLL_EN == DPLL_EN_LOCK_MODE {
        ST_DPLL_CLK
    } else if v & DPLL_EN == DPLL_EN_MN_BYP_MODE {
        ST_MN_BYPASS
    } else {
        0
    }
}

fn is_clkctrl_exec(addr: u32) -> (r: bool)
    ensures
        r == is_clkctrl(addr),
{
    addr == CM_PER_BASE + CM_PER_L3_CLKCTRL || addr == CM_PER_BASE + CM_PER_L3_INSTR_CLKCTRL
        || addr == CM_PER_BASE + CM_PER_L4LS_CLKCTRL || addr == CM_PER_BASE + CM_PER_L4FW_CLKCTRL
        || addr == CM_PER_BASE + CM_PER_L4HS_CLKCTRL || addr == CM_PER_BASE + CM_PER_MMC0_CLKCTRL
        || addr == CM_WKUP_BASE + CM_WKUP_CONTROL_CLKCTRL || addr == CM_WKUP_BASE
        + CM_WKUP_L4WKUP_CLKCTRL || addr == CM_WKUP_BASE + CM_WKUP_I2C0_CLKCTRL || addr
        == CM_WKUP_BASE + CM_WKUP_UART0_CLKCTRL
}

fn is_clkstctrl_exec(addr: u32) -> (r: bool)
    ensures
        r == is_clkstctrl(addr),
{
    addr == CM_PER_BASE + CM_PER_L3_CLKSTCTRL || addr == CM_PER_BASE + CM_PER_L4LS_CLKSTCTRL
        || addr == CM_PER_BASE + CM_PER_L3S_CLKSTCTRL || addr == CM_PER_BASE
        + CM_PER_L4FW_CLKSTCTRL || addr == CM_PER_BASE + CM_PER_OCPWP_L3_CLKSTCTRL || addr
        == CM_WKUP_BASE + CM_WKUP_CLKSTCTRL || addr == CM_WKUP_BASE + CM_WKUP_CM_L3_AON_CLKSTCTRL
        || addr == CM_WKUP_BASE + CM_WKUP_CM_L4_WKUP_AON_CLKSTCTRL
}

/// Spec helper naming one byte of the PMIC register file as the receive
/// path hands it out.
pub open spec fn pmic_byte(m: MachineV, idx: int) -> u8 {
    m.pmic.regs[idx % 256]
}

} // verus!
