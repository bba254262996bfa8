//! UART0 console at 115200 8N1: platform bring-up and the byte-stream
//! interface the diagnostics layer needs.
//!
//! On the highspeed board the driver follows the reference manual's
//! bring-up order — module clocks, pin mux, soft reset, FIFO and divisor
//! programming under the configuration modes, then the protocol word —
//! and translates a line feed to carriage return plus line feed on the
//! wire. The emulator UART needs only the divisor latch and FIFO enable
//! and transmits bytes unchanged.

use vstd::prelude::*;

use crate::bank::reg_val;
use crate::fmt::{dec_bytes, dec_digits, hex_bytes, hex_digits};
use crate::machine::{keeps_devices, m_wf, Machine, MachineV};
use crate::regs::{CM_WKUP_BASE, CM_WKUP_L4WKUP_CLKCTRL, CM_WKUP_UART0_CLKCTRL,
    CONTROL_MODULE_BASE, CONTROL_MODULE_CONF_UART0_RXD, CONTROL_MODULE_CONF_UART0_TXD,
    UART0_BASE_BBB, UART0_BASE_QEMU, UART_DLH_OFF, UART_DLL_OFF, UART_EFR_OFF, UART_FCR_OFF,
    UART_IER_OFF, UART_LCR_OFF, UART_LSR_OFF, UART_MCR_OFF, UART_MDR1_OFF, UART_SCR_OFF,
    UART_SYSC_OFF, UART_SYSS_OFF, UART_THR_OFF, UART_TLR_OFF};

verus! {

/// Which board the bootloader is running on.
#[derive(Clone, Copy, PartialEq, Eq, Structural, Debug)]
pub enum Platform {
    /// The real highspeed board.
    Bbb,
    /// The emulator target.
    Qemu,
}

/// Errors of the byte-stream interface.
#[derive(Clone, Copy, PartialEq, Eq, Structural, Debug)]
pub enum UartError {
    ReadError,
    WriteError,
}

pub open spec fn uart_base(p: Platform) -> u32 {
    match p {
        Platform::Bbb => UART0_BASE_BBB,
        Platform::Qemu => UART0_BASE_QEMU,
    }
}

fn uart_base_exec(p: Platform) -> (r: u32)
    ensures
        r == uart_base(p),
{
    match p {
        Platform::Bbb => UART0_BASE_BBB,
        Platform::Qemu => UART0_BASE_QEMU,
    }
}

/// The divisor latch is closed, so a write to the data register goes out
/// on the wire. `init` establishes this and nothing the crate does
/// afterwards revokes it.
pub open spec fn uart_configured(m: MachineV, p: Platform) -> bool {
    reg_val(m.bank, (uart_base(p) + UART_LCR_OFF) as u32) & 0x80 == 0
}

/// The two UART configuration registers the console path reads are the
/// same in both states: drivers that only touch other registers state
/// this so printing stays possible after them.
pub open spec fn uart_untouched(a: MachineV, b: MachineV) -> bool {
    &&& reg_val(b.bank, (UART0_BASE_BBB + UART_LCR_OFF) as u32) == reg_val(
        a.bank,
        (UART0_BASE_BBB + UART_LCR_OFF) as u32,
    )
    &&& reg_val(b.bank, (UART0_BASE_QEMU + UART_LCR_OFF) as u32) == reg_val(
        a.bank,
        (UART0_BASE_QEMU + UART_LCR_OFF) as u32,
    )
}

/// The I2C control register is the same in both states: the console
/// bring-up never touches the I2C block.
pub open spec fn i2c_con_untouched(a: MachineV, b: MachineV) -> bool {
    reg_val(b.bank, (crate::regs::I2C_BASE_ADDR + crate::regs::I2C_CON) as u32) == reg_val(
        a.bank,
        (crate::regs::I2C_BASE_ADDR + crate::regs::I2C_CON) as u32,
    )
}

/// The device-identification registers the operating-point selection
/// reads are the same in both states.
pub open spec fn ids_untouched(a: MachineV, b: MachineV) -> bool {
    &&& reg_val(b.bank, (crate::regs::CONTROL_MODULE_BASE + crate::regs::CONTROL_DEVICE_ID) as u32)
        == reg_val(
        a.bank,
        (crate::regs::CONTROL_MODULE_BASE + crate::regs::CONTROL_DEVICE_ID) as u32,
    )
    &&& reg_val(b.bank, (crate::regs::CONTROL_MODULE_BASE + crate::regs::CONTROL_EFUSE_SMA) as u32)
        == reg_val(
        a.bank,
        (crate::regs::CONTROL_MODULE_BASE + crate::regs::CONTROL_EFUSE_SMA) as u32,
    )
}

/// What one written byte becomes on the wire.
pub open spec fn byte_render(p: Platform, b: u8) -> Seq<u8> {
    if p == Platform::Bbb && b == 0x0A {
        seq![0x0D, 0x0A]
    } else {
        seq![b]
    }
}

/// What a byte string becomes on the wire.
pub open spec fn render(p: Platform, s: Seq<u8>) -> Seq<u8>
    decreases s.len(),
{
    if s.len() == 0 {
        Seq::empty()
    } else {
        byte_render(p, s[0]) + render(p, s.skip(1))
    }
}

/// Rendering a single byte is that byte's wire form.
pub proof fn lemma_render_single(p: Platform, b: u8)
    ensures
        render(p, seq![b]) == byte_render(p, b),
{
    assert(seq![b].skip(1) =~= Seq::<u8>::empty());
    assert(render(p, seq![b].skip(1)) == Seq::<u8>::empty());
    assert(render(p, seq![b]) =~= byte_render(p, b));
}

/// Rendering distributes over concatenation.
pub proof fn lemma_render_app(p: Platform, s: Seq<u8>, t: Seq<u8>)
    ensures
        render(p, s + t) == render(p, s) + render(p, t),
    decreases s.len(),
{
    if s.len() == 0 {
        assert(s + t =~= t);
        assert(render(p, s) + render(p, t) =~= render(p, t));
    } else {
        assert((s + t).skip(1) =~= s.skip(1) + t);
        lemma_render_app(p, s.skip(1), t);
        assert(render(p, s + t) =~= render(p, s) + render(p, t));
    }
}

/// Constant bit facts the UART paths rest on.
proof fn lemma_uart_consts()
    by (bit_vector)
    ensures
        forall|v: u32| #![auto] (((v & !0x30000u32 & !0x3) | 0x2) & 0x30000) == 0,
        forall|a: u32, m: u32, v: u32| #![auto] (((a & !m) | (v & m)) & m) == (v & m),
        2u32 & 2 == 2,
        0x3u32 & 0x80 == 0,
        0x80u32 & 0x80 != 0,
        0xBFu32 & 0x80 != 0,
        0x21u32 & 0x20 == 0x20,
        0x20u32 & 0x20 == 0x20,
        2u32 & 3 == 2,
        2u32 & 2 == 2,
        0x8u32 & 0x2 == 0,
        0x7u32 & 0x7 == 0x7,
        0x10u32 & 0x10 == 0x10,
        0x40u32 & 0x40 == 0x40,
        0x0u32 & 0x80 == 0,
{
}

/// Sends one byte out of the configured UART.
pub fn write_byte(m: &mut Machine, p: Platform, b: u8)
    requires
        m_wf(old(m)@),
        uart_configured(old(m)@, p),
    ensures
        final(m)@ == (MachineV { console: old(m)@.console + byte_render(p, b), ..old(m)@ }),
{
    let base = uart_base_exec(p);
    proof {
        lemma_uart_consts();
    }
    match p {
        Platform::Qemu => {
            m.write32(base, UART_THR_OFF, b as u32);
            proof {
                assert(m@ =~~= (MachineV {
                    console: old(m)@.console + byte_render(p, b),
                    ..old(m)@
                }));
            }
        },
        Platform::Bbb => {
            if b == 0x0A {
                m.wait_masked_eq(base, UART_LSR_OFF, 0x20, 0x20);
                m.write32(base, UART_THR_OFF, 0x0D);
            }
            m.wait_masked_eq(base, UART_LSR_OFF, 0x20, 0x20);
            m.write32(base, UART_THR_OFF, b as u32);
            proof {
                assert(m@ =~~= (MachineV {
                    console: old(m)@.console + byte_render(p, b),
                    ..old(m)@
                }));
            }
        },
    }
}

/// Sends a byte string out of the configured UART.
pub fn write_bytes(m: &mut Machine, p: Platform, s: &[u8])
    requires
        m_wf(old(m)@),
        uart_configured(old(m)@, p),
    ensures
        final(m)@ == (MachineV { console: old(m)@.console + render(p, s@), ..old(m)@ }),
{
    let n = s.len();
    let mut i: usize = 0;
    while i < n
        invariant
            i <= n,
            n == s@.len(),
            m_wf(m@),
            uart_configured(m@, p),
            m@ == (MachineV { console: old(m)@.console + render(p, s@.take(i as int)), ..old(m)@ }),
        decreases n - i,
    {
        let b = s[i];
        write_byte(m, p, b);
        proof {
            assert(s@.take(i + 1) =~= s@.take(i as int) + seq![s@[i as int]]);
            lemma_render_app(p, s@.take(i as int), seq![s@[i as int]]);
            lemma_render_single(p, s@[i as int]);
            assert(m@ =~~= (MachineV {
                console: old(m)@.console + render(p, s@.take(i + 1)),
                ..old(m)@
            }));
        }
        i = i + 1;
    }
    proof {
        assert(s@.take(n as int) =~= s@);
    }
}

/// Sends a byte string followed by a line feed.
pub fn put_line(m: &mut Machine, p: Platform, s: &[u8])
    requires
        m_wf(old(m)@),
        uart_configured(old(m)@, p),
    ensures
        final(m)@ == (MachineV {
            console: old(m)@.console + render(p, s@ + seq![0x0Au8]),
            ..old(m)@
        }),
{
    write_bytes(m, p, s);
    write_byte(m, p, 0x0A);
    proof {
        lemma_render_app(p, s@, seq![0x0Au8]);
        lemma_render_single(p, 0x0A);
        assert(m@ =~~= (MachineV {
            console: old(m)@.console + render(p, s@ + seq![0x0Au8]),
            ..old(m)@
        }));
    }
}

/// Sends the decimal rendering of `n`.
pub fn put_dec(m: &mut Machine, p: Platform, n: u32)
    requires
        m_wf(old(m)@),
        uart_configured(old(m)@, p),
    ensures
        final(m)@ == (MachineV {
            console: old(m)@.console + render(p, dec_digits(n as nat)),
            ..old(m)@
        }),
{
    let v = dec_bytes(n);
    write_bytes(m, p, v.as_slice());
}

/// Sends the hexadecimal rendering of `n`.
pub fn put_hex(m: &mut Machine, p: Platform, n: u32)
    requires
        m_wf(old(m)@),
        uart_configured(old(m)@, p),
    ensures
        final(m)@ == (MachineV {
            console: old(m)@.console + render(p, hex_digits(n as nat)),
            ..old(m)@
        }),
{
    let v = hex_bytes(n);
    write_bytes(m, p, v.as_slice());
}

/// Receives one byte if the receiver holds one. Only the emulator target
/// has a readable receiver.
pub fn read_byte(m: &mut Machine, p: Platform) -> (r: Option<u8>)
    requires
        m_wf(old(m)@),
    ensures
        match p {
            Platform::Bbb => r is None && final(m)@ == old(m)@,
            Platform::Qemu => {
                if old(m)@.uart_rx.len() > 0 {
                    r == Some(old(m)@.uart_rx[0]) && final(m)@ == (MachineV {
                        uart_rx: old(m)@.uart_rx.skip(1),
                        ..old(m)@
                    })
                } else {
                    r is None && final(m)@ == old(m)@
                }
            },
        },
{
    match p {
        Platform::Bbb => None,
        Platform::Qemu => {
            let lsr = m.read32(UART0_BASE_QEMU, UART_LSR_OFF);
            if lsr == 1 {
                let b = m.read32(UART0_BASE_QEMU, UART_THR_OFF);
                proof {
                    assert(m@ =~~= (MachineV { uart_rx: old(m)@.uart_rx.skip(1), ..old(m)@ }));
                }
                Some(b as u8)
            } else {
                None
            }
        },
    }
}

/// Brings UART0 up at 115200 8N1 and announces itself on the console.
pub fn init(m: &mut Machine, p: Platform)
    requires
        m_wf(old(m)@),
    ensures
        m_wf(final(m)@),
        uart_configured(final(m)@, p),
        keeps_devices(old(m)@, final(m)@),
        ids_untouched(old(m)@, final(m)@),
        i2c_con_untouched(old(m)@, final(m)@),
        final(m)@.console == old(m)@.console + render(p, active_banner()),
{
    match p {
        Platform::Qemu => init_qemu(m),
        Platform::Bbb => init_bbb(m),
    }
    let banner = crate::msgs::uart0_active();
    put_line(m, p, banner.as_slice());
    proof {
        assert(banner@ + seq![0x0Au8] =~= active_banner());
    }
}

/// The banner `init` prints, line feed included.
pub open spec fn active_banner() -> Seq<u8> {
    crate::msgs::s_uart0_active() + seq![0x0Au8]
}

/// Divisor latch and FIFO programming of the emulator UART.
fn init_qemu(m: &mut Machine)
    requires
        m_wf(old(m)@),
    ensures
        m_wf(final(m)@),
        uart_configured(final(m)@, Platform::Qemu),
        keeps_devices(old(m)@, final(m)@),
        ids_untouched(old(m)@, final(m)@),
        i2c_con_untouched(old(m)@, final(m)@),
        final(m)@.console == old(m)@.console,
{
    proof {
        lemma_uart_consts();
    }
    let base = UART0_BASE_QEMU;
    m.write32(base, UART_IER_OFF, 0x0);
    m.write32(base, UART_LCR_OFF, 0x80);
    m.write32(base, UART_THR_OFF, 13);
    m.write32(base, UART_IER_OFF, 0x0);
    m.write32(base, UART_LCR_OFF, 0x3);
    m.write32(base, UART_FCR_OFF, 0x1);
}

/// Full reference-manual bring-up of the highspeed board UART: module and
/// interface clocks, pin mux, reset, FIFO and divisor programming, and
/// the 8N1 protocol word.
#[verifier::rlimit(100)]
fn init_bbb(m: &mut Machine)
    requires
        m_wf(old(m)@),
    ensures
        m_wf(final(m)@),
        uart_configured(final(m)@, Platform::Bbb),
        keeps_devices(old(m)@, final(m)@),
        ids_untouched(old(m)@, final(m)@),
        i2c_con_untouched(old(m)@, final(m)@),
        final(m)@.console == old(m)@.console,
{
    proof {
        lemma_uart_consts();
        crate::machine::lemma_bit_masks();
    }
    let base = UART0_BASE_BBB;

    // UART0 functional clock, then the L4 wakeup interface clock.
    m.write_masked(CM_WKUP_BASE, CM_WKUP_UART0_CLKCTRL, 0x3, 0x2);
    m.wait_masked_eq(CM_WKUP_BASE, CM_WKUP_UART0_CLKCTRL, 0x30000, 0);
    m.write_masked(CM_WKUP_BASE, CM_WKUP_L4WKUP_CLKCTRL, 0x3, 0x2);
    m.wait_masked_eq(CM_WKUP_BASE, CM_WKUP_L4WKUP_CLKCTRL, 0x30000, 0);

    // Pad configuration for the receive and transmit lines.
    m.write32(CONTROL_MODULE_BASE, CONTROL_MODULE_CONF_UART0_RXD, 0x30);
    m.write32(CONTROL_MODULE_BASE, CONTROL_MODULE_CONF_UART0_TXD, 0x10);

    // Soft reset, then idle-mode selection.
    m.write_masked(base, UART_SYSC_OFF, 0x2, 0x2);
    m.wait_masked_eq(base, UART_SYSS_OFF, 0x1, 0x1);
    m.write32(base, UART_SYSC_OFF, 0x8);

    // FIFO and DMA settings under configuration modes A and B.
    let lcr = m.read32(base, UART_LCR_OFF);
    m.write32(base, UART_LCR_OFF, 0xBF);
    let efr_bit4 = m.read_masked(base, UART_EFR_OFF, 0x10);
    m.write_masked(base, UART_EFR_OFF, 0x10, 0x10);
    m.write32(base, UART_LCR_OFF, 0x80);
    let mcr_bit6 = m.read_masked(base, UART_MCR_OFF, 0x40);
    m.write_masked(base, UART_MCR_OFF, 0x40, 0x40);
    m.write32(base, UART_FCR_OFF, 0x07);
    m.write32(base, UART_LCR_OFF, 0xBF);
    m.write32(base, UART_TLR_OFF, 0x00);
    m.write32(base, UART_SCR_OFF, 0x00);
    m.write_masked(base, UART_EFR_OFF, 0x10, efr_bit4);
    m.write32(base, UART_LCR_OFF, 0x80);
    m.write_masked(base, UART_MCR_OFF, 0x40, mcr_bit6);
    m.write32(base, UART_LCR_OFF, lcr);

    // Protocol, baud rate and interrupt settings.
    m.write_masked(base, UART_MDR1_OFF, 0x7, 0x7);
    m.write32(base, UART_LCR_OFF, 0xBF);
    let efr_bit4b = m.read_masked(base, UART_EFR_OFF, 0x10);
    m.write_masked(base, UART_EFR_OFF, 0x10, 0x10);
    m.write32(base, UART_LCR_OFF, 0x00);
    m.write32(base, UART_IER_OFF, 0x00);
    m.write32(base, UART_LCR_OFF, 0xBF);
    // 115200 baud out of the 48 MHz functional clock.
    m.write32(base, UART_DLL_OFF, 0x1A);
    m.write32(base, UART_DLH_OFF, 0x00);
    m.write32(base, UART_LCR_OFF, 0x00);
    m.write32(base, UART_IER_OFF, 0x01);
    m.write32(base, UART_LCR_OFF, 0xBF);
    m.write_masked(base, UART_EFR_OFF, 0x10, efr_bit4b);
    // 8N1, divisor latch closed.
    m.write32(base, UART_LCR_OFF, 0x3);
    // UART 16x mode.
    m.write32(base, UART_MDR1_OFF, 0x0);
}

/// UART wrapper offering the byte-stream interface as an object.
pub struct UartDevice {
    pub platform: Platform,
}

impl UartDevice {
    /// Wraps the already initialized UART.
    pub fn new(platform: Platform) -> (r: UartDevice)
        ensures
            r.platform == platform,
    {
        UartDevice { platform }
    }
}

/// Console writer over the platform UART.
pub struct Writer {
    pub platform: Platform,
}

impl Writer {
    /// Writes a byte string to the console.
    pub fn write_str(&self, m: &mut Machine, s: &[u8])
        requires
            m_wf(old(m)@),
            uart_configured(old(m)@, self.platform),
        ensures
            final(m)@ == (MachineV {
                console: old(m)@.console + render(self.platform, s@),
                ..old(m)@
            }),
    {
        write_bytes(m, self.platform, s);
    }
}

} // verus!
