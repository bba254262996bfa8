//! Boot orchestration: console, I2C, clocks, DRAM with its self-test,
//! page tables and MMU enable, the MMC bring-up, the kernel copy into
//! DRAM and the jump record for the kernel.
//!
//! The FAT32 reader stays an external collaborator: the boot takes its
//! outcome — the opened kernel image's bytes or one of its documented
//! error kinds — as a plain value and owns everything after that point.

use vstd::prelude::*;

use crate::dram::{dram_byte, memtest_clean, memtest_start};
use crate::fat32::Fat32Error;
use crate::fmt::{dec_digits, hex_digits};
use crate::machine::{m_wf, sd_resp, Machine, MachineV};
use crate::mmc::MMCError;
use crate::mmu::{region_valid, spec_boot_tables};
use crate::msgs;
use crate::tps::{spec_device_version, spec_efuse, spec_max_opp};
use crate::uart::{put_dec, put_hex, put_line, render, uart_configured, write_bytes, Platform};

verus! {

/// The record handed to the kernel.
#[derive(Clone, Copy, PartialEq, Eq, Structural, Debug)]
pub struct BootInfoHeader {
    /// Address of the boot image's own entry symbol.
    pub boot_entry: u32,
    /// Reserved; carries a fixed sentinel for now.
    pub boot_size: u32,
}

/// The record a kernel image announces itself with.
#[derive(Clone, Copy, PartialEq, Eq, Structural, Debug)]
pub struct KernelHeader {
    pub kernel_entry: u32,
    pub kernel_size: u32,
}

/// Compile-time choices of the build: target platform, the kernel's
/// virtual window and the boot source.
#[derive(Clone, Copy, PartialEq, Eq, Structural, Debug)]
pub struct BootConfig {
    pub platform: Platform,
    /// Virtual address the kernel window maps; 1 MiB aligned.
    pub kernel_entry: u32,
    /// The kernel comes off the MMC device; no other source exists yet.
    pub boot_mmc: bool,
}

/// Where the boot ends when it cannot reach the kernel.
#[derive(Clone, Copy, PartialEq, Eq, Structural, Debug)]
pub enum BootError {
    /// The clock subsystem met an unknown device version.
    UnknownDevice,
    /// The DRAM self-test found errors.
    DramTest,
    /// The page-table region is mis-sized.
    TablesSize,
    /// The page-table region is misaligned.
    TablesMisaligned,
    /// The MMC device would not initialize.
    Mmc(MMCError),
    /// The FAT32 reader could not deliver the kernel image.
    Fat(Fat32Error),
    /// The kernel entry is not 4-byte aligned.
    KernelMisaligned,
    /// No boot source is selected.
    NoBootSource,
}

impl BootError {
    /// The panic text the platform shows for this failure.
    pub fn message(&self) -> (r: &'static str)
        ensures
            *self is DramTest ==> r@ == "DRAM test failed"@,
            *self is TablesMisaligned ==> r@ == "Page tables misaligned"@,
            *self is TablesSize ==> r@ == "Memory region size mismatch for page tables"@,
            *self is Mmc ==> r@ == "Failed to initialize MMC"@,
            *self is Fat ==> r@ == "Failed to open kernel.bin"@,
            *self is KernelMisaligned ==> r@ == "Kernel must be 4-byte aligned"@,
            *self is UnknownDevice ==> r@ == "Unknown device version"@,
            *self is NoBootSource ==> r@ == "No boot source selected"@,
    {
        match self {
            BootError::DramTest => "DRAM test failed",
            BootError::TablesMisaligned => "Page tables misaligned",
            BootError::TablesSize => "Memory region size mismatch for page tables",
            BootError::Mmc(_) => "Failed to initialize MMC",
            BootError::Fat(_) => "Failed to open kernel.bin",
            BootError::KernelMisaligned => "Kernel must be 4-byte aligned",
            BootError::UnknownDevice => "Unknown device version",
            BootError::NoBootSource => "No boot source selected",
        }
    }
}

/// Where the boot hands over: the kernel entry and the record passed in
/// the argument register.
#[derive(Clone, Copy, PartialEq, Eq, Structural, Debug)]
pub struct BootOutcome {
    pub entry: u32,
    pub info: BootInfoHeader,
}

// -------------------------------------------------------- success shapes

/// The card answers and gives the right interface-condition echo.
pub open spec fn mmc_ok(mv: MachineV) -> bool {
    &&& !mv.faults.sd_no_response
    &&& sd_resp(mv, 8, 0x1AA) & 0xFF == 0xAA
    &&& sd_resp(mv, 8, 0x1AA) >> 8 == 0x1
}

/// The clock subsystem can identify the device (the emulator needs none
/// of it).
pub open spec fn ccm_ok(mv: MachineV, p: Platform) -> bool {
    p == Platform::Qemu || spec_max_opp(spec_device_version(mv), spec_efuse(mv)) <= 9
}

/// Everything the full boot needs to reach the kernel.
pub open spec fn boot_ok(mv: MachineV, cfg: BootConfig, kernel_ok: bool) -> bool {
    &&& ccm_ok(mv, cfg.platform)
    &&& memtest_clean(mv, memtest_start(mv, cfg.platform))
    &&& region_valid(mv)
    &&& cfg.boot_mmc
    &&& mmc_ok(mv)
    &&& kernel_ok
    &&& cfg.kernel_entry % 4 == 0
}

// --------------------------------------------------------- console texts

/// The two copy-step lines: destination and size.
pub open spec fn copy_lines(dest: u32, n: u32) -> Seq<u8> {
    msgs::s_copying_kernel_to() + hex_digits(dest as nat) + seq![0x0Au8] + msgs::s_kernel_size()
        + dec_digits(n as nat) + seq![0x0Au8]
}

/// Everything the MMC boot phase says on a successful run.
pub open spec fn mmc_lines(dest: u32, n: u32) -> Seq<u8> {
    msgs::s_initialized_mmc() + seq![0x0Au8] + copy_lines(dest, n) + msgs::s_copied_kernel()
        + seq![0x0Au8]
}

/// Everything said between the MMU coming on and the MMC boot phase.
pub open spec fn post_mmu_lines(init_addr: u32) -> Seq<u8> {
    msgs::s_finished_enabling_mmu() + seq![0x0Au8] + msgs::s_initialization_complete() + seq![
        0x0Au8,
    ] + msgs::s_loaded_at() + hex_digits(init_addr as nat) + seq![0x0Au8]
}

/// The fixed tail of a successful boot's console, from the self-test
/// verdict on.
pub open spec fn happy_tail(init_addr: u32, dest: u32, n: u32) -> Seq<u8> {
    msgs::s_dram_test_passed() + seq![0x0Au8] + post_mmu_lines(init_addr) + mmc_lines(dest, n)
}

// ---------------------------------------------------------------- pieces

/// The configured virtual kernel entry.
pub fn get_kernel_entry(cfg: &BootConfig) -> (r: u32)
    ensures
        r == cfg.kernel_entry,
{
    cfg.kernel_entry
}

/// The linker-resolved address of the boot image's entry symbol.
pub fn get_boot_entry(m: &Machine) -> (r: u32)
    ensures
        r == m@.layout.init_addr,
{
    m.layout.init_addr
}

/// Builds the jump record. The kernel entry must be 4-byte aligned for
/// the branch; a misaligned entry ends the boot instead.
pub fn load_kernel(m: &Machine, cfg: &BootConfig) -> (r: Result<BootOutcome, BootError>)
    ensures
        r is Ok <==> cfg.kernel_entry % 4 == 0,
        r matches Ok(o) ==> o.entry == cfg.kernel_entry && o.info.boot_entry == m@.layout.init_addr
            && o.info.boot_size == 0xDEAD_BEEF,
        r is Err ==> r == Err::<BootOutcome, BootError>(BootError::KernelMisaligned),
{
    let kernel_entry = get_kernel_entry(cfg);
    if kernel_entry % 4 != 0 {
        return Err(BootError::KernelMisaligned);
    }
    let info = BootInfoHeader { boot_entry: get_boot_entry(m), boot_size: 0xDEAD_BEEF };
    Ok(BootOutcome { entry: kernel_entry, info })
}

/// Copies the opened kernel image to the bottom of DRAM, announcing the
/// destination window and the image size. An error from the reader is
/// passed through untouched, with nothing copied and nothing printed.
#[verifier::rlimit(100)]
pub fn copy_kernel_to_phys(
    m: &mut Machine,
    p: Platform,
    dest_virt: u32,
    opened: Result<Vec<u8>, Fat32Error>,
) -> (r: Result<u32, Fat32Error>)
    requires
        m_wf(old(m)@),
        uart_configured(old(m)@, p),
        old(m)@.faults.dram_stuck == 0,
        opened matches Ok(img) ==> img@.len() <= 4 * old(m)@.dram.len() && img@.len()
            <= 0xFFFF_FFFF,
    ensures
        m_wf(final(m)@),
        uart_configured(final(m)@, p),
        final(m)@.bank == old(m)@.bank,
        final(m)@.tables == old(m)@.tables,
        final(m)@.cpu == old(m)@.cpu,
        final(m)@.sd == old(m)@.sd,
        final(m)@.pmic == old(m)@.pmic,
        final(m)@.i2c == old(m)@.i2c,
        final(m)@.uart_rx == old(m)@.uart_rx,
        final(m)@.eeprom == old(m)@.eeprom,
        final(m)@.layout == old(m)@.layout,
        final(m)@.faults == old(m)@.faults,
        final(m)@.dram.len() == old(m)@.dram.len(),
        r is Ok <==> opened is Ok,
        r matches Err(e) ==> opened == Err::<Vec<u8>, Fat32Error>(e) && final(m)@ == old(m)@,
        r matches Ok(n) ==> (opened matches Ok(img) ==> n == img@.len() && (forall|i: int|
            0 <= i < img@.len() ==> #[trigger] dram_byte(
                final(m)@,
                (old(m)@.layout.dram_base + i) as u32,
            ) == img@[i]) && final(m)@.console == old(m)@.console + render(
            p,
            copy_lines(dest_virt, n),
        )),
{
    match opened {
        Err(e) => Err(e),
        Ok(img) => {
            let cm = msgs::copying_kernel_to();
            write_bytes(m, p, cm.as_slice());
            put_hex(m, p, dest_virt);
            put_line(m, p, &[]);
            let km = msgs::kernel_size();
            write_bytes(m, p, km.as_slice());
            let n = img.len() as u32;
            put_dec(m, p, n);
            put_line(m, p, &[]);
            crate::dram::dram_store_bytes(m, img.as_slice());
            proof {
                let e = Seq::<u8>::empty();
                crate::uart::lemma_render_app(p, msgs::s_copying_kernel_to(), hex_digits(
                    dest_virt as nat,
                ));
                crate::uart::lemma_render_app(
                    p,
                    msgs::s_copying_kernel_to() + hex_digits(dest_virt as nat),
                    seq![0x0Au8],
                );
                crate::uart::lemma_render_app(
                    p,
                    msgs::s_copying_kernel_to() + hex_digits(dest_virt as nat) + seq![0x0Au8],
                    msgs::s_kernel_size(),
                );
                crate::uart::lemma_render_app(
                    p,
                    msgs::s_copying_kernel_to() + hex_digits(dest_virt as nat) + seq![0x0Au8]
                        + msgs::s_kernel_size(),
                    dec_digits(n as nat),
                );
                crate::uart::lemma_render_app(
                    p,
                    msgs::s_copying_kernel_to() + hex_digits(dest_virt as nat) + seq![0x0Au8]
                        + msgs::s_kernel_size() + dec_digits(n as nat),
                    seq![0x0Au8],
                );
                assert(e + seq![0x0Au8] =~= seq![0x0Au8]);
                assert(m@.console =~= old(m)@.console + render(p, copy_lines(dest_virt, n)));
            }
            Ok(n)
        },
    }
}

/// Brings the MMC device up, copies the kernel image into DRAM and builds
/// the jump record.
#[verifier::rlimit(100)]
pub fn boot_mmc(
    m: &mut Machine,
    cfg: &BootConfig,
    kernel: Result<Vec<u8>, Fat32Error>,
) -> (r: Result<BootOutcome, BootError>)
    requires
        m_wf(old(m)@),
        uart_configured(old(m)@, cfg.platform),
        old(m)@.sd.rint & crate::regs::SD_RISR_NO_RESPONSE == 0,
        old(m)@.faults.dram_stuck == 0,
        kernel matches Ok(img) ==> img@.len() <= 4 * old(m)@.dram.len() && img@.len()
            <= 0xFFFF_FFFF,
    ensures
        m_wf(final(m)@),
        uart_configured(final(m)@, cfg.platform),
        old(m)@.console.is_prefix_of(final(m)@.console),
        final(m)@.layout == old(m)@.layout,
        final(m)@.faults == old(m)@.faults,
        final(m)@.cpu == old(m)@.cpu,
        final(m)@.tables == old(m)@.tables,
        final(m)@.dram.len() == old(m)@.dram.len(),
        r is Ok <==> (mmc_ok(old(m)@) && kernel is Ok && cfg.kernel_entry % 4 == 0),
        r matches Ok(o) ==> o.entry == cfg.kernel_entry && o.info.boot_entry
            == old(m)@.layout.init_addr && o.info.boot_size == 0xDEAD_BEEF,
        old(m)@.faults.sd_no_response ==> r == Err::<BootOutcome, BootError>(
            BootError::Mmc(MMCError::NoResponse),
        ),
        !old(m)@.faults.sd_no_response && !mmc_ok(old(m)@) ==> r == Err::<BootOutcome, BootError>(
            BootError::Mmc(MMCError::BadCMD8Response),
        ),
        kernel matches Err(e) ==> (mmc_ok(old(m)@) ==> r == Err::<BootOutcome, BootError>(
            BootError::Fat(e),
        )),
        mmc_ok(old(m)@) && kernel is Ok && cfg.kernel_entry % 4 != 0 ==> r == Err::<
            BootOutcome,
            BootError,
        >(BootError::KernelMisaligned),
        r is Ok ==> (kernel matches Ok(img) ==> (forall|i: int|
            0 <= i < img@.len() ==> #[trigger] dram_byte(
                final(m)@,
                (old(m)@.layout.dram_base + i) as u32,
            ) == img@[i]) && final(m)@.console == old(m)@.console + render(
            cfg.platform,
            mmc_lines(cfg.kernel_entry, img@.len() as u32),
        )),
{
    let mi = crate::mmc::init(m, cfg.platform);
    match mi {
        Err(e) => Err(BootError::Mmc(e)),
        Ok(()) => {
            let ghost c0 = m@.console;
            let msg = msgs::initialized_mmc();
            put_line(m, cfg.platform, msg.as_slice());
            let ghost gk = kernel;
            let cr = copy_kernel_to_phys(m, cfg.platform, get_kernel_entry(cfg), kernel);
            let ghost mcopy = m@;
            match cr {
                Err(e) => Err(BootError::Fat(e)),
                Ok(n) => {
                    let cp = msgs::copied_kernel();
                    put_line(m, cfg.platform, cp.as_slice());
                    proof {
                        let p = cfg.platform;
                        crate::machine::lemma_prefix_refl(old(m)@.console);
                        crate::machine::lemma_prefix_append(
                            old(m)@.console,
                            old(m)@.console,
                            m@.console.skip(old(m)@.console.len() as int),
                        );
                        crate::uart::lemma_render_app(
                            p,
                            msgs::s_initialized_mmc() + seq![0x0Au8],
                            copy_lines(cfg.kernel_entry, n),
                        );
                        crate::uart::lemma_render_app(
                            p,
                            msgs::s_initialized_mmc() + seq![0x0Au8] + copy_lines(
                                cfg.kernel_entry,
                                n,
                            ),
                            msgs::s_copied_kernel() + seq![0x0Au8],
                        );
                        assert(mmc_lines(cfg.kernel_entry, n) =~= (msgs::s_initialized_mmc()
                            + seq![0x0Au8] + copy_lines(cfg.kernel_entry, n)) + (
                        msgs::s_copied_kernel() + seq![0x0Au8]));
                        assert(m@.console =~= c0 + render(
                            p,
                            mmc_lines(cfg.kernel_entry, n),
                        ));
                        assert(old(m)@.console.is_prefix_of(m@.console));
                        if gk is Ok {
                            let img = gk->Ok_0;
                            assert forall|i: int| 0 <= i < img@.len() implies #[trigger] dram_byte(
                                m@,
                                (old(m)@.layout.dram_base + i) as u32,
                            ) == img@[i] by {
                                assert(dram_byte(
                                    mcopy,
                                    (old(m)@.layout.dram_base + i) as u32,
                                ) == img@[i]);
                            }
                        }
                    }
                    load_kernel(m, cfg)
                },
            }
        },
    }
}

/// The whole bring-up pipeline: console, I2C, clocks and PLLs, DRAM with
/// its self-test, page tables and MMU enable, then the MMC boot with the
/// kernel copy. `kernel` is what the external FAT32 reader produced for
/// the kernel image path.
#[verifier::rlimit(100)]
pub fn rust_main(
    m: &mut Machine,
    cfg: &BootConfig,
    kernel: Result<Vec<u8>, Fat32Error>,
) -> (r: Result<BootOutcome, BootError>)
    requires
        m_wf(old(m)@),
        old(m)@.i2c.rx.len() == 0,
        crate::bank::reg_val(
            old(m)@.bank,
            (crate::regs::I2C_BASE_ADDR + crate::regs::I2C_CON) as u32,
        ) == 0,
        cfg.kernel_entry % 0x10_0000 == 0,
        4 * old(m)@.dram.len() >= 0x22000,
        old(m)@.layout.dram_base + 4 * old(m)@.dram.len() <= 0xFFFF_FFFF,
        old(m)@.sd.rint & crate::regs::SD_RISR_NO_RESPONSE == 0,
        // The emulator's test window starts above the resident image, so
        // the copy step owes its bytes only to unfaulted DRAM there.
        cfg.platform == Platform::Qemu ==> old(m)@.faults.dram_stuck == 0,
        kernel matches Ok(img) ==> img@.len() <= 4 * old(m)@.dram.len() && img@.len()
            <= 0xFFFF_FFFF,
    ensures
        m_wf(final(m)@),
        old(m)@.console.is_prefix_of(final(m)@.console),
        final(m)@.layout == old(m)@.layout,
        final(m)@.faults == old(m)@.faults,
        r is Ok <==> boot_ok(old(m)@, *cfg, kernel is Ok),
        r matches Ok(o) ==> o.entry == cfg.kernel_entry && o.info.boot_entry
            == old(m)@.layout.init_addr && o.info.boot_size == 0xDEAD_BEEF,
        r is Ok ==> final(m)@.tables == spec_boot_tables(
            cfg.kernel_entry,
            old(m)@.layout.dram_base,
        ) && final(m)@.cpu.ttbr0 == old(m)@.layout.tables_start && final(m)@.cpu.sctlr
            & crate::cpu::SCTLR_M == crate::cpu::SCTLR_M,
        r is Ok ==> (kernel matches Ok(img) ==> forall|i: int|
            0 <= i < img@.len() ==> #[trigger] dram_byte(
                final(m)@,
                (old(m)@.layout.dram_base + i) as u32,
            ) == img@[i]),
        !ccm_ok(old(m)@, cfg.platform) ==> r == Err::<BootOutcome, BootError>(
            BootError::UnknownDevice,
        ),
        ccm_ok(old(m)@, cfg.platform) && !memtest_clean(
            old(m)@,
            memtest_start(old(m)@, cfg.platform),
        ) ==> r == Err::<BootOutcome, BootError>(BootError::DramTest),
        ccm_ok(old(m)@, cfg.platform) && memtest_clean(
            old(m)@,
            memtest_start(old(m)@, cfg.platform),
        ) && crate::mmu::region_size_bad(old(m)@) ==> r == Err::<BootOutcome, BootError>(
            BootError::TablesSize,
        ),
        ccm_ok(old(m)@, cfg.platform) && memtest_clean(
            old(m)@,
            memtest_start(old(m)@, cfg.platform),
        ) && !crate::mmu::region_size_bad(old(m)@) && !region_valid(old(m)@) ==> r == Err::<
            BootOutcome,
            BootError,
        >(BootError::TablesMisaligned),
        ccm_ok(old(m)@, cfg.platform) && memtest_clean(
            old(m)@,
            memtest_start(old(m)@, cfg.platform),
        ) && region_valid(old(m)@) && !cfg.boot_mmc ==> r == Err::<BootOutcome, BootError>(
            BootError::NoBootSource,
        ),
        ccm_ok(old(m)@, cfg.platform) && memtest_clean(
            old(m)@,
            memtest_start(old(m)@, cfg.platform),
        ) && region_valid(old(m)@) && cfg.boot_mmc && old(m)@.faults.sd_no_response ==> r == Err::<
            BootOutcome,
            BootError,
        >(BootError::Mmc(MMCError::NoResponse)),
        ccm_ok(old(m)@, cfg.platform) && memtest_clean(
            old(m)@,
            memtest_start(old(m)@, cfg.platform),
        ) && region_valid(old(m)@) && cfg.boot_mmc && !old(m)@.faults.sd_no_response && !mmc_ok(
            old(m)@,
        ) ==> r == Err::<BootOutcome, BootError>(BootError::Mmc(MMCError::BadCMD8Response)),
        kernel matches Err(e) ==> (ccm_ok(old(m)@, cfg.platform) && memtest_clean(
            old(m)@,
            memtest_start(old(m)@, cfg.platform),
        ) && region_valid(old(m)@) && cfg.boot_mmc && mmc_ok(old(m)@) ==> r == Err::<
            BootOutcome,
            BootError,
        >(BootError::Fat(e))),
        ccm_ok(old(m)@, cfg.platform) && memtest_clean(
            old(m)@,
            memtest_start(old(m)@, cfg.platform),
        ) && region_valid(old(m)@) && cfg.boot_mmc && mmc_ok(old(m)@) && kernel is Ok
            && cfg.kernel_entry % 4 != 0 ==> r == Err::<BootOutcome, BootError>(
            BootError::KernelMisaligned,
        ),
        r is Ok ==> (kernel matches Ok(img) ==> exists|mid: Seq<u8>|
            final(m)@.console == old(m)@.console + render(
                cfg.platform,
                crate::uart::active_banner(),
            ) + mid + render(
                cfg.platform,
                happy_tail(old(m)@.layout.init_addr, cfg.kernel_entry, img@.len() as u32),
            )),
{
    proof {
        broadcast use crate::machine::lemma_prefix_append;
        broadcast use crate::machine::lemma_prefix_refl;
        broadcast use crate::machine::lemma_prefix_trans;
        assert(forall|s: u32| #![auto] ((((s | crate::cpu::SCTLR_C) | crate::cpu::SCTLR_I)
            | crate::cpu::SCTLR_M) & crate::cpu::SCTLR_M) == crate::cpu::SCTLR_M) by (bit_vector);
        assert(old(m)@.console.is_prefix_of(old(m)@.console));
    }
    let p = cfg.platform;
    crate::uart::init(m, p);
    match p {
        Platform::Bbb => {
            crate::i2c::init(m);
        },
        Platform::Qemu => {
            // The emulator needs no I2C bring-up.
        },
    }
    proof {
        crate::machine::lemma_prefix_refl(old(m)@.console);
        crate::machine::lemma_prefix_append(
            old(m)@.console,
            old(m)@.console,
            render(p, crate::uart::active_banner()),
        );
        assert(old(m)@.console.is_prefix_of(m@.console));
    }
    let ghost c1 = m@.console;
    let cr = crate::ccm::init(m, p);
    if cr.is_err() {
        return Err(BootError::UnknownDevice);
    }
    let dr = crate::dram::init(m, p);
    proof {
        crate::machine::lemma_prefix_trans(old(m)@.console, c1, m@.console);
    }
    let ghost c2 = m@.console;
    if dr.is_err() {
        return Err(BootError::DramTest);
    }
    let mr = crate::mmu::init(m, cfg.kernel_entry);
    match mr {
        Err(crate::mmu::MmuError::BadSize) => {
            return Err(BootError::TablesSize);
        },
        Err(crate::mmu::MmuError::Misaligned) => {
            return Err(BootError::TablesMisaligned);
        },
        Ok(()) => {},
    }
    crate::mmu::enable(m);

    let fin = msgs::finished_enabling_mmu();
    put_line(m, p, fin.as_slice());
    let ic = msgs::initialization_complete();
    put_line(m, p, ic.as_slice());
    let la = msgs::loaded_at();
    write_bytes(m, p, la.as_slice());
    let be = get_boot_entry(m);
    put_hex(m, p, be);
    put_line(m, p, &[]);
    proof {
        crate::machine::lemma_prefix_append(old(m)@.console, c2, m@.console.skip(
            c2.len() as int,
        ));
        assert(c2.is_prefix_of(m@.console));
        crate::machine::lemma_prefix_trans(old(m)@.console, c2, m@.console);
    }
    let ghost c3 = m@.console;
    if cfg.boot_mmc {
        proof {
            // A passing self-test on the board window means no stuck bit;
            // the emulator's requires covers its skipped window.
            assert(m@.faults.dram_stuck == 0);
        }
        let r = boot_mmc(m, cfg, kernel);
        proof {
            crate::machine::lemma_prefix_trans(old(m)@.console, c3, m@.console);
            if r is Ok {
                lemma_happy_console(
                    p,
                    old(m)@.console,
                    c1,
                    c2,
                    c3,
                    m@.console,
                    old(m)@.layout.init_addr,
                    cfg.kernel_entry,
                    kernel,
                );
            }
        }
        r
    } else {
        Err(BootError::NoBootSource)
    }
}

/// Stitches the console segments of a successful boot into the banner,
/// the self-test diagnostics and the fixed tail.
proof fn lemma_happy_console(
    p: Platform,
    c0: Seq<u8>,
    c1: Seq<u8>,
    c2: Seq<u8>,
    c3: Seq<u8>,
    cf: Seq<u8>,
    init_addr: u32,
    dest: u32,
    kernel: Result<Vec<u8>, Fat32Error>,
)
    requires
        c1 == c0 + render(p, crate::uart::active_banner()),
        exists|mid: Seq<u8>|
            c2 == c1 + mid + render(p, msgs::s_dram_test_passed() + seq![0x0Au8]),
        c3 == c2 + render(p, msgs::s_finished_enabling_mmu() + seq![0x0Au8]) + render(
            p,
            msgs::s_initialization_complete() + seq![0x0Au8],
        ) + render(p, msgs::s_loaded_at()) + render(p, hex_digits(init_addr as nat)) + render(
            p,
            Seq::<u8>::empty() + seq![0x0Au8],
        ),
        kernel matches Ok(img) ==> cf == c3 + render(p, mmc_lines(dest, img@.len() as u32)),
    ensures
        kernel matches Ok(img) ==> exists|mid: Seq<u8>|
            cf == c0 + render(p, crate::uart::active_banner()) + mid + render(
                p,
                happy_tail(init_addr, dest, img@.len() as u32),
            ),
{
    match kernel {
        Err(_) => {
        },
        Ok(img) => {
            let n = img@.len() as u32;
        let mid0 = choose|mid: Seq<u8>|
            c2 == c1 + mid + render(p, msgs::s_dram_test_passed() + seq![0x0Au8]);
        let passed = msgs::s_dram_test_passed() + seq![0x0Au8];
        let fin = msgs::s_finished_enabling_mmu() + seq![0x0Au8];
        let comp = msgs::s_initialization_complete() + seq![0x0Au8];
        let la = msgs::s_loaded_at();
        let hx = hex_digits(init_addr as nat);
        let nl = seq![0x0Au8];
        assert(Seq::<u8>::empty() + nl =~= nl);
        crate::uart::lemma_render_app(p, passed, fin);
        crate::uart::lemma_render_app(p, passed + fin, comp);
        crate::uart::lemma_render_app(p, passed + fin + comp, la);
        crate::uart::lemma_render_app(p, passed + fin + comp + la, hx);
        crate::uart::lemma_render_app(p, passed + fin + comp + la + hx, nl);
        crate::uart::lemma_render_app(p, passed + fin + comp + la + hx + nl, mmc_lines(dest, n));
        assert(happy_tail(init_addr, dest, n) =~= passed + fin + comp + la + hx + nl + mmc_lines(
            dest,
            n,
        ));
            assert(cf =~= c0 + render(p, crate::uart::active_banner()) + mid0 + render(
                p,
                happy_tail(init_addr, dest, n),
            ));
        },
    }
}

} // verus!
