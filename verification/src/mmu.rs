//! First-level page-table construction and the MMU enable sequence.
//!
//! The table is the linker-reserved 16 KiB region of 4096 word entries,
//! one 1 MiB section per entry over the whole 4 GiB space. The boot
//! mapping is flat read-write everywhere, with the single kernel window
//! remapped to the DRAM base under the kernel-code attribute pack.

use vstd::prelude::*;

use crate::cpu;
use crate::machine::{m_wf, Cpu, Machine, MachineV};

verus! {

pub const SECTION_ADDR_MASK: u32 = 0xFFF0_0000;
pub const L1_SECTION_DESCRIPTOR: u32 = 0b10;

// Raw access-permission bits, shifted into place below.
pub const RAW_AP_NO_NO: u32 = 0b00;
pub const RAW_AP_RW_NO: u32 = 0b01;
pub const RAW_AP_RW_RO: u32 = 0b10;
pub const RAW_AP_RW_RW: u32 = 0b11;
pub const RAW_AP2_0: u32 = 0;
pub const RAW_AP2_1: u32 = 1;
pub const L1_AP_SHIFT: u32 = 10;
pub const L1_AP2_SHIFT: u32 = 15;

pub const L1_SHAREABLE: u32 = 1 << 16;
pub const L1_CACHEABLE: u32 = 1 << 3;
pub const L1_NOT_GLOBAL: u32 = 1 << 17;
pub const L1_GLOBAL: u32 = 0 << 17;
pub const L1_NON_SECURE: u32 = 1 << 19;
pub const L1_ACCESS_NX: u32 = 1 << 4;
pub const L1_ACCESS_X: u32 = 0 << 4;

/// Kernel/user access-permission packs.
pub const L1_ACCESS_NO_NO: u32 = (RAW_AP_NO_NO << L1_AP_SHIFT) | (RAW_AP2_0 << L1_AP2_SHIFT);
pub const L1_ACCESS_RW_NO: u32 = (RAW_AP_RW_NO << L1_AP_SHIFT) | (RAW_AP2_0 << L1_AP2_SHIFT);
pub const L1_ACCESS_RW_RO: u32 = (RAW_AP_RW_RO << L1_AP_SHIFT) | (RAW_AP2_0 << L1_AP2_SHIFT);
pub const L1_ACCESS_RW_RW: u32 = (RAW_AP_RW_RW << L1_AP_SHIFT) | (RAW_AP2_0 << L1_AP2_SHIFT);
pub const L1_ACCESS_RO_NO: u32 = (RAW_AP_RW_NO << L1_AP_SHIFT) | (RAW_AP2_1 << L1_AP2_SHIFT);
pub const L1_ACCESS_RO_RO: u32 = (RAW_AP_RW_RW << L1_AP_SHIFT) | (RAW_AP2_1 << L1_AP2_SHIFT);

/// Kernel code: read-only to the kernel, executable, shareable, cacheable,
/// global.
pub const L1_KERNEL_CODE_FLAGS: u32 = L1_ACCESS_RO_NO | L1_ACCESS_X | L1_SHAREABLE | L1_CACHEABLE
    | L1_GLOBAL;

/// Kernel data: read-write to the kernel, never executable, shareable,
/// cacheable, global.
pub const L1_KERNEL_DATA_FLAGS: u32 = L1_ACCESS_RW_NO | L1_ACCESS_NX | L1_SHAREABLE | L1_CACHEABLE
    | L1_GLOBAL;

/// Why table construction can refuse the linker-reserved region.
#[derive(Clone, Copy, PartialEq, Eq, Structural, Debug)]
pub enum MmuError {
    /// The region is not 4096 entries of 4 bytes.
    BadSize,
    /// The region start is not 4 KiB aligned.
    Misaligned,
}

/// One first-level table entry.
#[derive(Clone, Copy, PartialEq, Eq, Structural, Debug)]
pub struct L1PageTableEntry(pub u32);

/// The section descriptor for a physical base and attribute flags.
pub open spec fn spec_section_entry(phys: u32, flags: u32) -> u32 {
    (phys & SECTION_ADDR_MASK) | L1_SECTION_DESCRIPTOR | flags
}

impl L1PageTableEntry {
    /// Makes this entry a section mapping to `phys_addr` with the given
    /// attribute flags; low address bits are masked off.
    pub fn map_section(&mut self, phys_addr: u32, flags: u32)
        ensures
            final(self).0 == spec_section_entry(phys_addr, flags),
    {
        let entry = (phys_addr & SECTION_ADDR_MASK) | L1_SECTION_DESCRIPTOR | flags;
        self.0 = entry;
    }
}

/// The physical base of the flat section for slot `i`.
pub open spec fn flat_base(i: int) -> u32 {
    (i * 0x10_0000) as u32
}

/// The full boot table: flat read-write sections everywhere, the kernel
/// window remapped to the DRAM base as kernel code.
pub open spec fn spec_boot_tables(kernel_base: u32, dram_base: u32) -> Seq<u32> {
    Seq::new(
        4096,
        |i: int|
            if i == kernel_base >> 20 {
                spec_section_entry(dram_base, L1_KERNEL_CODE_FLAGS)
            } else {
                spec_section_entry(flat_base(i), L1_ACCESS_RW_RW)
            },
    )
}

/// The linker gave the table region the size and alignment the MMU needs.
pub open spec fn region_valid(m: MachineV) -> bool {
    &&& m.layout.tables_end >= m.layout.tables_start
    &&& m.layout.tables_end - m.layout.tables_start == 4096 * 4
    &&& m.layout.tables_start % 4096 == 0
}

/// The region's size is wrong, as opposed to its alignment.
pub open spec fn region_size_bad(m: MachineV) -> bool {
    m.layout.tables_end < m.layout.tables_start || m.layout.tables_end - m.layout.tables_start
        != 4096 * 4
}

/// Sets the domain access control register so domain 0 is client:
/// permission checks enabled.
pub fn set_domains(m: &mut Machine)
    ensures
        final(m)@ == (MachineV {
            cpu: Cpu { dacr: 0x1, ..old(m)@.cpu },
            ..old(m)@
        }),
{
    cpu::set_dacr(m, 0x1);
    proof {
        assert(m@ =~~= (MachineV { cpu: Cpu { dacr: 0x1, ..old(m)@.cpu }, ..old(m)@ }));
    }
}

/// Zeroes every entry of the boot table region.
pub fn clear_boot_tables(m: &mut Machine)
    requires
        m_wf(old(m)@),
    ensures
        final(m)@ == (MachineV { tables: Seq::new(4096, |i: int| 0u32), ..old(m)@ }),
{
    let mut i: usize = 0;
    while i < 4096
        invariant
            i <= 4096,
            m.tables.len() == 4096,
            m@ == (MachineV {
                tables: old(m)@.tables.map(
                    |j: int, v: u32| if j < i { 0u32 } else { v },
                ),
                ..old(m)@
            }),
        decreases 4096 - i,
    {
        m.tables.set(i, 0);
        proof {
            assert(m@.tables =~= old(m)@.tables.map(
                |j: int, v: u32| if j < i + 1 { 0u32 } else { v },
            ));
            assert(m@ =~~= (MachineV {
                tables: old(m)@.tables.map(|j: int, v: u32| if j < i + 1 { 0u32 } else { v }),
                ..old(m)@
            }));
        }
        i = i + 1;
    }
    proof {
        assert(m@.tables =~= Seq::new(4096, |i: int| 0u32));
        assert(m@ =~~= (MachineV { tables: Seq::new(4096, |i: int| 0u32), ..old(m)@ }));
    }
}

/// The table index that covers a virtual address.
pub fn table_index_of(virt_addr: u32) -> (r: usize)
    ensures
        r == virt_addr >> 20,
        r < 4096,
{
    proof {
        assert(virt_addr >> 20 < 4096) by (bit_vector);
    }
    (virt_addr >> 20) as usize
}

/// Reads the table entry that covers a virtual address.
pub fn get_boot_entry_at_virt(m: &Machine, virt_addr: u32) -> (r: L1PageTableEntry)
    requires
        m_wf(m@),
    ensures
        r.0 == m@.tables[(virt_addr >> 20) as int],
{
    let idx = table_index_of(virt_addr);
    L1PageTableEntry(m.tables[idx])
}

/// Builds the boot mapping. Validates the linker-reserved region first
/// and writes no entry when the region is refused.
pub fn init(m: &mut Machine, kernel_base: u32) -> (r: Result<(), MmuError>)
    requires
        m_wf(old(m)@),
        kernel_base % 0x10_0000 == 0,
    ensures
        r is Ok <==> region_valid(old(m)@),
        r matches Err(e) ==> final(m)@ == old(m)@ && ((e == MmuError::BadSize) <==> region_size_bad(
            old(m)@,
        )),
        r is Ok ==> final(m)@ == (MachineV {
            tables: spec_boot_tables(kernel_base, old(m)@.layout.dram_base),
            cpu: Cpu { dacr: 0x1, ..old(m)@.cpu },
            ..old(m)@
        }),
{
    // The region must hold exactly 4096 entries of 4 bytes, 4 KiB aligned.
    if m.layout.tables_end < m.layout.tables_start || m.layout.tables_end - m.layout.tables_start
        != 4096 * 4 {
        return Err(MmuError::BadSize);
    }
    if m.layout.tables_start % 4096 != 0 {
        return Err(MmuError::Misaligned);
    }
    clear_boot_tables(m);
    set_domains(m);

    // Flat mapping: every 1 MiB slot to its own physical megabyte.
    let mut i: usize = 0;
    while i < 4096
        invariant
            i <= 4096,
            m.tables.len() == 4096,
            m@ == (MachineV {
                tables: Seq::new(
                    4096,
                    |j: int|
                        if j < i {
                            spec_section_entry(flat_base(j), L1_ACCESS_RW_RW)
                        } else {
                            0u32
                        },
                ),
                cpu: Cpu { dacr: 0x1, ..old(m)@.cpu },
                ..old(m)@
            }),
        decreases 4096 - i,
    {
        let mut entry = L1PageTableEntry(0);
        entry.map_section((i as u32) * 0x10_0000, L1_ACCESS_RW_RW);
        m.tables.set(i, entry.0);
        proof {
            assert(m@.tables =~= Seq::new(
                4096,
                |j: int|
                    if j < i + 1 {
                        spec_section_entry(flat_base(j), L1_ACCESS_RW_RW)
                    } else {
                        0u32
                    },
            ));
            assert(m@ =~~= (MachineV {
                tables: Seq::new(
                    4096,
                    |j: int|
                        if j < i + 1 {
                            spec_section_entry(flat_base(j), L1_ACCESS_RW_RW)
                        } else {
                            0u32
                        },
                ),
                cpu: Cpu { dacr: 0x1, ..old(m)@.cpu },
                ..old(m)@
            }));
        }
        i = i + 1;
    }

    // The kernel window: map the kernel's virtual megabyte to DRAM.
    let kidx = table_index_of(kernel_base);
    let mut first_page = L1PageTableEntry(0);
    first_page.map_section(m.layout.dram_base, L1_KERNEL_CODE_FLAGS);
    m.tables.set(kidx, first_page.0);
    proof {
        assert(m@.tables =~= spec_boot_tables(kernel_base, old(m)@.layout.dram_base));
        assert(m@ =~~= (MachineV {
            tables: spec_boot_tables(kernel_base, old(m)@.layout.dram_base),
            cpu: Cpu { dacr: 0x1, ..old(m)@.cpu },
            ..old(m)@
        }));
    }
    Ok(())
}

/// The CPU state after the enable sequence.
pub open spec fn spec_enable_cpu(c: Cpu, table_base: u32) -> Cpu {
    Cpu {
        ttbr0: table_base,
        sctlr: c.sctlr | cpu::SCTLR_C | cpu::SCTLR_I | cpu::SCTLR_M,
        ..c
    }
}

/// Points the MMU at the boot tables and turns it on: translation-table
/// base, TLB and instruction-cache invalidation, both caches, then the
/// MMU-enable bit.
pub fn enable(m: &mut Machine)
    ensures
        final(m)@ == (MachineV {
            cpu: spec_enable_cpu(old(m)@.cpu, old(m)@.layout.tables_start),
            ..old(m)@
        }),
{
    let table_base = m.layout.tables_start;
    cpu::set_ttbr0(m, table_base);
    cpu::flush_tlb(m);
    cpu::flush_i_cache(m);
    cpu::d_cache_enable(m);
    cpu::i_cache_enable(m);
    cpu::mmu_enable(m);
    proof {
        assert(m@ =~~= (MachineV {
            cpu: spec_enable_cpu(old(m)@.cpu, old(m)@.layout.tables_start),
            ..old(m)@
        }));
    }
}

/// Turns the MMU and both caches off.
pub fn disable(m: &mut Machine)
    ensures
        final(m)@ == (MachineV {
            cpu: Cpu {
                sctlr: old(m)@.cpu.sctlr & !cpu::SCTLR_M & !cpu::SCTLR_C & !cpu::SCTLR_I,
                ..old(m)@.cpu
            },
            ..old(m)@
        }),
{
    cpu::mmu_disable(m);
    cpu::d_cache_disable(m);
    cpu::i_cache_disable(m);
    proof {
        assert(m@ =~~= (MachineV {
            cpu: Cpu {
                sctlr: old(m)@.cpu.sctlr & !cpu::SCTLR_M & !cpu::SCTLR_C & !cpu::SCTLR_I,
                ..old(m)@.cpu
            },
            ..old(m)@
        }));
    }
}

// ------------------------------------------------------------------ laws

/// Bit-level decoding facts for the two attribute packs the boot table
/// uses.
proof fn lemma_entry_bits()
    by (bit_vector)
    ensures
        forall|p: u32| #![auto] (((p & 0xFFF0_0000) | 2 | 0xC00) & 0xFFF0_0000) == p & 0xFFF0_0000,
        forall|p: u32| #![auto] (((p & 0xFFF0_0000) | 2 | 0xC00) & 3) == 2,
        forall|p: u32| #![auto] (((p & 0xFFF0_0000) | 2 | 0x18408) & 0xFFF0_0000) == p
            & 0xFFF0_0000,
        forall|p: u32| #![auto] (((p & 0xFFF0_0000) | 2 | 0x18408) & 3) == 2,
        forall|p: u32| #![auto] (((p & 0xFFF0_0000) | 2 | 0x18408) & (1u32 << 18)) == 0,
        forall|p: u32| #![auto] (((p & 0xFFF0_0000) | 2 | 0xC00) & (1u32 << 18)) == 0,
        forall|b: u32| b % 0x10_0000 == 0 ==> b & 0xFFF0_0000 == b,
        (0xC00u32 & 0xFFF0_0000) == 0 && (0x18408u32 & 0xFFF0_0000) == 0,
        L1_ACCESS_RW_RW == 0xC00,
        L1_KERNEL_CODE_FLAGS == 0x18408,
{
}

/// Every slot of the boot table decodes to a section whose physical base
/// is the slot's own megabyte, except the kernel window, which points at
/// the DRAM base and carries the kernel-code attribute pack. No entry
/// sets the supersection bit.
pub proof fn lemma_table_decode(kernel_base: u32, dram_base: u32, i: int)
    requires
        0 <= i < 4096,
    ensures
        spec_boot_tables(kernel_base, dram_base)[i] & 3 == 2,
        spec_boot_tables(kernel_base, dram_base)[i] & (1u32 << 18) == 0,
        i != kernel_base >> 20 ==> spec_boot_tables(kernel_base, dram_base)[i] & SECTION_ADDR_MASK
            == i * 0x10_0000,
        i == kernel_base >> 20 ==> spec_boot_tables(kernel_base, dram_base)[i]
            == spec_section_entry(dram_base, L1_KERNEL_CODE_FLAGS) && spec_boot_tables(
            kernel_base,
            dram_base,
        )[i] & SECTION_ADDR_MASK == dram_base & SECTION_ADDR_MASK,
{
    lemma_entry_bits();
    if i != kernel_base >> 20 {
        let b = flat_base(i);
        assert(i * 0x10_0000 <= 4095 * 0x10_0000) by (nonlinear_arith)
            requires
                0 <= i < 4096,
        ;
        assert(b == i * 0x10_0000);
        assert(b % 0x10_0000 == 0) by (nonlinear_arith)
            requires
                b == i * 0x10_0000,
        ;
        assert(b & 0xFFF0_0000 == b);
        assert(spec_boot_tables(kernel_base, dram_base)[i] == ((b & 0xFFF0_0000) | 2 | 0xC00));
    }
}

/// Building the table twice in a row yields the same contents: the table
/// is a function of the kernel window and the DRAM base alone.
pub proof fn lemma_mmu_init_idempotent(a: MachineV, b: MachineV, c: MachineV, kernel_base: u32)
    requires
        b.tables == spec_boot_tables(kernel_base, a.layout.dram_base),
        b.layout == a.layout,
        c.tables == spec_boot_tables(kernel_base, b.layout.dram_base),
    ensures
        c.tables == b.tables,
{
}

/// Enabling the MMU when it is already enabled changes nothing: the
/// enable sequence is idempotent on the CPU state.
pub proof fn lemma_mmu_enable_idempotent(c: Cpu, table_base: u32)
    ensures
        spec_enable_cpu(spec_enable_cpu(c, table_base), table_base) == spec_enable_cpu(
            c,
            table_base,
        ),
{
    let s = c.sctlr;
    assert(((s | 0x4 | 0x1000 | 0x1) | 0x4 | 0x1000 | 0x1) == (s | 0x4 | 0x1000 | 0x1))
        by (bit_vector);
    assert(spec_enable_cpu(spec_enable_cpu(c, table_base), table_base) == spec_enable_cpu(
        c,
        table_base,
    ));
}

} // verus!
