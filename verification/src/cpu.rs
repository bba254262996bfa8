//! CPU control operations: barriers, TLB and cache maintenance, and the
//! translation-table, domain-access and system-control registers.
//!
//! Every operation is privileged-mode only on the real core. In the board
//! model the barriers and invalidations have no observable effect — the
//! model is sequentially consistent with no caches — so their contracts
//! say the machine is unchanged; the register accessors state exactly
//! which coprocessor register they move.

use vstd::prelude::*;

use crate::machine::{Cpu, Machine, MachineV};

verus! {

/// MMU-enable bit of the system control register.
pub const SCTLR_M: u32 = 0x1;
/// Data-cache enable bit of the system control register.
pub const SCTLR_C: u32 = 0x4;
/// Instruction-cache enable bit of the system control register.
pub const SCTLR_I: u32 = 0x1000;

/// The machine with only the CPU state replaced.
pub open spec fn with_cpu(m: MachineV, c: Cpu) -> MachineV {
    MachineV { cpu: c, ..m }
}

/// No operation; consumes a cycle on the core.
pub fn nop(m: &mut Machine)
    ensures
        final(m)@ == old(m)@,
{
}

/// Wait for interrupt; in the model, time simply passes.
pub fn wfi(m: &mut Machine)
    ensures
        final(m)@ == old(m)@,
{
}

/// Data synchronization barrier.
pub fn dsb(m: &mut Machine)
    ensures
        final(m)@ == old(m)@,
{
}

/// Instruction synchronization barrier.
pub fn isb(m: &mut Machine)
    ensures
        final(m)@ == old(m)@,
{
}

/// Reads the domain access control register.
pub fn get_dacr(m: &Machine) -> (r: u32)
    ensures
        r == m@.cpu.dacr,
{
    m.cpu.dacr
}

/// Writes the domain access control register.
pub fn set_dacr(m: &mut Machine, dacr: u32)
    ensures
        final(m)@ == with_cpu(old(m)@, Cpu { dacr, ..old(m)@.cpu }),
{
    m.cpu.dacr = dacr;
    proof {
        assert(m@ =~= with_cpu(old(m)@, Cpu { dacr, ..old(m)@.cpu }));
    }
}

/// Reads translation table base register 0.
pub fn read_ttbr0(m: &Machine) -> (r: u32)
    ensures
        r == m@.cpu.ttbr0,
{
    m.cpu.ttbr0
}

/// Writes translation table base register 0.
pub fn set_ttbr0(m: &mut Machine, ttbr0: u32)
    ensures
        final(m)@ == with_cpu(old(m)@, Cpu { ttbr0, ..old(m)@.cpu }),
{
    m.cpu.ttbr0 = ttbr0;
    proof {
        assert(m@ =~= with_cpu(old(m)@, Cpu { ttbr0, ..old(m)@.cpu }));
    }
}

/// Reads translation table base register 1.
pub fn read_ttbr1(m: &Machine) -> (r: u32)
    ensures
        r == m@.cpu.ttbr1,
{
    m.cpu.ttbr1
}

/// Writes translation table base register 1.
pub fn set_ttbr1(m: &mut Machine, ttbr1: u32)
    ensures
        final(m)@ == with_cpu(old(m)@, Cpu { ttbr1, ..old(m)@.cpu }),
{
    m.cpu.ttbr1 = ttbr1;
    proof {
        assert(m@ =~= with_cpu(old(m)@, Cpu { ttbr1, ..old(m)@.cpu }));
    }
}

/// Invalidates the entire TLB.
pub fn flush_tlb(m: &mut Machine)
    ensures
        final(m)@ == old(m)@,
{
}

/// Invalidates the TLB entry for one modified virtual address.
pub fn flush_tlb_entry(m: &mut Machine, mva: u32)
    ensures
        final(m)@ == old(m)@,
{
}

/// Invalidates the TLB entries of one address-space identifier, which is
/// an 8-bit quantity.
pub fn flush_tlb_asid(m: &mut Machine, asid: u32)
    requires
        asid < 256,
    ensures
        final(m)@ == old(m)@,
{
}

/// Invalidates the entire instruction cache.
pub fn flush_i_cache(m: &mut Machine)
    ensures
        final(m)@ == old(m)@,
{
}

/// Sets the given bits in the system control register.
pub fn set_scltr_flag(m: &mut Machine, flag: u32)
    ensures
        final(m)@ == with_cpu(
            old(m)@,
            Cpu { sctlr: old(m)@.cpu.sctlr | flag, ..old(m)@.cpu },
        ),
{
    m.cpu.sctlr = m.cpu.sctlr | flag;
    proof {
        assert(m@ =~= with_cpu(old(m)@, Cpu { sctlr: old(m)@.cpu.sctlr | flag, ..old(m)@.cpu }));
    }
}

/// Clears the given bits in the system control register.
pub fn clear_scltr_flag(m: &mut Machine, flag: u32)
    ensures
        final(m)@ == with_cpu(
            old(m)@,
            Cpu { sctlr: old(m)@.cpu.sctlr & !flag, ..old(m)@.cpu },
        ),
{
    m.cpu.sctlr = m.cpu.sctlr & !flag;
    proof {
        assert(m@ =~= with_cpu(old(m)@, Cpu { sctlr: old(m)@.cpu.sctlr & !flag, ..old(m)@.cpu }));
    }
}

/// Sets the MMU-enable bit.
pub fn mmu_enable(m: &mut Machine)
    ensures
        final(m)@ == with_cpu(
            old(m)@,
            Cpu { sctlr: old(m)@.cpu.sctlr | SCTLR_M, ..old(m)@.cpu },
        ),
{
    set_scltr_flag(m, SCTLR_M);
}

/// Clears the MMU-enable bit.
pub fn mmu_disable(m: &mut Machine)
    ensures
        final(m)@ == with_cpu(
            old(m)@,
            Cpu { sctlr: old(m)@.cpu.sctlr & !SCTLR_M, ..old(m)@.cpu },
        ),
{
    clear_scltr_flag(m, SCTLR_M);
}

/// Enables the data cache.
pub fn d_cache_enable(m: &mut Machine)
    ensures
        final(m)@ == with_cpu(
            old(m)@,
            Cpu { sctlr: old(m)@.cpu.sctlr | SCTLR_C, ..old(m)@.cpu },
        ),
{
    set_scltr_flag(m, SCTLR_C);
}

/// Disables the data cache.
pub fn d_cache_disable(m: &mut Machine)
    ensures
        final(m)@ == with_cpu(
            old(m)@,
            Cpu { sctlr: old(m)@.cpu.sctlr & !SCTLR_C, ..old(m)@.cpu },
        ),
{
    clear_scltr_flag(m, SCTLR_C);
}

/// Enables the instruction cache.
pub fn i_cache_enable(m: &mut Machine)
    ensures
        final(m)@ == with_cpu(
            old(m)@,
            Cpu { sctlr: old(m)@.cpu.sctlr | SCTLR_I, ..old(m)@.cpu },
        ),
{
    set_scltr_flag(m, SCTLR_I);
}

/// Disables the instruction cache.
pub fn i_cache_disable(m: &mut Machine)
    ensures
        final(m)@ == with_cpu(
            old(m)@,
            Cpu { sctlr: old(m)@.cpu.sctlr & !SCTLR_I, ..old(m)@.cpu },
        ),
{
    clear_scltr_flag(m, SCTLR_I);
}

} // verus!
