//! MMC/SD front end: the common interface over the two controller
//! drivers, as the boot path uses it.

use vstd::prelude::*;

use crate::machine::{m_wf, Machine};
use crate::uart::Platform;

verus! {

/// Errors of the MMC/SD layer.
#[derive(Clone, Copy, PartialEq, Eq, Structural, Debug)]
pub enum MMCError {
    /// The card answered no command.
    NoResponse,
    /// A bounded controller wait ran out.
    Timeout,
    /// The interface-condition echo was wrong.
    BadCMD8Response,
    /// The platform has no sector-read path.
    Unimplemented,
}

/// Card and controller initialization for the platform.
pub fn init(m: &mut Machine, p: Platform) -> (r: Result<(), MMCError>)
    requires
        m_wf(old(m)@),
        old(m)@.sd.rint & crate::regs::SD_RISR_NO_RESPONSE == 0,
    ensures
        m_wf(final(m)@),
        final(m)@.dram == old(m)@.dram,
        final(m)@.tables == old(m)@.tables,
        final(m)@.console == old(m)@.console,
        final(m)@.cpu == old(m)@.cpu,
        final(m)@.pmic == old(m)@.pmic,
        final(m)@.layout == old(m)@.layout,
        final(m)@.faults == old(m)@.faults,
        final(m)@.sd.disk == old(m)@.sd.disk,
        crate::uart::uart_untouched(old(m)@, final(m)@),
        r is Ok <==> !old(m)@.faults.sd_no_response && crate::machine::sd_resp(old(m)@, 8, 0x1AA)
            & 0xFF == 0xAA && crate::machine::sd_resp(old(m)@, 8, 0x1AA) >> 8 == 0x1,
        r is Ok ==> final(m)@.sd.rint & crate::regs::SD_RISR_NO_RESPONSE == 0,
        r == Err::<(), MMCError>(MMCError::NoResponse) <==> old(m)@.faults.sd_no_response,
        r == Err::<(), MMCError>(MMCError::BadCMD8Response) <==> !old(m)@.faults.sd_no_response
            && !(crate::machine::sd_resp(old(m)@, 8, 0x1AA) & 0xFF == 0xAA
            && crate::machine::sd_resp(old(m)@, 8, 0x1AA) >> 8 == 0x1),
    {
    match p {
        Platform::Qemu => crate::mmc_qemu::init(m),
        Platform::Bbb => crate::mmc_bbb::init(m),
    }
}

/// Reads one 512-byte sector into `buffer`. Only the emulator target has
/// a data path to the card.
pub fn read_sector(m: &mut Machine, p: Platform, sector: u32, buffer: &mut Vec<u8>) -> (r: Result<
    (),
    MMCError,
>)
    requires
        m_wf(old(m)@),
        old(buffer)@.len() == 512,
        sector <= 0x7F_FFFF,
        old(m)@.sd.rint & crate::regs::SD_RISR_NO_RESPONSE == 0,
    ensures
        m_wf(final(m)@),
        final(m)@.dram == old(m)@.dram,
        final(m)@.tables == old(m)@.tables,
        final(m)@.console == old(m)@.console,
        final(m)@.cpu == old(m)@.cpu,
        final(m)@.pmic == old(m)@.pmic,
        final(m)@.layout == old(m)@.layout,
        final(m)@.faults == old(m)@.faults,
        final(m)@.sd.disk == old(m)@.sd.disk,
        final(buffer)@.len() == 512,
        match p {
            Platform::Qemu => {
                &&& (r is Ok <==> !old(m)@.faults.sd_no_response)
                &&& r is Ok ==> final(buffer)@ == crate::mmc_qemu::sector_bytes(
                    old(m)@.sd.disk,
                    sector,
                )
                &&& r is Ok ==> final(m)@.sd.rint & crate::regs::SD_RISR_NO_RESPONSE == 0
            },
            Platform::Bbb => r == Err::<(), MMCError>(MMCError::Unimplemented) && final(m)@ == old(
                m,
            )@ && final(buffer)@ == old(buffer)@,
        },
{
    match p {
        Platform::Qemu => crate::mmc_qemu::read_sector(m, sector, buffer),
        Platform::Bbb => Err(MMCError::Unimplemented),
    }
}

} // verus!
