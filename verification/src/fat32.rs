//! The boundary to the FAT32 reader. The reader itself is an external
//! collaborator that walks the filesystem over a sector-read callback; the
//! boot logic only consumes its outcome: either the opened file's bytes or
//! one of the documented error kinds.

use vstd::prelude::*;

verus! {

/// The documented error taxonomy of the FAT32 reader.
#[derive(Clone, Copy, PartialEq, Eq, Structural, Debug)]
pub enum Fat32Error {
    IOError,
    InvalidBootSector,
    NoFile,
    BadParam,
    CorruptedFS,
    NoSpace,
    NoDir,
    NoPath,
    IsDirNotFile,
    NotDir,
    EndOfDir,
    NoLabel,
    InvalidCluster,
}

} // verus!
