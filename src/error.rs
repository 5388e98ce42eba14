//! Errors returned by register and telemetry operations.
use vstd::prelude::*;

verus! {

/// Why a register or telemetry operation failed.
#[derive(Clone, Debug, PartialEq, Eq)]
pub enum Error {
    /// The transport failed (I/O, timeout, checksum, short read); its message
    /// is passed through unchanged.
    Transport(String),
    /// The bytes do not match the schema: a block of the wrong length, a batch
    /// with the wrong number of blocks, or a value that does not fit the
    /// register's width.
    Format,
}

} // verus!
