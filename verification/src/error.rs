//! Error values for mount, unmount and discovery operations.
use vstd::prelude::*;

verus! {

/// Why a mount or unmount operation failed.
///
/// Operating-system failures are carried verbatim as their error number,
/// never reclassified, so a caller sees exactly what the kernel reported.
#[derive(Clone, Copy, Debug, PartialEq, Eq, Structural)]
pub enum MountError {
    /// A source, target, data or driver-name string holds an embedded nul
    /// byte and cannot be handed to the operating system.
    InvalidString,
    /// Automounting exhausted every candidate driver without a single
    /// attempt reporting a concrete error: there was no driver to try.
    NoSupportedFilesystem,
    /// The operating system refused the operation with this error number.
    Os(i32),
}

/// Why a scoped mount could not be carried out.
#[derive(Clone, Copy, Debug, PartialEq, Eq, Structural)]
pub enum ScopedMountError {
    /// The list of supported file systems could not be read.
    Supported(MountError),
    /// The partition could not be mounted.
    Mount(MountError),
}

} // verus!
