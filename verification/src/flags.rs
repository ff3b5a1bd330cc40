//! Flag bitsets for the mount and unmount system calls, each bit mapped 1:1
//! to the value the platform documents for it.
use vstd::prelude::*;

verus! {

/// Mount the file system read-only (the platform's `MS_RDONLY`).
pub const MS_RDONLY: u64 = 0x1;

/// Ignore set-user-ID and set-group-ID bits (`MS_NOSUID`).
pub const MS_NOSUID: u64 = 0x2;

/// Disallow access to device special files (`MS_NODEV`).
pub const MS_NODEV: u64 = 0x4;

/// Disallow program execution (`MS_NOEXEC`).
pub const MS_NOEXEC: u64 = 0x8;

/// Make writes synchronous (`MS_SYNCHRONOUS`).
pub const MS_SYNCHRONOUS: u64 = 0x10;

/// Remount an existing mount in place (`MS_REMOUNT`).
pub const MS_REMOUNT: u64 = 0x20;

/// Permit mandatory locking (`MS_MANDLOCK`).
pub const MS_MANDLOCK: u64 = 0x40;

/// Make directory changes synchronous (`MS_DIRSYNC`).
pub const MS_DIRSYNC: u64 = 0x80;

/// Do not update access times for files (`MS_NOATIME`).
pub const MS_NOATIME: u64 = 0x400;

/// Do not update access times for directories (`MS_NODIRATIME`).
pub const MS_NODIRATIME: u64 = 0x800;

/// Perform a bind mount (`MS_BIND`).
pub const MS_BIND: u64 = 0x1000;

/// Move a subtree atomically to a new mount point (`MS_MOVE`).
pub const MS_MOVE: u64 = 0x2000;

/// Apply BIND or a propagation type recursively (`MS_REC`).
pub const MS_REC: u64 = 0x4000;

/// Suppress certain kernel warning messages (`MS_SILENT`).
pub const MS_SILENT: u64 = 0x8000;

/// Update access times only when older than modification time (`MS_RELATIME`).
pub const MS_RELATIME: u64 = 0x200000;

/// Always update access times (`MS_STRICTATIME`).
pub const MS_STRICTATIME: u64 = 0x1000000;

/// Flags which may be specified when mounting a file system.
///
/// The bit values are the platform's `MS_*` constants for the mount call;
/// they are fixed kernel interface values and must not be renumbered.
#[derive(Clone, Copy, Debug, PartialEq, Eq, Structural)]
pub struct MountFlags {
    bits: u64,
}

impl MountFlags {
    /// The raw bit pattern of this flag set.
    pub closed spec fn spec_bits(&self) -> u64 {
        self.bits
    }

    /// No flags set.
    pub fn empty() -> (r: MountFlags)
        ensures
            r.spec_bits() == 0,
    {
        MountFlags { bits: 0 }
    }

    /// Mount file system read-only.
    pub fn rdonly() -> (r: MountFlags)
        ensures
            r.spec_bits() == MS_RDONLY,
    {
        MountFlags { bits: MS_RDONLY }
    }

    /// Do not honor set-user-ID and set-group-ID bits when executing programs.
    pub fn nosuid() -> (r: MountFlags)
        ensures
            r.spec_bits() == MS_NOSUID,
    {
        MountFlags { bits: MS_NOSUID }
    }

    /// Do not allow access to devices (special files) on this file system.
    pub fn nodev() -> (r: MountFlags)
        ensures
            r.spec_bits() == MS_NODEV,
    {
        MountFlags { bits: MS_NODEV }
    }

    /// Do not allow programs to be executed from this file system.
    pub fn noexec() -> (r: MountFlags)
        ensures
            r.spec_bits() == MS_NOEXEC,
    {
        MountFlags { bits: MS_NOEXEC }
    }

    /// Perform a bind mount, making a file or a directory subtree visible at
    /// another point within the file system.
    pub fn bind() -> (r: MountFlags)
        ensures
            r.spec_bits() == MS_BIND,
    {
        MountFlags { bits: MS_BIND }
    }

    /// The raw bit pattern, as handed to the mount call.
    pub fn bits(&self) -> (r: u64)
        ensures
            r == self.spec_bits(),
    {
        self.bits
    }

    /// Assemble a flag set from a raw bit pattern, e.g. a combination of the
    /// `MS_*` constants of this module.
    pub fn from_bits(bits: u64) -> (r: MountFlags)
        ensures
            r.spec_bits() == bits,
    {
        MountFlags { bits }
    }

    /// True iff every bit of `other` is set in `self`.
    pub open spec fn spec_contains(&self, other: MountFlags) -> bool {
        self.spec_bits() & other.spec_bits() == other.spec_bits()
    }

    /// Test whether every bit of `other` is set in `self`.
    pub fn contains(&self, other: MountFlags) -> (r: bool)
        ensures
            r == self.spec_contains(other),
    {
        self.bits & other.bits == other.bits
    }

    /// The union of the two flag sets.
    pub fn union(self, other: MountFlags) -> (r: MountFlags)
        ensures
            r.spec_bits() == self.spec_bits() | other.spec_bits(),
            r.spec_contains(other),
            r.spec_contains(self),
    {
        proof {
            lemma_or_contains(self.bits, other.bits);
        }
        MountFlags { bits: self.bits | other.bits }
    }
}

impl Default for MountFlags {
    /// An empty flag set, as for a fresh mount request.
    fn default() -> (r: MountFlags)
        ensures
            r.spec_bits() == 0,
    {
        MountFlags { bits: 0 }
    }
}

/// A union of two bit patterns contains both of them.
proof fn lemma_or_contains(a: u64, b: u64)
    ensures
        (a | b) & b == b,
        (a | b) & a == a,
{
    assert((a | b) & b == b && (a | b) & a == a) by (bit_vector);
}

/// Events propagate to and from the mount's peer group (`MS_SHARED`).
pub const MS_SHARED: u64 = 0x100000;

/// Events are received from the peer group but none are sent (`MS_SLAVE`).
pub const MS_SLAVE: u64 = 0x80000;

/// No mount events are received or sent (`MS_PRIVATE`).
pub const MS_PRIVATE: u64 = 0x40000;

/// Private, and unusable as a bind mount source (`MS_UNBINDABLE`).
pub const MS_UNBINDABLE: u64 = 0x20000;

/// Propagation type flags, applied to an already-mounted point to choose how
/// mount events travel between namespaces.
///
/// The bit values are the platform's `MS_*` constants; they share the flag
/// word of the mount call but form a separate domain.
#[derive(Clone, Copy, Debug, PartialEq, Eq, Structural)]
pub struct PropagationType {
    bits: u64,
}

impl PropagationType {
    /// The raw bit pattern of this propagation type.
    pub closed spec fn spec_bits(&self) -> u64 {
        self.bits
    }

    /// The mount is in a peer group: events propagate to and from its peers.
    pub fn shared() -> (r: PropagationType)
        ensures
            r.spec_bits() == MS_SHARED,
    {
        PropagationType { bits: MS_SHARED }
    }

    /// The mount receives events from its peer group but sends none.
    pub fn slave() -> (r: PropagationType)
        ensures
            r.spec_bits() == MS_SLAVE,
    {
        PropagationType { bits: MS_SLAVE }
    }

    /// The mount neither receives nor sends mount events.
    pub fn private() -> (r: PropagationType)
        ensures
            r.spec_bits() == MS_PRIVATE,
    {
        PropagationType { bits: MS_PRIVATE }
    }

    /// The mount is private and cannot be used as a bind mount source.
    pub fn unbindable() -> (r: PropagationType)
        ensures
            r.spec_bits() == MS_UNBINDABLE,
    {
        PropagationType { bits: MS_UNBINDABLE }
    }

    /// The raw bit pattern, as handed to the mount call.
    pub fn bits(&self) -> (r: u64)
        ensures
            r == self.spec_bits(),
    {
        self.bits
    }
}

/// Force unmount even if busy; can cause data loss (`MNT_FORCE`).
pub const MNT_FORCE: u32 = 0x1;

/// Lazy unmount: detach once the mount point is no longer busy (`MNT_DETACH`).
pub const MNT_DETACH: u32 = 0x2;

/// Mark the mount point as expired (`MNT_EXPIRE`).
pub const MNT_EXPIRE: u32 = 0x4;

/// Do not dereference the target if it is a symbolic link (`UMOUNT_NOFOLLOW`).
pub const UMOUNT_NOFOLLOW: u32 = 0x8;

/// Flags which may be specified when unmounting a file system.
///
/// The bit values are the platform's `MNT_*`/`UMOUNT_*` constants for the
/// unmount call. FORCE and DETACH are mutually exclusive, and EXPIRE cannot
/// be combined with either; the kernel rejects such combinations.
#[derive(Clone, Copy, Debug, PartialEq, Eq, Structural)]
pub struct UnmountFlags {
    bits: u32,
}

impl UnmountFlags {
    /// The raw bit pattern of this flag set.
    pub closed spec fn spec_bits(&self) -> u32 {
        self.bits
    }

    /// The empty flag set, as a specification value.
    pub closed spec fn spec_empty() -> UnmountFlags {
        UnmountFlags { bits: 0 }
    }

    /// The flag set holding exactly the lazy-detach flag, as a
    /// specification value.
    pub closed spec fn spec_detach() -> UnmountFlags {
        UnmountFlags { bits: MNT_DETACH }
    }

    /// No flags set: a plain, synchronous unmount.
    pub fn empty() -> (r: UnmountFlags)
        ensures
            r.spec_bits() == 0,
            r == UnmountFlags::spec_empty(),
    {
        UnmountFlags { bits: 0 }
    }

    /// Force unmount even if busy. This can cause data loss.
    pub fn force() -> (r: UnmountFlags)
        ensures
            r.spec_bits() == MNT_FORCE,
    {
        UnmountFlags { bits: MNT_FORCE }
    }

    /// Perform a lazy unmount: make the mount point unavailable for new
    /// accesses, and complete the detachment once it is no longer busy.
    pub fn detach() -> (r: UnmountFlags)
        ensures
            r.spec_bits() == MNT_DETACH,
            r == UnmountFlags::spec_detach(),
    {
        UnmountFlags { bits: MNT_DETACH }
    }

    /// Mark the mount point as expired; a second expiring call unmounts it.
    pub fn expire() -> (r: UnmountFlags)
        ensures
            r.spec_bits() == MNT_EXPIRE,
    {
        UnmountFlags { bits: MNT_EXPIRE }
    }

    /// Do not dereference the target if it is a symbolic link.
    pub fn nofollow() -> (r: UnmountFlags)
        ensures
            r.spec_bits() == UMOUNT_NOFOLLOW,
    {
        UnmountFlags { bits: UMOUNT_NOFOLLOW }
    }

    /// The raw bit pattern, as handed to the unmount call.
    pub fn bits(&self) -> (r: u32)
        ensures
            r == self.spec_bits(),
    {
        self.bits
    }

    /// Assemble a flag set from a raw bit pattern, e.g. a combination of the
    /// `MNT_*` constants of this module.
    pub fn from_bits(bits: u32) -> (r: UnmountFlags)
        ensures
            r.spec_bits() == bits,
    {
        UnmountFlags { bits }
    }

    /// True iff every bit of `other` is set in `self`.
    pub open spec fn spec_contains(&self, other: UnmountFlags) -> bool {
        self.spec_bits() & other.spec_bits() == other.spec_bits()
    }

    /// Test whether every bit of `other` is set in `self`.
    pub fn contains(&self, other: UnmountFlags) -> (r: bool)
        ensures
            r == self.spec_contains(other),
    {
        self.bits & other.bits == other.bits
    }

    /// The union of the two flag sets.
    pub fn union(self, other: UnmountFlags) -> (r: UnmountFlags)
        ensures
            r.spec_bits() == self.spec_bits() | other.spec_bits(),
    {
        UnmountFlags { bits: self.bits | other.bits }
    }
}

impl Default for UnmountFlags {
    /// An empty flag set: a plain, synchronous unmount.
    fn default() -> (r: UnmountFlags)
        ensures
            r.spec_bits() == 0,
    {
        UnmountFlags { bits: 0 }
    }
}

} // verus!
