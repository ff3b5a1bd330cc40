//! Mount orchestration: filesystem-driver discovery, mount planning,
//! trial-and-error automounting, loopback association, and ordered
//! teardown.
//!
//! The library is the decision core of a mounting tool. It reads the
//! kernel's filesystem registry into a [`SupportedFilesystems`] snapshot,
//! resolves a [`MountBuilder`]'s options into a validated [`MountPlan`],
//! walks the candidate drivers of the plan through a [`Trial`], and
//! records teardown obligations in [`UnmountDrop`] guards and the
//! reverse-order [`Mounts`] collection. Every function here is verified;
//! the system calls a plan or a teardown request asks for are performed
//! by the thin unverified shell that embeds the library.
use vstd::prelude::*;

pub mod builder;
pub mod error;
pub mod flags;
pub mod fstype;
pub mod mount;
pub mod supported;
pub mod trial;
pub mod umount;

pub use builder::MountBuilder;
pub use builder::MountPlan;
pub use error::MountError;
pub use error::ScopedMountError;
pub use flags::MountFlags;
pub use flags::PropagationType;
pub use flags::UnmountFlags;
pub use fstype::FilesystemType;
pub use mount::Mount;
pub use mount::Mounts;
pub use mount::TeardownRequest;
pub use supported::SupportedFilesystems;
pub use trial::Trial;
pub use umount::Unmount;
pub use umount::UnmountDrop;

verus! {

/// True iff the sequence of characters holds an embedded nul, which the
/// operating system's string form cannot carry.
pub open spec fn has_nul(s: Seq<char>) -> bool {
    exists|i: int| 0 <= i < s.len() && s[i] == '\0'
}

/// Scan a string for an embedded nul character.
pub fn contains_nul(s: &str) -> (r: bool)
    ensures
        r == has_nul(s@),
{
    let n = s.unicode_len();
    let mut i: usize = 0;
    while i < n
        invariant
            n == s@.len(),
            0 <= i <= n,
            forall|j: int| 0 <= j < i ==> s@[j] != '\0',
        decreases n - i,
    {
        if s.get_char(i) == '\0' {
            return true;
        }
        i += 1;
    }
    false
}

} // verus!
