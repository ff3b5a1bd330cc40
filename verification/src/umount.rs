//! Teardown guards: pairing a mount with the flags its unmount must use.
//!
//! The verified core issues no system call itself: a guard records exactly
//! what a teardown has to do, and the thin unverified shell around the
//! library carries the recorded request out.
use crate::flags::UnmountFlags;
use vstd::prelude::*;

verus! {

/// A capability that knows which path its teardown must unmount.
///
/// Implementing it upgrades a mount-like value into an [`UnmountDrop`]
/// guard carrying the unmount flags to apply at teardown time.
pub trait Unmount: Sized {
    /// The path a teardown of this value must unmount.
    spec fn spec_unmount_target(&self) -> Seq<char>;

    /// The path a teardown of this value must unmount.
    fn unmount_target(&self) -> (r: &str)
        ensures
            r@ == self.spec_unmount_target(),
    ;

    /// Pair this value with the flags its teardown shall use.
    fn into_unmount_drop(self, flags: UnmountFlags) -> (r: UnmountDrop<Self>)
        ensures
            r.spec_mount() == self,
            r.spec_flags() == flags,
    {
        UnmountDrop { mount: self, flags }
    }
}

/// A teardown guard: a mount together with the unmount flags to apply when
/// the guard's scope ends.
pub struct UnmountDrop<T> {
    /// The guarded mount.
    pub(crate) mount: T,
    /// The flags the teardown shall use.
    pub(crate) flags: UnmountFlags,
}

impl<T> UnmountDrop<T> {
    /// The guarded mount.
    pub closed spec fn spec_mount(&self) -> T {
        self.mount
    }

    /// The flags the teardown shall use.
    pub closed spec fn spec_flags(&self) -> UnmountFlags {
        self.flags
    }

    /// Modify the previously-set unmount flags.
    pub fn set_unmount_flags(&mut self, flags: UnmountFlags)
        ensures
            final(self).spec_flags() == flags,
            final(self).spec_mount() == old(self).spec_mount(),
    {
        self.flags = flags;
    }

    /// The guarded mount, by reference.
    pub fn inner(&self) -> (r: &T)
        ensures
            *r == self.spec_mount(),
    {
        &self.mount
    }

    /// The flags the teardown shall use.
    pub fn flags(&self) -> (r: UnmountFlags)
        ensures
            r == self.spec_flags(),
    {
        self.flags
    }

}

impl<T: Unmount> UnmountDrop<T> {
    /// What this guard's teardown has to do: unmount this path with these
    /// flags.
    pub fn teardown_request(&self) -> (r: (String, UnmountFlags))
        ensures
            r.0@ == self.spec_mount().spec_unmount_target(),
            r.1 == self.spec_flags(),
    {
        (self.mount.unmount_target().to_owned(), self.flags)
    }
}

} // verus!
