//! The handle a successful mount yields, and the ordered collection that
//! tears a group of mounts down in reverse.
use crate::builder::MountBuilder;
use crate::flags::UnmountFlags;
use crate::umount::Unmount;
use crate::umount::UnmountDrop;
use vstd::prelude::*;

verus! {

/// Handle for a mounted file system: the target path, the driver that
/// actually succeeded, and, for an image-backed mount, the path of the
/// loopback device that carries the image.
#[derive(Debug)]
pub struct Mount {
    target: String,
    fstype: String,
    loop_path: Option<String>,
}

impl Mount {
    /// The path this mount was mounted on.
    pub closed spec fn spec_target(&self) -> Seq<char> {
        self.target@
    }

    /// The driver this mount was mounted with.
    pub closed spec fn spec_fstype(&self) -> Seq<char> {
        self.fstype@
    }

    /// The path of the loopback device backing this mount, if any.
    pub closed spec fn spec_loop_path(&self) -> Option<Seq<char>> {
        match self.loop_path {
            Option::Some(p) => Some(p@),
            Option::None => None,
        }
    }

    /// A builder for configuring a new mount.
    pub fn builder<'a>() -> (r: MountBuilder<'a>)
        ensures
            r.spec_flags().spec_bits() == 0,
            r.spec_fstype() is None,
            r.spec_loopback_offset() == 0,
            r.spec_data() is None,
    {
        MountBuilder::default()
    }

    /// A handle for a mount of `target` that succeeded with the driver
    /// `fstype`, without a loopback device.
    pub fn from_target_and_fstype(target: String, fstype: String) -> (r: Mount)
        ensures
            r.spec_target() == target@,
            r.spec_fstype() == fstype@,
            r.spec_loop_path() is None,
    {
        Mount { target, fstype, loop_path: None }
    }

    /// Describes the file system which this mount was mounted with.
    ///
    /// This is what automatic driver selection actually settled on, which
    /// is not known until the trial succeeds.
    pub fn get_fstype(&self) -> (r: &str)
        ensures
            r@ == self.spec_fstype(),
    {
        self.fstype.as_str()
    }

    /// Return the path this mount was mounted on.
    pub fn target_path(&self) -> (r: &str)
        ensures
            r@ == self.spec_target(),
    {
        self.target.as_str()
    }

    /// The same mount, recorded as backed by the loopback device at
    /// `path`.
    ///
    /// Unmounting such a mount must also detach that device, in that
    /// order, since the kernel will not release a loop device while it
    /// backs an active mount.
    pub fn with_loop_device(self, path: String) -> (r: Mount)
        ensures
            r.spec_target() == self.spec_target(),
            r.spec_fstype() == self.spec_fstype(),
            r.spec_loop_path() == Some(path@),
    {
        Mount { target: self.target, fstype: self.fstype, loop_path: Some(path) }
    }

    /// If the mounted source was backed by a loopback device, that
    /// device's path.
    pub fn backing_loop_device(&self) -> (r: Option<&String>)
        ensures
            match r {
                Option::Some(p) => self.spec_loop_path() == Some(p@),
                Option::None => self.spec_loop_path() is None,
            },
    {
        self.loop_path.as_ref()
    }
}

impl Unmount for Mount {
    /// Teardown of a mount unmounts its target path.
    open spec fn spec_unmount_target(&self) -> Seq<char> {
        self.spec_target()
    }

    fn unmount_target(&self) -> (r: &str) {
        self.target.as_str()
    }
}

/// One teardown step: unmount the target with the flags, and then detach
/// the loop device, if one backs the mount — in that order, since the
/// kernel will not release a loop device while it backs an active mount.
#[derive(Debug)]
pub struct TeardownRequest {
    /// The path to unmount.
    pub target: String,
    /// The flags the unmount call shall use.
    pub flags: UnmountFlags,
    /// The loop device to detach afterwards, if the mount owns one.
    pub loop_device: Option<String>,
}

impl TeardownRequest {
    /// Whether this request tears the given guard down: same target, the
    /// given flags, and the guard's loop device.
    pub open spec fn is_for(self, g: UnmountDrop<Mount>, flags: UnmountFlags) -> bool {
        &&& self.target@ == g.spec_mount().spec_target()
        &&& self.flags == flags
        &&& (match g.spec_mount().spec_loop_path() {
            Option::Some(p) => self.loop_device is Some && self.loop_device->Some_0@ == p,
            Option::None => self.loop_device is None,
        })
    }
}

/// An ordered collection of teardown guards whose teardown proceeds in the
/// exact reverse of insertion order, because a later mount may nest inside
/// an earlier one and must be removed first.
pub struct Mounts(pub Vec<UnmountDrop<Mount>>);

impl Mounts {
    /// The target paths of the guarded mounts, in insertion order.
    pub open spec fn spec_targets(&self) -> Seq<Seq<char>> {
        self.0@.map_values(|g: UnmountDrop<Mount>| g.spec_mount().spec_target())
    }

    /// The teardown requests of an explicit unmount of the whole
    /// collection: every guard in the exact reverse of insertion order,
    /// each with the lazy-detach flag when `lazy` is set and with no flags
    /// otherwise.
    ///
    /// The caller carries the requests out in the given order and stops at
    /// the first failure.
    pub fn unmount_order(&self, lazy: bool) -> (r: Vec<TeardownRequest>)
        ensures
            r@.map_values(|t: TeardownRequest| t.target@) == self.spec_targets().reverse(),
            lazy ==> forall|i: int|
                0 <= i < r@.len() ==> #[trigger] r@[i].is_for(
                    self.0@[r@.len() - 1 - i],
                    UnmountFlags::spec_detach(),
                ),
            !lazy ==> forall|i: int|
                0 <= i < r@.len() ==> #[trigger] r@[i].is_for(
                    self.0@[r@.len() - 1 - i],
                    UnmountFlags::spec_empty(),
                ),
    {
        let flags = if lazy {
            UnmountFlags::detach()
        } else {
            UnmountFlags::empty()
        };
        let n = self.0.len();
        let mut out: Vec<TeardownRequest> = Vec::new();
        let mut i: usize = 0;
        while i < n
            invariant
                n == self.0@.len(),
                0 <= i <= n,
                out@.len() == i,
                flags == if lazy {
                    UnmountFlags::spec_detach()
                } else {
                    UnmountFlags::spec_empty()
                },
                forall|m: int| 0 <= m < i ==> #[trigger] out@[m].is_for(self.0@[n - 1 - m], flags),
                forall|m: int| 0 <= m < i ==> #[trigger] out@[m].target@ == self.spec_targets()[n
                    - 1 - m],
            decreases n - i,
        {
            let g = &self.0[n - 1 - i];
            out.push(teardown_of(g, flags));
            i += 1;
        }
        proof {
            assert(out@.map_values(|t: TeardownRequest| t.target@)
                =~= self.spec_targets().reverse());
        }
        out
    }

    /// The next step of an explicit unmount of the collection: the
    /// request for the last guard still held, with the lazy-detach flag
    /// when `lazy` is set and with no flags otherwise; nothing once every
    /// guard is gone.
    pub fn next_teardown(&self, lazy: bool) -> (r: Option<TeardownRequest>)
        ensures
            r is Some <==> self.0@.len() > 0,
            (lazy && self.0@.len() > 0) ==> r->Some_0.is_for(
                self.0@[self.0@.len() - 1],
                UnmountFlags::spec_detach(),
            ),
            (!lazy && self.0@.len() > 0) ==> r->Some_0.is_for(
                self.0@[self.0@.len() - 1],
                UnmountFlags::spec_empty(),
            ),
    {
        let flags = if lazy {
            UnmountFlags::detach()
        } else {
            UnmountFlags::empty()
        };
        let n = self.0.len();
        if n == 0 {
            None
        } else {
            Some(teardown_of(&self.0[n - 1], flags))
        }
    }

    /// Record that the last guard's teardown succeeded: the guard leaves
    /// the collection, so a later teardown skips it.
    pub fn confirm_teardown(&mut self)
        requires
            old(self).0@.len() > 0,
        ensures
            final(self).0@ == old(self).0@.take(old(self).0@.len() - 1),
    {
        self.0.pop();
        proof {
            assert(self.0@ =~= old(self).0@.take(old(self).0@.len() - 1));
        }
    }

    /// The teardown requests of a scope-exit teardown: every guard in the
    /// exact reverse of insertion order, each with its own guard's flags.
    ///
    /// The caller carries the requests out in the given order, best-effort,
    /// swallowing individual failures, since a teardown at end of scope has
    /// nowhere to report them.
    pub fn drop_order(&self) -> (r: Vec<TeardownRequest>)
        ensures
            r@.map_values(|t: TeardownRequest| t.target@) == self.spec_targets().reverse(),
            forall|i: int|
                0 <= i < r@.len() ==> #[trigger] r@[i].is_for(
                    self.0@[r@.len() - 1 - i],
                    self.0@[r@.len() - 1 - i].spec_flags(),
                ),
    {
        let n = self.0.len();
        let mut out: Vec<TeardownRequest> = Vec::new();
        let mut i: usize = 0;
        while i < n
            invariant
                n == self.0@.len(),
                0 <= i <= n,
                out@.len() == i,
                forall|m: int| 0 <= m < i ==> #[trigger] out@[m].is_for(
                    self.0@[n - 1 - m],
                    self.0@[n - 1 - m].spec_flags(),
                ),
                forall|m: int| 0 <= m < i ==> #[trigger] out@[m].target@ == self.spec_targets()[n
                    - 1 - m],
            decreases n - i,
        {
            let g = &self.0[n - 1 - i];
            let flags = g.flags();
            out.push(teardown_of(g, flags));
            i += 1;
        }
        proof {
            assert(out@.map_values(|t: TeardownRequest| t.target@)
                =~= self.spec_targets().reverse());
        }
        out
    }
}

/// The request that tears one guard down with the given flags.
fn teardown_of(g: &UnmountDrop<Mount>, flags: UnmountFlags) -> (r: TeardownRequest)
    ensures
        r.is_for(*g, flags),
{
    let loop_device = match g.inner().backing_loop_device() {
        Option::Some(p) => Some(p.clone()),
        Option::None => None,
    };
    TeardownRequest { target: g.inner().target_path().to_owned(), flags, loop_device }
}

/// Law: a teardown of a collection of guards visits the guarded targets in
/// exactly the reverse of their insertion order.
pub proof fn lemma_teardown_reversed(ms: Mounts, order: Seq<Seq<char>>)
    requires
        order == ms.spec_targets().reverse(),
    ensures
        order.len() == ms.spec_targets().len(),
        forall|i: int|
            0 <= i < order.len() ==> order[i] == ms.spec_targets()[order.len() - 1 - i],
{
}

} // verus!
