//! Assembling a validated mount request: driver selection, image
//! detection, loopback planning and flag handling.
use crate::error::MountError;
use crate::flags::MountFlags;
use crate::flags::MS_RDONLY;
use crate::fstype::FilesystemType;
use crate::contains_nul;
use crate::has_nul;
use crate::supported::dev_names;
use crate::supported::str_range_eq;
use crate::supported::views_of;
use crate::supported::SupportedFilesystems;
use vstd::prelude::*;

verus! {

/// The position right after the last occurrence of `sep`, or `0` when the
/// sequence holds no `sep` at all.
pub open spec fn suffix_start(p: Seq<char>, sep: char) -> int
    decreases p.len(),
{
    if p.len() == 0 {
        0
    } else if p[p.len() - 1] == sep {
        p.len() as int
    } else {
        suffix_start(p.drop_last(), sep)
    }
}

/// The extension of the path: what follows the last dot of its final
/// component, provided that dot is preceded by at least one character of
/// the component, so that a name that is nothing but a leading dot has no
/// extension.
pub open spec fn extension_of(p: Seq<char>) -> Option<Seq<char>> {
    let name = p.skip(suffix_start(p, '/'));
    let d = suffix_start(name, '.');
    if d >= 2 {
        Some(name.skip(d))
    } else {
        None
    }
}

/// The driver forced by an image source: `iso9660` for an `iso` file,
/// `squashfs` for a `squashfs` file, nothing otherwise.
pub open spec fn image_driver(source: Seq<char>) -> Option<Seq<char>> {
    match extension_of(source) {
        Option::Some(e) => if e == "iso"@ {
            Some("iso9660"@)
        } else if e == "squashfs"@ {
            Some("squashfs"@)
        } else {
            None
        },
        Option::None => None,
    }
}

/// Find the extension of a path: the character range of what follows the
/// last dot of its final component.
fn find_extension(p: &str) -> (r: Option<(usize, usize)>)
    ensures
        match r {
            Option::Some(ab) => {
                &&& ab.0 <= ab.1 <= p@.len()
                &&& extension_of(p@) == Some(p@.subrange(ab.0 as int, ab.1 as int))
            },
            Option::None => extension_of(p@) is None,
        },
{
    let n = p.unicode_len();
    // The start of the final path component.
    let mut sep_end: usize = 0;
    let mut i: usize = 0;
    while i < n
        invariant
            n == p@.len(),
            0 <= i <= n,
            sep_end <= i,
            sep_end == suffix_start(p@.take(i as int), '/'),
        decreases n - i,
    {
        proof {
            assert(p@.take(i + 1).drop_last() =~= p@.take(i as int));
            assert(p@.take(i + 1).last() == p@[i as int]);
        }
        if p.get_char(i) == '/' {
            sep_end = i + 1;
        }
        i += 1;
    }
    proof {
        assert(p@.take(n as int) =~= p@);
    }
    let ghost name = p@.skip(sep_end as int);
    // The position after the last dot within the final component.
    let mut dot_end: usize = sep_end;
    let mut j: usize = sep_end;
    while j < n
        invariant
            n == p@.len(),
            sep_end <= j <= n,
            sep_end <= dot_end <= j,
            name == p@.skip(sep_end as int),
            dot_end - sep_end == suffix_start(name.take(j - sep_end), '.'),
        decreases n - j,
    {
        proof {
            assert(name.take(j - sep_end + 1).drop_last() =~= name.take(j - sep_end));
            assert(name.take(j - sep_end + 1).last() == name[j - sep_end]);
            assert(name[j - sep_end] == p@[j as int]);
        }
        if p.get_char(j) == '.' {
            dot_end = j + 1;
        }
        j += 1;
    }
    proof {
        assert(name.take(n - sep_end) =~= name);
    }
    if dot_end - sep_end >= 2 {
        proof {
            assert(name.skip(dot_end - sep_end) =~= p@.subrange(dot_end as int, n as int));
        }
        Some((dot_end, n))
    } else {
        None
    }
}

/// A complete, validated mount request: what one mount has to do, with
/// every string checked and the driver trial order resolved.
///
/// The verified core issues no system call itself: the plan records
/// exactly what the mount has to do, and the thin unverified shell around
/// the library carries it out, reporting each attempt's outcome back to a
/// [`Trial`].
#[derive(Debug)]
pub struct MountPlan {
    /// The mount source handed to the operating system; a mount with no
    /// source (for a virtual filesystem) carries none.
    pub source: Option<String>,
    /// The mount target path.
    pub target: String,
    /// The flags of the mount call.
    pub flags: MountFlags,
    /// The mount-data string, if any.
    pub data: Option<String>,
    /// The drivers to try, in trial order.
    pub candidates: Vec<String>,
    /// Whether the source is an image that must first be attached to a
    /// loopback device, whose block-special path then serves as the
    /// effective mount source.
    pub loopback: bool,
    /// The byte offset at which a loopback device maps the image.
    pub loopback_offset: u64,
}

/// Builder API for mounting devices.
///
/// The builder accumulates mount options and, on finalization, resolves
/// them into a [`MountPlan`].
#[derive(Clone, Copy, Debug)]
pub struct MountBuilder<'a> {
    flags: MountFlags,
    fstype: Option<FilesystemType<'a>>,
    loopback_offset: u64,
    data: Option<&'a str>,
}

impl<'a> Default for MountBuilder<'a> {
    /// A builder with no flags, no driver selection, no loopback offset
    /// and no mount data.
    fn default() -> (r: MountBuilder<'a>)
        ensures
            r.spec_flags().spec_bits() == 0,
            r.spec_fstype() is None,
            r.spec_loopback_offset() == 0,
            r.spec_data() is None,
    {
        MountBuilder { flags: MountFlags::empty(), fstype: None, loopback_offset: 0, data: None }
    }
}

impl<'a> MountBuilder<'a> {
    /// The mount flags set so far.
    pub closed spec fn spec_flags(&self) -> MountFlags {
        self.flags
    }

    /// The driver selection set so far, if any.
    pub closed spec fn spec_fstype(&self) -> Option<FilesystemType<'a>> {
        self.fstype
    }

    /// The loopback byte offset set so far.
    pub closed spec fn spec_loopback_offset(&self) -> u64 {
        self.loopback_offset
    }

    /// The mount-data string set so far, if any.
    pub closed spec fn spec_data(&self) -> Option<Seq<char>> {
        match self.data {
            Option::Some(d) => Some(d@),
            Option::None => None,
        }
    }

    /// Options to apply for the file system on mount.
    pub fn data(self, data: &'a str) -> (r: Self)
        ensures
            r.spec_data() == Some(data@),
            r.spec_flags() == self.spec_flags(),
            r.spec_fstype() == self.spec_fstype(),
            r.spec_loopback_offset() == self.spec_loopback_offset(),
    {
        MountBuilder { data: Some(data), ..self }
    }

    /// The file system that is to be mounted.
    pub fn fstype(self, fs: FilesystemType<'a>) -> (r: Self)
        ensures
            r.spec_fstype() == Some(fs),
            r.spec_flags() == self.spec_flags(),
            r.spec_data() == self.spec_data(),
            r.spec_loopback_offset() == self.spec_loopback_offset(),
    {
        MountBuilder { fstype: Some(fs), ..self }
    }

    /// Mount flags for the mount call.
    pub fn flags(self, flags: MountFlags) -> (r: Self)
        ensures
            r.spec_flags() == flags,
            r.spec_fstype() == self.spec_fstype(),
            r.spec_data() == self.spec_data(),
            r.spec_loopback_offset() == self.spec_loopback_offset(),
    {
        MountBuilder { flags, ..self }
    }

    /// Offset in bytes for the loopback device.
    pub fn loopback_offset(self, offset: u64) -> (r: Self)
        ensures
            r.spec_loopback_offset() == offset,
            r.spec_flags() == self.spec_flags(),
            r.spec_fstype() == self.spec_fstype(),
            r.spec_data() == self.spec_data(),
    {
        MountBuilder { loopback_offset: offset, ..self }
    }

    /// Whether finalizing still needs a discovered snapshot: true iff no
    /// driver selection was made, so automatic selection must run over a
    /// snapshot the caller supplies.
    pub fn needs_discovery(&self) -> (r: bool)
        ensures
            r == (self.spec_fstype() is None),
    {
        self.fstype.is_none()
    }

    /// The drivers the builder's selection tries when the source is no
    /// image: the chosen selector's candidates, or, when none was chosen,
    /// the device-backed drivers of the discovered snapshot.
    pub open spec fn spec_selected_candidates(
        self,
        discovered: Option<&SupportedFilesystems>,
    ) -> Seq<Seq<char>> {
        match self.spec_fstype() {
            Option::Some(f) => f.spec_candidates(),
            Option::None => dev_names(discovered->Some_0.entries()),
        }
    }

    /// Resolve the builder into a validated plan for mounting `source` at
    /// `target`.
    ///
    /// When no driver selection was made, the automatic selection runs
    /// over `discovered`, which the caller must then supply.
    ///
    /// A source naming an `iso` or `squashfs` image forces that image's
    /// driver and the read-only flag, and asks for a loopback device. An
    /// empty source stands for a mount without a source and skips all
    /// loopback handling. Any string holding an embedded nul is rejected
    /// before anything else is decided.
    pub fn prepare(
        &self,
        source: &str,
        target: &str,
        discovered: Option<&SupportedFilesystems>,
    ) -> (r: Result<MountPlan, MountError>)
        requires
            self.spec_fstype() is Some || discovered is Some,
        ensures
            r is Err <==> (has_nul(source@) || has_nul(target@) || (self.spec_data() is Some
                && has_nul(self.spec_data()->Some_0))),
            r is Err ==> r->Err_0 == MountError::InvalidString,
            r is Ok ==> (r->Ok_0).matches(*self, source@, target@, discovered),
    {
        if contains_nul(source) || contains_nul(target) {
            return Err(MountError::InvalidString);
        }
        let data: Option<String> = match self.data {
            Option::Some(d) => {
                if contains_nul(d) {
                    return Err(MountError::InvalidString);
                }
                Some(d.to_owned())
            },
            Option::None => None,
        };
        let n = source.unicode_len();
        // An image source forces its driver and a read-only loopback plan.
        let mut image_drv: Option<String> = None;
        if n > 0 {
            match find_extension(source) {
                Option::Some((a, b)) => {
                    if str_range_eq(source, a, b, "iso") {
                        image_drv = Some("iso9660".to_owned());
                    } else if str_range_eq(source, a, b, "squashfs") {
                        image_drv = Some("squashfs".to_owned());
                    }
                },
                Option::None => (),
            }
        }
        let flags: MountFlags;
        let loopback: bool;
        let candidates: Vec<String>;
        match image_drv {
            Option::Some(drv) => {
                flags = self.flags.union(MountFlags::rdonly());
                loopback = true;
                let mut one: Vec<String> = Vec::new();
                one.push(drv);
                proof {
                    assert(views_of(one@) =~= seq![image_driver(source@)->Some_0]);
                }
                candidates = one;
            },
            Option::None => {
                flags = self.flags;
                loopback = false;
                candidates = match &self.fstype {
                    Option::Some(f) => f.candidates(),
                    Option::None => match discovered {
                        Option::Some(s) => s.dev_file_systems(),
                        Option::None => vstd::pervasive::unreached(),
                    },
                };
            },
        }
        let source_opt: Option<String> = if n == 0 {
            None
        } else {
            Some(source.to_owned())
        };
        Ok(
            MountPlan {
                source: source_opt,
                target: target.to_owned(),
                flags,
                data,
                candidates,
                loopback,
                loopback_offset: self.loopback_offset,
            },
        )
    }
}

impl MountPlan {
    /// The plan a builder with these settings yields for this source and
    /// target: every string carried over as given, the image rules
    /// applied, and the trial order resolved.
    pub open spec fn matches(
        self,
        b: MountBuilder,
        source: Seq<char>,
        target: Seq<char>,
        discovered: Option<&SupportedFilesystems>,
    ) -> bool {
        let image = if source.len() > 0 {
            image_driver(source)
        } else {
            Option::None
        };
        &&& self.target@ == target
        &&& self.loopback_offset == b.spec_loopback_offset()
        &&& (match b.spec_data() {
            Option::Some(d) => self.data is Some && self.data->Some_0@ == d,
            Option::None => self.data is None,
        })
        &&& (if source.len() == 0 {
            self.source is None
        } else {
            self.source is Some && self.source->Some_0@ == source
        })
        &&& (match image {
            Option::Some(drv) => {
                &&& self.loopback
                &&& views_of(self.candidates@) == seq![drv]
                &&& self.flags.spec_bits() == b.spec_flags().spec_bits() | MS_RDONLY
            },
            Option::None => {
                &&& !self.loopback
                &&& views_of(self.candidates@) == b.spec_selected_candidates(discovered)
                &&& self.flags == b.spec_flags()
            },
        })
    }
}

/// Law: with automatic driver selection and a source that is no image,
/// the resolved trial order is exactly the discovery order of the
/// snapshot's device-backed drivers.
pub proof fn lemma_auto_trial_is_discovery_order<'a>(
    b: MountBuilder<'a>,
    s: &'a SupportedFilesystems,
    source: Seq<char>,
    target: Seq<char>,
    plan: MountPlan,
)
    requires
        b.spec_fstype() == Some(FilesystemType::Auto(s)) || b.spec_fstype() is None,
        plan.matches(b, source, target, Some(s)),
        source.len() > 0 ==> image_driver(source) is None,
    ensures
        views_of(plan.candidates@) == dev_names(s.entries()),
{
}

} // verus!
