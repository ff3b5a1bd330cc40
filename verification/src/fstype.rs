//! How the filesystem driver for a mount is to be resolved.
use crate::supported::dev_names;
use crate::supported::views_of;
use crate::supported::SupportedFilesystems;
use vstd::prelude::*;

verus! {

/// Defines how the file system type should be derived for a mount: chosen
/// automatically, named by the caller, or drawn from a given list.
///
/// The value borrows the snapshot or the names it refers to for the
/// duration of one mount attempt and owns nothing of its own.
#[derive(Clone, Copy, Debug)]
pub enum FilesystemType<'a> {
    /// Try every device-backed driver of the snapshot, in discovery order,
    /// until one succeeds.
    Auto(&'a SupportedFilesystems),
    /// Mount with this one driver, avoiding trial and error.
    Manual(&'a str),
    /// Try exactly these drivers, in the given order.
    List(&'a [&'a str]),
}

impl<'a> FilesystemType<'a> {
    /// The drivers a mount with this selector tries, in trial order.
    pub open spec fn spec_candidates(self) -> Seq<Seq<char>> {
        match self {
            FilesystemType::Auto(s) => dev_names(s.entries()),
            FilesystemType::Manual(name) => seq![name@],
            FilesystemType::List(names) => names@.map_values(|n: &str| n@),
        }
    }

    /// Resolve the selector to the list of drivers to try, in trial order.
    pub fn candidates(&self) -> (r: Vec<String>)
        ensures
            views_of(r@) == self.spec_candidates(),
    {
        match self {
            FilesystemType::Auto(s) => s.dev_file_systems(),
            FilesystemType::Manual(name) => {
                let mut out: Vec<String> = Vec::new();
                out.push((*name).to_owned());
                proof {
                    assert(views_of(out@) =~= self.spec_candidates());
                }
                out
            },
            FilesystemType::List(names) => {
                let n = names.len();
                let mut out: Vec<String> = Vec::new();
                let mut i: usize = 0;
                while i < n
                    invariant
                        n == names@.len(),
                        0 <= i <= n,
                        views_of(out@) =~= names@.take(i as int).map_values(|m: &str| m@),
                    decreases n - i,
                {
                    let ghost pre = out@;
                    out.push((*vstd::slice::slice_index_get(*names, i)).to_owned());
                    proof {
                        assert(views_of(out@) =~= views_of(pre).push(names@[i as int]@));
                        assert(names@.take(i + 1) =~= names@.take(i as int).push(
                            names@[i as int],
                        ));
                        assert(views_of(out@) =~= names@.take(i + 1).map_values(|m: &str| m@));
                    }
                    i += 1;
                }
                proof {
                    assert(names@.take(n as int) =~= names@);
                }
                out
            },
        }
    }
}

impl<'a> From<&'a SupportedFilesystems> for FilesystemType<'a> {
    /// A snapshot selects automatic trial of its device-backed drivers.
    fn from(s: &'a SupportedFilesystems) -> (r: FilesystemType<'a>) {
        FilesystemType::Auto(s)
    }
}

impl<'a> vstd::std_specs::convert::FromSpecImpl<&'a SupportedFilesystems> for FilesystemType<'a> {
    open spec fn obeys_from_spec() -> bool {
        true
    }

    open spec fn from_spec(s: &'a SupportedFilesystems) -> FilesystemType<'a> {
        FilesystemType::Auto(s)
    }
}

impl<'a> From<&'a str> for FilesystemType<'a> {
    /// A name selects that one driver.
    fn from(name: &'a str) -> (r: FilesystemType<'a>) {
        FilesystemType::Manual(name)
    }
}

impl<'a> vstd::std_specs::convert::FromSpecImpl<&'a str> for FilesystemType<'a> {
    open spec fn obeys_from_spec() -> bool {
        true
    }

    open spec fn from_spec(name: &'a str) -> FilesystemType<'a> {
        FilesystemType::Manual(name)
    }
}

impl<'a> From<&'a [&'a str]> for FilesystemType<'a> {
    /// A list of names selects trial of exactly those drivers, in order.
    fn from(names: &'a [&'a str]) -> (r: FilesystemType<'a>) {
        FilesystemType::List(names)
    }
}

impl<'a> vstd::std_specs::convert::FromSpecImpl<&'a [&'a str]> for FilesystemType<'a> {
    open spec fn obeys_from_spec() -> bool {
        true
    }

    open spec fn from_spec(names: &'a [&'a str]) -> FilesystemType<'a> {
        FilesystemType::List(names)
    }
}

} // verus!
