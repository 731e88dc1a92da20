//! The BIOS module: vendor, version and date from the DMI tables.

use vstd::prelude::*;
use crate::modules::{ModuleKind, kind_name};
use crate::text::{opt_str, push_str, trim, trim_str};

verus! {

/// Shows the firmware vendor, version and date.
pub struct BiosModule;

/// A part that is appended after two spaces when it is not empty.
pub open spec fn optional_part(p: Seq<char>) -> Seq<char> {
    if p.len() == 0 {
        Seq::empty()
    } else {
        "  "@ + p
    }
}

/// What the module shows for the three DMI files' contents (`None` for a
/// file that could not be read): nothing without a vendor, else the trimmed
/// vendor, version and date that are not empty, separated by two spaces.
pub open spec fn bios_text(vendor: Option<Seq<char>>, version: Option<Seq<char>>, date: Option<
    Seq<char>,
>) -> Option<Seq<char>> {
    match vendor {
        None => None,
        Some(v) => if trim(v).len() == 0 {
            None
        } else {
            let ver = match version {
                Some(x) => trim(x),
                None => Seq::empty(),
            };
            let d = match date {
                Some(x) => trim(x),
                None => Seq::empty(),
            };
            Some(trim(v) + optional_part(ver) + optional_part(d))
        },
    }
}

/// Appends `"  " + p` to `s` when `p` is not empty.
fn push_part(s: &mut String, p: &str)
    ensures
        final(s)@ == old(s)@ + optional_part(p@),
{
    if !p.is_empty() {
        push_str(s, "  ");
        push_str(s, p);
    } else {
        assert(p@.len() == 0);
        assert(old(s)@ + optional_part(p@) == old(s)@);
    }
}

/// The trimmed content of an optional file, empty when it is missing.
fn trimmed_or_empty(o: &Option<String>) -> (r: String)
    ensures
        r@ == match opt_str(*o) {
            Some(x) => trim(x),
            None => Seq::empty(),
        },
{
    match o {
        Some(x) => trim_str(x.as_str()),
        None => String::new(),
    }
}

impl BiosModule {
    /// The module's title.
    pub fn name(&self) -> (r: &'static str)
        ensures
            r == kind_name(ModuleKind::Bios),
    {
        "BIOS"
    }

    /// The BIOS text for the contents of `bios_vendor`, `bios_version` and
    /// `bios_date`.
    pub fn collect(&self, vendor: Option<String>, version: Option<String>, date: Option<String>) -> (r:
        Option<String>)
        ensures
            opt_str(r) == bios_text(opt_str(vendor), opt_str(version), opt_str(date)),
    {
        let v = match &vendor {
            None => {
                return None;
            },
            Some(v) => trim_str(v.as_str()),
        };
        if v.as_str().is_empty() {
            return None;
        }
        let ver = trimmed_or_empty(&version);
        let d = trimmed_or_empty(&date);
        let mut r = v;
        push_part(&mut r, ver.as_str());
        push_part(&mut r, d.as_str());
        Some(r)
    }
}

} // verus!
