//! The OS module: the VamoraOS pretty name, Android's version, or the
//! distribution name and version, with the architecture.

use vstd::prelude::*;
use crate::modules::{ModuleKind, kind_name};
use crate::modules::android::or_empty;
use crate::modules::vamora_os::{vmf_field, vmf_field_of};
use crate::text::{concat3, opt_str, owned, push_str};

verus! {

/// Shows the operating system.
pub struct OsModule;

/// What the module reads (`None` where a value is unknown).
pub struct OsSources {
    /// The CPU architecture.
    pub arch: Option<String>,
    /// Contents of the VamoraOS release file.
    pub release: Option<String>,
    /// The system looks like Android.
    pub android: bool,
    /// The `ro.build.version.release` property.
    pub android_release: Option<String>,
    /// The distribution name.
    pub name: Option<String>,
    /// The distribution version.
    pub version: Option<String>,
}

/// A value, or a default when it is unknown.
pub open spec fn or_default(o: Option<Seq<char>>, dflt: Seq<char>) -> Seq<char> {
    match o {
        Some(s) => s,
        None => dflt,
    }
}

/// What the module shows.
pub open spec fn os_text(src: OsSources) -> Seq<char> {
    let arch = or_default(opt_str(src.arch), "unknown"@);
    match vmf_field(opt_str(src.release), "PRETTY_NAME"@) {
        Some(p) if p.len() > 0 => p + " "@ + arch,
        _ => if src.android {
            "Android "@ + or_default(opt_str(src.android_release), "?"@) + " "@ + arch
        } else {
            let name = or_default(opt_str(src.name), "Unknown"@);
            let version = or_empty(opt_str(src.version));
            if version.len() == 0 {
                name + " "@ + arch
            } else {
                name + " "@ + version + " "@ + arch
            }
        },
    }
}

fn value_or(o: &Option<String>, dflt: &str) -> (r: String)
    ensures
        r@ == or_default(opt_str(*o), dflt@),
{
    match o {
        Some(s) => s.clone(),
        None => owned(dflt),
    }
}

impl OsModule {
    /// The module's title.
    pub fn name(&self) -> (r: &'static str)
        ensures
            r == kind_name(ModuleKind::Os),
    {
        "OS"
    }

    /// The OS text.
    pub fn collect(&self, src: &OsSources) -> (r: Option<String>)
        ensures
            opt_str(r) == Some(os_text(*src)),
    {
        let arch = value_or(&src.arch, "unknown");
        match vmf_field_of(&src.release, "PRETTY_NAME") {
            Some(p) => if !p.as_str().is_empty() {
                return Some(concat3(p.as_str(), " ", arch.as_str()));
            },
            None => {},
        }
        if src.android {
            let ver = value_or(&src.android_release, "?");
            let mut r = concat3("Android ", ver.as_str(), " ");
            push_str(&mut r, arch.as_str());
            return Some(r);
        }
        let name = value_or(&src.name, "Unknown");
        let version = value_or(&src.version, "");
        proof {
            reveal_strlit("");
        }
        if version.as_str().is_empty() {
            Some(concat3(name.as_str(), " ", arch.as_str()))
        } else {
            let mut r = concat3(name.as_str(), " ", version.as_str());
            push_str(&mut r, " ");
            push_str(&mut r, arch.as_str());
            Some(r)
        }
    }
}

} // verus!
