//! The Android modules: SDK level and security patch, and the device name,
//! from Android system properties.

use vstd::prelude::*;
use crate::modules::{ModuleKind, kind_name};
use crate::text::{concat3, nonempty_trimmed, opt_str, owned, push_str, str_eq, trimmed_nonempty};

verus! {

/// Shows the Android SDK level and security patch.
pub struct AndroidVersionModule;

/// Shows the Android device's brand, model and code name.
pub struct AndroidDeviceModule;

/// A property's value as `getprop` prints it: the trimmed output, when it is
/// not empty.
pub fn getprop_value(output: &str) -> (r: Option<String>)
    ensures
        opt_str(r) == nonempty_trimmed(output@),
{
    trimmed_nonempty(output)
}

/// A missing property reads as empty text.
pub open spec fn or_empty(o: Option<Seq<char>>) -> Seq<char> {
    match o {
        Some(s) => s,
        None => Seq::empty(),
    }
}

/// What the version module shows for the SDK and patch properties.
pub open spec fn android_version_text(android: bool, sdk: Seq<char>, patch: Seq<char>) -> Option<
    Seq<char>,
> {
    if !android {
        None
    } else if sdk.len() > 0 && patch.len() > 0 {
        Some("SDK "@ + sdk + " | Patch "@ + patch)
    } else if sdk.len() > 0 {
        Some("SDK "@ + sdk)
    } else if patch.len() > 0 {
        Some("Patch "@ + patch)
    } else {
        None
    }
}

/// What the device module shows for the brand, model and device properties.
pub open spec fn android_device_text(brand: Seq<char>, model: Seq<char>, device: Seq<char>) -> Seq<
    char,
> {
    let s = if brand.len() == 0 {
        model
    } else {
        brand + " "@ + model
    };
    if device.len() > 0 && device != model {
        s + " ("@ + device + ")"@
    } else {
        s
    }
}

fn unwrap_or_empty(o: Option<String>) -> (r: String)
    ensures
        r@ == or_empty(opt_str(o)),
{
    match o {
        Some(s) => s,
        None => String::new(),
    }
}

impl AndroidVersionModule {
    /// The module's title.
    pub fn name(&self) -> (r: &'static str)
        ensures
            r == kind_name(ModuleKind::AndroidVersion),
    {
        "Android"
    }

    /// The version text, given whether this is Android and the properties
    /// `ro.build.version.sdk` and `ro.build.version.security_patch`.
    pub fn collect(&self, android: bool, sdk: Option<String>, patch: Option<String>) -> (r: Option<
        String,
    >)
        ensures
            opt_str(r) == android_version_text(
                android,
                or_empty(opt_str(sdk)),
                or_empty(opt_str(patch)),
            ),
    {
        if !android {
            return None;
        }
        let s = unwrap_or_empty(sdk);
        let p = unwrap_or_empty(patch);
        if !s.as_str().is_empty() && !p.as_str().is_empty() {
            let mut r = concat3("SDK ", s.as_str(), " | Patch ");
            push_str(&mut r, p.as_str());
            Some(r)
        } else if !s.as_str().is_empty() {
            let mut r = owned("SDK ");
            push_str(&mut r, s.as_str());
            Some(r)
        } else if !p.as_str().is_empty() {
            let mut r = owned("Patch ");
            push_str(&mut r, p.as_str());
            Some(r)
        } else {
            None
        }
    }
}

impl AndroidDeviceModule {
    /// The module's title.
    pub fn name(&self) -> (r: &'static str)
        ensures
            r == kind_name(ModuleKind::AndroidDevice),
    {
        "Device"
    }

    /// The device text, given whether this is Android and the properties
    /// `ro.product.brand`, `ro.product.model` (`"Unknown"` when missing) and
    /// `ro.product.device`.
    pub fn collect(&self, android: bool, brand: Option<String>, model: Option<String>, device: Option<
        String,
    >) -> (r: Option<String>)
        ensures
            !android ==> r is None,
            android ==> opt_str(r) == Some(
                android_device_text(
                    or_empty(opt_str(brand)),
                    match opt_str(model) {
                        Some(m) => m,
                        None => "Unknown"@,
                    },
                    or_empty(opt_str(device)),
                ),
            ),
    {
        if !android {
            return None;
        }
        let b = unwrap_or_empty(brand);
        let m = match model {
            Some(m) => m,
            None => owned("Unknown"),
        };
        let d = unwrap_or_empty(device);
        let mut s = if b.as_str().is_empty() {
            owned(m.as_str())
        } else {
            concat3(b.as_str(), " ", m.as_str())
        };
        if !d.as_str().is_empty() && !str_eq(d.as_str(), m.as_str()) {
            push_str(&mut s, " (");
            push_str(&mut s, d.as_str());
            push_str(&mut s, ")");
        }
        Some(s)
    }
}

} // verus!
