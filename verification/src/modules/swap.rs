//! The swap module: used and total swap, or that swap is disabled.

use vstd::prelude::*;
use crate::modules::{ModuleKind, kind_name};
use crate::modules::ram::{fmt_usage, usage_text};
use crate::text::{opt_str, owned};

verus! {

/// Shows swap use.
pub struct SwapModule;

/// What the module shows: `"disabled"` without swap, else the usage with
/// the share in use as given.
pub open spec fn swap_text(used: nat, total: nat, percent: Seq<char>) -> Seq<char> {
    if total == 0 {
        "disabled"@
    } else {
        usage_text(used, total, percent)
    }
}

impl SwapModule {
    /// The module's title.
    pub fn name(&self) -> (r: &'static str)
        ensures
            r == kind_name(ModuleKind::Swap),
    {
        "Swap"
    }

    /// The swap text for the used and total bytes and the share in use, in
    /// percent with one decimal (a floating-point quotient, formatted by the
    /// caller; not shown without swap).
    pub fn collect(&self, used: u64, total: u64, percent: &str) -> (r: Option<String>)
        ensures
            opt_str(r) == Some(swap_text(used as nat, total as nat, percent@)),
    {
        if total == 0 {
            Some(owned("disabled"))
        } else {
            Some(fmt_usage(used, total, percent))
        }
    }
}

} // verus!
