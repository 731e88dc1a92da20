//! The RAM module: used and total memory with the share in use.

use vstd::prelude::*;
use crate::modules::{ModuleKind, kind_name};
use crate::num::{fixed, fixed_text};
use crate::text::{opt_str, push_str};

verus! {

/// Shows memory use.
pub struct RamModule;

/// Bytes in a gibibyte.
pub const GIB: u64 = 1073741824;

/// Bytes in a mebibyte.
pub const MIB: u64 = 1048576;

/// A byte count as shown for memory: gibibytes with two decimals from one
/// gibibyte on, else whole mebibytes.
pub open spec fn mem_bytes_text(bytes: nat) -> Seq<char> {
    if bytes >= GIB {
        fixed_text(bytes, GIB as nat, 2) + " GiB"@
    } else {
        fixed_text(bytes, MIB as nat, 0) + " MiB"@
    }
}

/// `"USED / TOTAL (P%)"`, with the share in use `P` as given.
pub open spec fn usage_text(used: nat, total: nat, percent: Seq<char>) -> Seq<char> {
    mem_bytes_text(used) + " / "@ + mem_bytes_text(total) + " ("@ + percent + "%)"@
}

/// A byte count as shown for memory.
pub fn fmt_bytes(bytes: u64) -> (r: String)
    ensures
        r@ == mem_bytes_text(bytes as nat),
{
    if bytes >= GIB {
        let mut r = fixed(bytes as u128, GIB as u128, 2);
        push_str(&mut r, " GiB");
        r
    } else {
        let mut r = fixed(bytes as u128, MIB as u128, 0);
        push_str(&mut r, " MiB");
        r
    }
}

/// `"USED / TOTAL (P%)"`, with the share in use as given.
pub fn fmt_usage(used: u64, total: u64, percent: &str) -> (r: String)
    ensures
        r@ == usage_text(used as nat, total as nat, percent@),
{
    let mut r = fmt_bytes(used);
    push_str(&mut r, " / ");
    push_str(&mut r, fmt_bytes(total).as_str());
    push_str(&mut r, " (");
    push_str(&mut r, percent);
    push_str(&mut r, "%)");
    r
}

impl RamModule {
    /// The module's title.
    pub fn name(&self) -> (r: &'static str)
        ensures
            r == kind_name(ModuleKind::Ram),
    {
        "RAM"
    }

    /// The memory text for the used and total bytes and the share in use,
    /// in percent with one decimal (a floating-point quotient, formatted by
    /// the caller).
    pub fn collect(&self, used: u64, total: u64, percent: &str) -> (r: Option<String>)
        ensures
            opt_str(r) == Some(usage_text(used as nat, total as nat, percent@)),
    {
        Some(fmt_usage(used, total, percent))
    }
}

} // verus!
