//! The disk module: used and total space of the root and home filesystems.

use vstd::prelude::*;
use crate::modules::{ModuleKind, kind_name};
use crate::modules::ram::{GIB, MIB};
use crate::num::{fixed, fixed_text};
use crate::text::{
    concat3, has_prefix, join, join_seq, lemma_somes_push, lemma_views_push, opt_str, push_str, somes,
    starts_with, str_eq, views,
};

verus! {

/// Shows disk use.
pub struct DiskModule;

/// A mounted filesystem: its mount point, size and available bytes, and
/// the share of its size in use, in percent with one decimal (a
/// floating-point quotient, formatted by whoever reads the filesystem).
pub struct DiskInfo {
    pub mount: String,
    pub total: u64,
    pub available: u64,
    pub percent: String,
}

/// A byte count as shown for disks: gibibytes with one decimal from one
/// gibibyte on, else whole mebibytes.
pub open spec fn disk_bytes_text(bytes: nat) -> Seq<char> {
    if bytes >= GIB {
        fixed_text(bytes, GIB as nat, 1) + " GiB"@
    } else {
        fixed_text(bytes, MIB as nat, 0) + " MiB"@
    }
}

/// Bytes in use: the size less what is available, floored at zero.
pub open spec fn used_bytes(total: nat, available: nat) -> nat {
    if available >= total {
        0
    } else {
        (total - available) as nat
    }
}

/// What a filesystem contributes: for `/` and mount points under `/home`,
/// `"MOUNT: USED / TOTAL (P%)"`.
pub open spec fn disk_entry(d: DiskInfo) -> Option<Seq<char>> {
    if d.mount@ != "/"@ && !has_prefix(d.mount@, "/home"@) {
        None
    } else {
        let used = used_bytes(d.total as nat, d.available as nat);
        Some(
            d.mount@ + ": "@ + disk_bytes_text(used) + " / "@ + disk_bytes_text(d.total as nat) + " ("@
                + d.percent@ + "%)"@,
        )
    }
}

/// What the module shows: the entries separated by `"  |  "`, when any.
pub open spec fn disk_text(ds: Seq<DiskInfo>) -> Option<Seq<char>> {
    let parts = somes(ds.map_values(|d: DiskInfo| disk_entry(d)));
    if parts.len() == 0 {
        None
    } else {
        Some(join_seq(parts, "  |  "@))
    }
}

/// A byte count as shown for disks.
pub fn fmt_bytes(bytes: u64) -> (r: String)
    ensures
        r@ == disk_bytes_text(bytes as nat),
{
    if bytes >= GIB {
        let mut r = fixed(bytes as u128, GIB as u128, 1);
        push_str(&mut r, " GiB");
        r
    } else {
        let mut r = fixed(bytes as u128, MIB as u128, 0);
        push_str(&mut r, " MiB");
        r
    }
}

fn entry_text(d: &DiskInfo) -> (r: Option<String>)
    ensures
        opt_str(r) == disk_entry(*d),
{
    if !str_eq(d.mount.as_str(), "/") && !starts_with(d.mount.as_str(), "/home") {
        return None;
    }
    let used = d.total.saturating_sub(d.available);
    let mut r = concat3(d.mount.as_str(), ": ", fmt_bytes(used).as_str());
    push_str(&mut r, " / ");
    push_str(&mut r, fmt_bytes(d.total).as_str());
    push_str(&mut r, " (");
    push_str(&mut r, d.percent.as_str());
    push_str(&mut r, "%)");
    Some(r)
}

impl DiskModule {
    /// The module's title.
    pub fn name(&self) -> (r: &'static str)
        ensures
            r == kind_name(ModuleKind::Disk),
    {
        "Disk"
    }

    /// The disk text for the mounted filesystems.
    pub fn collect(&self, disks: &Vec<DiskInfo>) -> (r: Option<String>)
        ensures
            opt_str(r) == disk_text(disks@),
    {
        let ghost m = disks@.map_values(|d: DiskInfo| disk_entry(d));
        let mut parts: Vec<String> = Vec::new();
        let mut i: usize = 0;
        while i < disks.len()
            invariant
                i <= disks.len(),
                m == disks@.map_values(|d: DiskInfo| disk_entry(d)),
                views(parts@) == somes(m.take(i as int)),
            decreases disks.len() - i,
        {
            let t = entry_text(&disks[i]);
            proof {
                assert(m.take(i + 1) =~= m.take(i as int).push(m[i as int]));
                lemma_somes_push(m.take(i as int), m[i as int]);
            }
            match t {
                Some(s) => {
                    proof {
                        lemma_views_push(parts@, s);
                    }
                    parts.push(s);
                },
                None => {},
            }
            i = i + 1;
        }
        assert(m.take(disks.len() as int) =~= m);
        if parts.len() == 0 {
            None
        } else {
            Some(join(&parts, "  |  "))
        }
    }
}

} // verus!
