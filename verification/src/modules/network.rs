//! The network module: bytes received and sent by up to three interfaces.

use vstd::prelude::*;
use crate::modules::{ModuleKind, kind_name};
use crate::modules::ram::{GIB, MIB};
use crate::num::{fixed, fixed_text};
use crate::text::{
    concat3, has_prefix, join, join_seq, lemma_views_push, opt_str, push_str, starts_with, str_eq,
    views,
};

verus! {

/// Shows network traffic.
pub struct NetworkModule;

/// An interface and its received and transmitted byte totals.
pub struct NetInfo {
    pub name: String,
    pub received: u64,
    pub transmitted: u64,
}

/// A byte count as shown for traffic: `G` and `M` with one decimal, else
/// whole `K`.
pub open spec fn net_bytes_text(bytes: nat) -> Seq<char> {
    if bytes >= GIB {
        fixed_text(bytes, GIB as nat, 1) + "G"@
    } else if bytes >= MIB {
        fixed_text(bytes, MIB as nat, 1) + "M"@
    } else {
        fixed_text(bytes, 1024, 0) + "K"@
    }
}

/// Interfaces that are not shown: loopback, Docker and bridges.
pub open spec fn hidden_iface(name: Seq<char>) -> bool {
    name == "lo"@ || has_prefix(name, "docker"@) || has_prefix(name, "br-"@)
}

/// An interface's text: `"NAME: ↓RX ↑TX"`.
pub open spec fn iface_text(n: NetInfo) -> Seq<char> {
    n.name@ + ": ↓"@ + net_bytes_text(n.received as nat) + " ↑"@ + net_bytes_text(n.transmitted as nat)
}

/// The texts of the shown interfaces among the first ones, up to three.
pub open spec fn shown_ifaces(ns: Seq<NetInfo>) -> Seq<Seq<char>>
    decreases ns.len(),
{
    if ns.len() == 0 {
        Seq::empty()
    } else {
        let prev = shown_ifaces(ns.drop_last());
        if prev.len() >= 3 || hidden_iface(ns.last().name@) {
            prev
        } else {
            prev.push(iface_text(ns.last()))
        }
    }
}

/// What the module shows for the interfaces, in the order they were
/// listed.
pub open spec fn network_text(ns: Seq<NetInfo>) -> Option<Seq<char>> {
    if shown_ifaces(ns).len() == 0 {
        None
    } else {
        Some(join_seq(shown_ifaces(ns), "  |  "@))
    }
}

/// A byte count as shown for traffic.
pub fn fmt_bytes(bytes: u64) -> (r: String)
    ensures
        r@ == net_bytes_text(bytes as nat),
{
    if bytes >= GIB {
        let mut r = fixed(bytes as u128, GIB as u128, 1);
        push_str(&mut r, "G");
        r
    } else if bytes >= MIB {
        let mut r = fixed(bytes as u128, MIB as u128, 1);
        push_str(&mut r, "M");
        r
    } else {
        let mut r = fixed(bytes as u128, 1024, 0);
        push_str(&mut r, "K");
        r
    }
}

impl NetworkModule {
    /// The module's title.
    pub fn name(&self) -> (r: &'static str)
        ensures
            r == kind_name(ModuleKind::Network),
    {
        "Network"
    }

    /// The traffic text for the interfaces.
    pub fn collect(&self, ifaces: &Vec<NetInfo>) -> (r: Option<String>)
        ensures
            opt_str(r) == network_text(ifaces@),
    {
        let mut parts: Vec<String> = Vec::new();
        let mut i: usize = 0;
        while i < ifaces.len() && parts.len() < 3
            invariant
                i <= ifaces.len(),
                views(parts@) == shown_ifaces(ifaces@.take(i as int)),
            decreases ifaces.len() - i,
        {
            assert(ifaces@.take(i + 1).drop_last() =~= ifaces@.take(i as int));
            let n = &ifaces[i];
            let nm = n.name.as_str();
            if !(str_eq(nm, "lo") || starts_with(nm, "docker") || starts_with(nm, "br-")) {
                let mut t = concat3(nm, ": ↓", fmt_bytes(n.received).as_str());
                push_str(&mut t, " ↑");
                push_str(&mut t, fmt_bytes(n.transmitted).as_str());
                proof {
                    lemma_views_push(parts@, t);
                }
                parts.push(t);
            }
            i = i + 1;
        }
        proof {
            if i < ifaces.len() {
                lemma_shown_stays(ifaces@, i as int, ifaces.len() as int);
            }
        }
        assert(ifaces@.take(ifaces.len() as int) =~= ifaces@);
        if parts.len() == 0 {
            None
        } else {
            Some(join(&parts, "  |  "))
        }
    }
}

/// Once three interfaces are shown, later ones change nothing.
proof fn lemma_shown_stays(ns: Seq<NetInfo>, i: int, j: int)
    requires
        0 <= i <= j <= ns.len(),
        shown_ifaces(ns.take(i)).len() >= 3,
    ensures
        shown_ifaces(ns.take(j)) == shown_ifaces(ns.take(i)),
    decreases j - i,
{
    if j > i {
        lemma_shown_stays(ns, i, j - 1);
        assert(ns.take(j).drop_last() =~= ns.take(j - 1));
    }
}

} // verus!
