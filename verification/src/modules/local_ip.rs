//! The local IP module: the address the system would use to reach the
//! outside, else the first usable address `hostname -I` lists.

use vstd::prelude::*;
use crate::modules::{ModuleKind, kind_name};
use crate::text::{first_some, has_prefix, opt_str, starts_with, str_eq, words, words_seq};

verus! {

/// Shows the local IP address.
pub struct LocalIpModule;

/// A listed address counts unless it is loopback or link-local.
pub open spec fn usable_ip(w: Seq<char>) -> Option<Seq<char>> {
    if w != "127.0.0.1"@ && !has_prefix(w, "169.254."@) {
        Some(w)
    } else {
        None
    }
}

/// What the module shows for the address of a connected UDP socket and the
/// output of `hostname -I` (`None` where they could not be had).
pub open spec fn local_ip_text(socket_ip: Option<Seq<char>>, listed: Option<Seq<char>>) -> Option<
    Seq<char>,
> {
    match socket_ip {
        Some(ip) if ip != "0.0.0.0"@ => Some(ip),
        _ => match listed {
            Some(out) => first_some(words_seq(out).map_values(|w: Seq<char>| usable_ip(w)), 0),
            None => None,
        },
    }
}

fn first_usable(out: &str) -> (r: Option<String>)
    ensures
        opt_str(r) == first_some(words_seq(out@).map_values(|w: Seq<char>| usable_ip(w)), 0),
{
    let ws = words(out);
    let ghost m = words_seq(out@).map_values(|w: Seq<char>| usable_ip(w));
    let mut i: usize = 0;
    while i < ws.len()
        invariant
            i <= ws.len(),
            crate::text::views(ws@) == words_seq(out@),
            m == words_seq(out@).map_values(|w: Seq<char>| usable_ip(w)),
            first_some(m, 0) == first_some(m, i as int),
        decreases ws.len() - i,
    {
        let w = ws[i].as_str();
        assert(m[i as int] == usable_ip(ws@[i as int]@));
        if !str_eq(w, "127.0.0.1") && !starts_with(w, "169.254.") {
            return Some(ws[i].clone());
        }
        i = i + 1;
    }
    None
}

impl LocalIpModule {
    /// The module's title.
    pub fn name(&self) -> (r: &'static str)
        ensures
            r == kind_name(ModuleKind::LocalIp),
    {
        "Local IP"
    }

    /// The local address, from the socket's address or else from the
    /// output of `hostname -I`.
    pub fn collect(&self, socket_ip: Option<String>, listed: &Option<String>) -> (r: Option<String>)
        ensures
            opt_str(r) == local_ip_text(opt_str(socket_ip), opt_str(*listed)),
    {
        match socket_ip {
            Some(ip) => if !str_eq(ip.as_str(), "0.0.0.0") {
                return Some(ip);
            },
            None => {},
        }
        match listed {
            Some(out) => first_usable(out.as_str()),
            None => None,
        }
    }
}

} // verus!
