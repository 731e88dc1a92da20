//! The public IP module. The application asks a few web services in turn;
//! the library decides whether an answer is an address.

use vstd::prelude::*;
use crate::modules::{ModuleKind, kind_name};
use crate::text::{byte_len, opt_str, trim, trim_str, utf8_len};

verus! {

/// Shows the public IP address.
pub struct PublicIpModule;

/// What an answer gives: the trimmed body when it is not empty and shorter
/// than 50 bytes.
pub open spec fn ip_answer(body: Seq<char>) -> Option<Seq<char>> {
    let t = trim(body);
    if t.len() > 0 && utf8_len(t) < 50 {
        Some(t)
    } else {
        None
    }
}

impl PublicIpModule {
    /// The module's title.
    pub fn name(&self) -> (r: &'static str)
        ensures
            r == kind_name(ModuleKind::PublicIp),
    {
        "Public IP"
    }

    /// The address in a service's answer, if it holds one.
    pub fn accept(&self, body: &str) -> (r: Option<String>)
        ensures
            opt_str(r) == ip_answer(body@),
    {
        let t = trim_str(body);
        if !t.as_str().is_empty() && byte_len(t.as_str()) < 50 {
            Some(t)
        } else {
            None
        }
    }
}

} // verus!
