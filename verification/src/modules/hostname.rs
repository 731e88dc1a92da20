//! The host name module. The name itself is read from the system by the
//! application; the library gives the module its title.

use vstd::prelude::*;
use crate::modules::{ModuleKind, kind_name};

verus! {

/// Shows the machine's host name.
pub struct HostnameModule;

impl HostnameModule {
    /// The module's title.
    pub fn name(&self) -> (r: &'static str)
        ensures
            r == kind_name(ModuleKind::Hostname),
    {
        "Host"
    }
}

} // verus!
