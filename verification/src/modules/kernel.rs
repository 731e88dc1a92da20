//! The kernel module. The kernel version is read from the system by the
//! application; the library gives the module its title.

use vstd::prelude::*;
use crate::modules::{ModuleKind, kind_name};

verus! {

/// Shows the running kernel's version.
pub struct KernelModule;

impl KernelModule {
    /// The module's title.
    pub fn name(&self) -> (r: &'static str)
        ensures
            r == kind_name(ModuleKind::Kernel),
    {
        "Kernel"
    }
}

} // verus!
