//! The load average module. The three averages are floating-point values,
//! formatted by the application; the library gives the module its title.

use vstd::prelude::*;
use crate::modules::{ModuleKind, kind_name};

verus! {

/// Shows the 1, 5 and 15 minute load averages.
pub struct LoadAverageModule;

impl LoadAverageModule {
    /// The module's title.
    pub fn name(&self) -> (r: &'static str)
        ensures
            r == kind_name(ModuleKind::LoadAverage),
    {
        "Load"
    }
}

} // verus!
