//! The CPU module: model, core count, frequency and load.

use vstd::prelude::*;
use crate::modules::{ModuleKind, kind_name};
use crate::num::{dec, push_dec};
use crate::text::{opt_str, push_str, trim, trim_str};

verus! {

/// Shows the processor.
pub struct CpuModule;

/// What the module shows for the first core's brand, the number of cores,
/// the first core's frequency in MHz and the average load already written
/// with one decimal; nothing without cores.
pub open spec fn cpu_text(brand: Seq<char>, cores: nat, freq: nat, load: Seq<char>) -> Option<Seq<char>> {
    if cores == 0 {
        None
    } else {
        Some(
            trim(brand) + " ("@ + dec(cores) + " cores) @ "@ + dec(freq) + " MHz  ["@ + load
                + "% load]"@,
        )
    }
}

impl CpuModule {
    /// The module's title.
    pub fn name(&self) -> (r: &'static str)
        ensures
            r == kind_name(ModuleKind::Cpu),
    {
        "CPU"
    }

    /// The CPU text.
    pub fn collect(&self, brand: &str, cores: usize, freq: u64, load: &str) -> (r: Option<String>)
        ensures
            opt_str(r) == cpu_text(brand@, cores as nat, freq as nat, load@),
    {
        if cores == 0 {
            return None;
        }
        let mut r = trim_str(brand);
        push_str(&mut r, " (");
        push_dec(&mut r, cores as u128);
        push_str(&mut r, " cores) @ ");
        push_dec(&mut r, freq as u128);
        push_str(&mut r, " MHz  [");
        push_str(&mut r, load);
        push_str(&mut r, "% load]");
        Some(r)
    }
}

} // verus!
