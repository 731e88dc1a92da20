//! The battery module: the first battery's charge and status.

use vstd::prelude::*;
use crate::modules::{ModuleKind, kind_name};
use crate::text::{concat3, first_some, has_prefix, opt_str, push_str, starts_with, trim, trim_str};

verus! {

/// Shows the charge of the first battery.
pub struct BatteryModule;

/// One entry of `/sys/class/power_supply`: its name and the contents of its
/// `capacity` and `status` files (`None` for a file that could not be read).
pub struct PowerSupply {
    pub name: String,
    pub capacity: Option<String>,
    pub status: Option<String>,
}

/// What a power supply contributes: for a `BAT*` entry with a non-blank
/// capacity, `"NAME CAP%"` followed by `"  [STATUS]"` when the status is not
/// blank.
pub open spec fn battery_entry(name: Seq<char>, capacity: Option<Seq<char>>, status: Option<
    Seq<char>,
>) -> Option<Seq<char>> {
    if !has_prefix(name, "BAT"@) {
        None
    } else {
        match capacity {
            None => None,
            Some(c) => if trim(c).len() == 0 {
                None
            } else {
                let st = match status {
                    Some(s) => trim(s),
                    None => Seq::empty(),
                };
                if st.len() == 0 {
                    Some(name + " "@ + trim(c) + "%"@)
                } else {
                    Some(name + " "@ + trim(c) + "%  ["@ + st + "]"@)
                }
            },
        }
    }
}

/// The entries' contributions, in order.
pub open spec fn battery_entries(es: Seq<PowerSupply>) -> Seq<Option<Seq<char>>> {
    es.map_values(|p: PowerSupply| battery_entry(p.name@, opt_str(p.capacity), opt_str(p.status)))
}

/// What one power supply contributes.
fn battery_line(p: &PowerSupply) -> (r: Option<String>)
    ensures
        opt_str(r) == battery_entry(p.name@, opt_str(p.capacity), opt_str(p.status)),
{
    if !starts_with(p.name.as_str(), "BAT") {
        return None;
    }
    let c = match &p.capacity {
        None => {
            return None;
        },
        Some(c) => trim_str(c.as_str()),
    };
    if c.as_str().is_empty() {
        return None;
    }
    let st = match &p.status {
        Some(s) => trim_str(s.as_str()),
        None => String::new(),
    };
    let mut r = concat3(p.name.as_str(), " ", c.as_str());
    if st.as_str().is_empty() {
        push_str(&mut r, "%");
    } else {
        push_str(&mut r, "%  [");
        push_str(&mut r, st.as_str());
        push_str(&mut r, "]");
    }
    Some(r)
}

/// The first battery's text among the power supplies.
fn first_battery(v: &Vec<PowerSupply>) -> (r: Option<String>)
    ensures
        opt_str(r) == first_some(battery_entries(v@), 0),
{
    let ghost m = battery_entries(v@);
    let mut i: usize = 0;
    while i < v.len()
        invariant
            i <= v.len(),
            m == battery_entries(v@),
            first_some(m, 0) == first_some(m, i as int),
        decreases v.len() - i,
    {
        match battery_line(&v[i]) {
            Some(t) => {
                return Some(t);
            },
            None => {},
        }
        i = i + 1;
    }
    None
}

impl BatteryModule {
    /// The module's title.
    pub fn name(&self) -> (r: &'static str)
        ensures
            r == kind_name(ModuleKind::Battery),
    {
        "Battery"
    }

    /// The first battery's text among the power supplies (`None` when the
    /// directory could not be read).
    pub fn collect(&self, supplies: &Option<Vec<PowerSupply>>) -> (r: Option<String>)
        ensures
            match supplies {
                None => r is None,
                Some(v) => opt_str(r) == first_some(battery_entries(v@), 0),
            },
    {
        match supplies {
            None => None,
            Some(v) => first_battery(v),
        }
    }
}

} // verus!
