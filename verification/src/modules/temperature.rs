//! The temperature module. Readings are decimal numbers the application
//! parses and compares as floating-point values; the library names the
//! sensors.

use vstd::prelude::*;
use crate::modules::{ModuleKind, kind_name};
use crate::text::{has_prefix, opt_str, owned, starts_with, trim, trim_str};

verus! {

/// Shows the hottest sensor's temperature.
pub struct TemperatureModule;

/// A thermal zone's label: the trimmed contents of its `type` file when not
/// blank, else the zone's directory name.
pub open spec fn zone_label_text(zone: Seq<char>, type_file: Option<Seq<char>>) -> Seq<char> {
    match type_file {
        Some(t) if trim(t).len() > 0 => trim(t),
        _ => zone,
    }
}

/// A hardware monitor's chip name: the trimmed contents of its `name` file,
/// or `"sensor"` when it could not be read.
pub open spec fn chip_name_text(name_file: Option<Seq<char>>) -> Seq<char> {
    match name_file {
        Some(n) => trim(n),
        None => "sensor"@,
    }
}

impl TemperatureModule {
    /// The module's title.
    pub fn name(&self) -> (r: &'static str)
        ensures
            r == kind_name(ModuleKind::Temperature),
    {
        "Temperature"
    }

    /// A `/sys/class/thermal` entry is a thermal zone.
    pub fn is_zone(&self, entry: &str) -> (b: bool)
        ensures
            b == has_prefix(entry@, "thermal_zone"@),
    {
        starts_with(entry, "thermal_zone")
    }

    /// A thermal zone's label.
    pub fn zone_label(&self, zone: &str, type_file: &Option<String>) -> (r: String)
        ensures
            r@ == zone_label_text(zone@, opt_str(*type_file)),
    {
        match type_file {
            Some(t) => {
                let tt = trim_str(t.as_str());
                if !tt.as_str().is_empty() {
                    return tt;
                }
            },
            None => {},
        }
        owned(zone)
    }

    /// A hardware monitor's chip name.
    pub fn chip_name(&self, name_file: &Option<String>) -> (r: String)
        ensures
            r@ == chip_name_text(opt_str(*name_file)),
    {
        match name_file {
            Some(n) => trim_str(n.as_str()),
            None => owned("sensor"),
        }
    }

    /// A monitor input's label: the trimmed contents of its `label` file
    /// when not blank, else the chip name.
    pub fn sensor_label(&self, label_file: &Option<String>, chip: &str) -> (r: String)
        ensures
            r@ == zone_label_text(chip@, opt_str(*label_file)),
    {
        self.zone_label(chip, label_file)
    }
}

} // verus!
