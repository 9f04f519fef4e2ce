//! The thermal zones of the board and where their sensors are found.

use crate::text::{chars_of, spells};
use vstd::prelude::*;

verus! {

/// A temperature sensor of the board. The set is closed: a zone is one of
/// these six, and each has its own index in the thermal sysfs tree.
#[derive(Clone, Copy, Debug, PartialEq, Eq, Structural)]
pub enum ThermalZone {
    A0,
    CPU,
    GPU,
    PLL,
    PMIC,
    FAN,
}

/// What every sensor path starts with, up to the zone's index.
pub open spec fn sensor_path_prefix() -> Seq<char> {
    "/sys/devices/virtual/thermal/thermal_zone"@
}

/// What every sensor path ends with, after the zone's index.
pub open spec fn sensor_path_suffix() -> Seq<char> {
    "/temp"@
}

impl ThermalZone {
    /// The zone's index in the thermal sysfs tree.
    pub open spec fn spec_index(self) -> int {
        match self {
            ThermalZone::A0 => 0,
            ThermalZone::CPU => 1,
            ThermalZone::GPU => 2,
            ThermalZone::PLL => 3,
            ThermalZone::PMIC => 4,
            ThermalZone::FAN => 5,
        }
    }

    /// The name by which a configuration refers to the zone.
    pub open spec fn spec_name(self) -> Seq<char> {
        match self {
            ThermalZone::A0 => "A0"@,
            ThermalZone::CPU => "CPU"@,
            ThermalZone::GPU => "GPU"@,
            ThermalZone::PLL => "PLL"@,
            ThermalZone::PMIC => "PMIC"@,
            ThermalZone::FAN => "FAN"@,
        }
    }

    /// The zone that `name` refers to, if it is the name of one. Names are
    /// matched letter for letter.
    pub open spec fn named(name: Seq<char>) -> Option<ThermalZone> {
        if name == ThermalZone::A0.spec_name() {
            Some(ThermalZone::A0)
        } else if name == ThermalZone::CPU.spec_name() {
            Some(ThermalZone::CPU)
        } else if name == ThermalZone::GPU.spec_name() {
            Some(ThermalZone::GPU)
        } else if name == ThermalZone::PLL.spec_name() {
            Some(ThermalZone::PLL)
        } else if name == ThermalZone::PMIC.spec_name() {
            Some(ThermalZone::PMIC)
        } else if name == ThermalZone::FAN.spec_name() {
            Some(ThermalZone::FAN)
        } else {
            None
        }
    }

    /// The path of the zone's sensor file: the prefix, the index as one
    /// decimal digit, the suffix.
    pub open spec fn spec_sensor_path(self) -> Seq<char> {
        sensor_path_prefix() + seq![(0x30 + self.spec_index()) as char] + sensor_path_suffix()
    }

    /// The zone's index in the thermal sysfs tree.
    pub fn index(self) -> (i: u8)
        ensures
            i == self.spec_index(),
    {
        match self {
            ThermalZone::A0 => 0,
            ThermalZone::CPU => 1,
            ThermalZone::GPU => 2,
            ThermalZone::PLL => 3,
            ThermalZone::PMIC => 4,
            ThermalZone::FAN => 5,
        }
    }

    /// The name by which a configuration refers to the zone.
    pub fn name(self) -> (s: &'static str)
        ensures
            s@ == self.spec_name(),
    {
        match self {
            ThermalZone::A0 => "A0",
            ThermalZone::CPU => "CPU",
            ThermalZone::GPU => "GPU",
            ThermalZone::PLL => "PLL",
            ThermalZone::PMIC => "PMIC",
            ThermalZone::FAN => "FAN",
        }
    }

    /// Finds the zone that `name` refers to; `None` for any other text.
    pub fn from_name(name: &str) -> (zone: Option<ThermalZone>)
        ensures
            zone == ThermalZone::named(name@),
    {
        let chars = chars_of(name);
        if spells(chars.as_slice(), "A0") {
            Some(ThermalZone::A0)
        } else if spells(chars.as_slice(), "CPU") {
            Some(ThermalZone::CPU)
        } else if spells(chars.as_slice(), "GPU") {
            Some(ThermalZone::GPU)
        } else if spells(chars.as_slice(), "PLL") {
            Some(ThermalZone::PLL)
        } else if spells(chars.as_slice(), "PMIC") {
            Some(ThermalZone::PMIC)
        } else if spells(chars.as_slice(), "FAN") {
            Some(ThermalZone::FAN)
        } else {
            None
        }
    }

    /// The path of the zone's sensor file.
    pub fn sensor_path(self) -> (path: String)
        ensures
            path@ == self.spec_sensor_path(),
    {
        let mut path = String::from_str("/sys/devices/virtual/thermal/thermal_zone");
        let digit: &str = match self {
            ThermalZone::A0 => "0",
            ThermalZone::CPU => "1",
            ThermalZone::GPU => "2",
            ThermalZone::PLL => "3",
            ThermalZone::PMIC => "4",
            ThermalZone::FAN => "5",
        };
        proof {
            reveal_strlit("0");
            reveal_strlit("1");
            reveal_strlit("2");
            reveal_strlit("3");
            reveal_strlit("4");
            reveal_strlit("5");
        }
        path.append(digit);
        path.append("/temp");
        path
    }
}

/// Every zone is found again by its name, so no two zones share one.
pub proof fn lemma_zone_found_by_name(zone: ThermalZone)
    ensures
        ThermalZone::named(zone.spec_name()) == Some(zone),
{
    reveal_strlit("A0");
    reveal_strlit("CPU");
    reveal_strlit("GPU");
    reveal_strlit("PLL");
    reveal_strlit("PMIC");
    reveal_strlit("FAN");
    assert("A0"@.len() == 2 && "PMIC"@.len() == 4);
    assert("CPU"@[0] == 'C' && "GPU"@[0] == 'G' && "PLL"@[0] == 'P' && "FAN"@[0] == 'F');
}

} // verus!
