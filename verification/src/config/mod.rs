//! What the daemon keeps between two runs, and where it finds the fan
//! control configurations.

use vstd::prelude::*;

use crate::ec_control::ec_rw::EcAccessMode;

pub mod nbfc_control;
pub mod service;

verus! {

/// How the embedded controller is reached.
#[derive(Clone, Copy, Debug, PartialEq, Eq, Structural)]
pub struct Core {
    pub ec_access_mode: EcAccessMode,
}

impl Default for Core {
    fn default() -> (core: Core)
        ensures
            core.ec_access_mode == EcAccessMode::AcpiEC,
    {
        Core { ec_access_mode: EcAccessMode::AcpiEC }
    }
}

/// The fan control configuration in use and the speeds that clients asked
/// for.
#[derive(Clone, Debug, PartialEq)]
pub struct FanConfig {
    pub selected_fan_configuration: String,
    /// Speeds in thousandths of a percent.
    pub target_speeds: Vec<i32>,
}

impl Default for FanConfig {
    fn default() -> (config: FanConfig)
        ensures
            config.selected_fan_configuration@.len() == 0,
            config.target_speeds@.len() == 0,
    {
        FanConfig { selected_fan_configuration: String::new(), target_speeds: Vec::new() }
    }
}

/// The inputs of one sensor that are read.
#[derive(Clone, Debug, PartialEq)]
pub struct SensorFilter {
    pub inputs_filter: Vec<String>,
}

impl Default for SensorFilter {
    fn default() -> (filter: SensorFilter)
        ensures
            filter.inputs_filter@.len() == 0,
    {
        SensorFilter { inputs_filter: Vec::new() }
    }
}

/// The filter of one sensor, under the name of its driver.
#[derive(Clone, Debug, PartialEq)]
pub struct NamedFilter {
    pub name: String,
    pub filter: SensorFilter,
}

/// The sensors that are read.
#[derive(Clone, Debug, PartialEq)]
pub struct Sensors {
    /// The sensors to read; all of them where the list is empty.
    pub only: Vec<NamedFilter>,
}

impl Default for Sensors {
    fn default() -> (sensors: Sensors)
        ensures
            sensors.only@.len() == 0,
    {
        Sensors { only: Vec::new() }
    }
}

impl Sensors {
    /// Whether the sensor of a driver is read: the list names it, or the
    /// list is empty.
    pub open spec fn allows_spec(&self, name: Seq<char>) -> bool {
        self.only@.len() == 0 || exists|i: int|
            0 <= i < self.only@.len() && (#[trigger] self.only@[i]).name@ == name
    }

    /// Tells whether the sensor of a driver is read.
    pub fn allows(&self, name: &str) -> (allowed: bool)
        ensures
            allowed == self.allows_spec(name@),
    {
        if self.only.len() == 0 {
            return true;
        }
        let mut i: usize = 0;
        while i < self.only.len()
            invariant
                i <= self.only@.len(),
                self.only@.len() > 0,
                forall|k: int| 0 <= k < i ==> (#[trigger] self.only@[k]).name@ != name@,
            decreases self.only@.len() - i,
        {
            if crate::nbfc::same_text(self.only[i].name.as_str(), name) {
                return true;
            }
            i += 1;
        }
        false
    }
}

/// The settings of the daemon.
#[derive(Clone, Debug, PartialEq)]
pub struct Config {
    pub core: Core,
    pub fan_config: FanConfig,
    pub sensors: Sensors,
}

impl Default for Config {
    fn default() -> (config: Config)
        ensures
            config.core.ec_access_mode == EcAccessMode::AcpiEC,
            config.fan_config.selected_fan_configuration@.len() == 0,
            config.fan_config.target_speeds@.len() == 0,
            config.sensors.only@.len() == 0,
    {
        Config {
            core: Core { ec_access_mode: EcAccessMode::AcpiEC },
            fan_config: FanConfig {
                selected_fan_configuration: String::new(),
                target_speeds: Vec::new(),
            },
            sensors: Sensors { only: Vec::new() },
        }
    }
}

impl Config {
    /// Takes over what the daemon knows when it ends: the name of the
    /// configuration in use, if there is one, and the speeds that clients
    /// asked for, if there are any.
    pub fn remember(&mut self, fan_config: Option<String>, target_speeds: Vec<i32>)
        ensures
            final(self).core == old(self).core,
            final(self).sensors == old(self).sensors,
            final(self).fan_config.selected_fan_configuration == match fan_config {
                Some(name) => name,
                None => old(self).fan_config.selected_fan_configuration,
            },
            final(self).fan_config.target_speeds == if target_speeds@.len() > 0 {
                target_speeds
            } else {
                old(self).fan_config.target_speeds
            },
    {
        if let Some(name) = fan_config {
            self.fan_config.selected_fan_configuration = name;
        }
        if target_speeds.len() > 0 {
            self.fan_config.target_speeds = target_speeds;
        }
    }
}

} // verus!
