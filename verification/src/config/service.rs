//! The settings of the daemon that are kept between two runs.

use vstd::prelude::*;
use vstd::std_specs::convert::FromSpecImpl;

use crate::ec_control::ec_rw::EcAccessMode;
use crate::nbfc::same_text;
use crate::nbfc_xml::NbfcServiceSettings;

verus! {

/// The way to reach the embedded controller that the settings ask for.
#[derive(Clone, Copy, Debug, PartialEq, Eq, Structural)]
pub enum ECAccessMode {
    /// Through the I/O ports mapped by `/dev/port`.
    RawPort,
    /// Through the module `acpi_ec`.
    AcpiEC,
    /// Through the module `ec_sys` loaded with write support.
    ECSys,
    /// Whichever way is there when the daemon starts.
    Either,
}

/// Which of the three device files exist.
#[derive(Clone, Copy, Debug, PartialEq, Eq, Structural)]
pub struct DevicePresence {
    pub port: bool,
    pub acpi_ec: bool,
    pub ec_sys: bool,
}

impl DevicePresence {
    /// Whether the device file of a mode exists.
    pub open spec fn has(self, mode: EcAccessMode) -> bool {
        match mode {
            EcAccessMode::RawPort => self.port,
            EcAccessMode::AcpiEC => self.acpi_ec,
            EcAccessMode::ECSys => self.ec_sys,
        }
    }

    /// Whether any of the three device files exists.
    pub open spec fn any(self) -> bool {
        self.port || self.acpi_ec || self.ec_sys
    }
}

impl ECAccessMode {
    /// The way that the settings fix, if they fix one.
    pub open spec fn fixed(self) -> Option<EcAccessMode> {
        match self {
            ECAccessMode::RawPort => Some(EcAccessMode::RawPort),
            ECAccessMode::AcpiEC => Some(EcAccessMode::AcpiEC),
            ECAccessMode::ECSys => Some(EcAccessMode::ECSys),
            ECAccessMode::Either => None,
        }
    }

    /// The way that is taken, given which device files exist: the one that
    /// the settings fix, or else the first one in the order `acpi_ec`,
    /// `ec_sys`, ports whose device file exists.
    pub open spec fn resolve_spec(self, present: DevicePresence) -> Option<EcAccessMode> {
        match self.fixed() {
            Some(mode) => Some(mode),
            None => if present.acpi_ec {
                Some(EcAccessMode::AcpiEC)
            } else if present.ec_sys {
                Some(EcAccessMode::ECSys)
            } else if present.port {
                Some(EcAccessMode::RawPort)
            } else {
                None
            },
        }
    }

    /// The settings value that names the device file at `path`.
    pub open spec fn from_path_spec(path: Seq<char>) -> Option<ECAccessMode> {
        if path == EcAccessMode::RawPort.path_spec() {
            Some(ECAccessMode::RawPort)
        } else if path == EcAccessMode::AcpiEC.path_spec() {
            Some(ECAccessMode::AcpiEC)
        } else if path == EcAccessMode::ECSys.path_spec() {
            Some(ECAccessMode::ECSys)
        } else {
            None
        }
    }

    /// Chooses the way that is taken, given which device files exist.
    pub fn resolve(&self, present: &DevicePresence) -> (mode: Option<EcAccessMode>)
        ensures
            mode == self.resolve_spec(*present),
            mode.is_none() <==> (*self == ECAccessMode::Either && !present.any()),
    {
        match self {
            ECAccessMode::RawPort => Some(EcAccessMode::RawPort),
            ECAccessMode::AcpiEC => Some(EcAccessMode::AcpiEC),
            ECAccessMode::ECSys => Some(EcAccessMode::ECSys),
            ECAccessMode::Either => {
                if present.acpi_ec {
                    Some(EcAccessMode::AcpiEC)
                } else if present.ec_sys {
                    Some(EcAccessMode::ECSys)
                } else if present.port {
                    Some(EcAccessMode::RawPort)
                } else {
                    None
                }
            },
        }
    }

    /// Gives the path of the device file that is taken. With `Either`, at
    /// least one of the device files has to exist.
    pub fn to_path(&self, present: &DevicePresence) -> (path: &'static str)
        requires
            *self == ECAccessMode::Either ==> present.any(),
        ensures
            self.resolve_spec(*present).is_some(),
            path@ == self.resolve_spec(*present).unwrap().path_spec(),
    {
        match self.resolve(present) {
            Some(mode) => mode.path(),
            None => "",
        }
    }

    /// Finds the settings value that names a device file.
    pub fn from_path(path: &str) -> (mode: Option<ECAccessMode>)
        ensures
            mode == Self::from_path_spec(path@),
    {
        if same_text(path, EcAccessMode::RawPort.path()) {
            Some(ECAccessMode::RawPort)
        } else if same_text(path, EcAccessMode::AcpiEC.path()) {
            Some(ECAccessMode::AcpiEC)
        } else if same_text(path, EcAccessMode::ECSys.path()) {
            Some(ECAccessMode::ECSys)
        } else {
            None
        }
    }
}

impl Default for ECAccessMode {
    fn default() -> (mode: ECAccessMode)
        ensures
            mode == ECAccessMode::Either,
    {
        ECAccessMode::Either
    }
}

/// Describes how the temperature that drives the fans is computed.
#[derive(Clone, Copy, Debug, PartialEq, Eq, Structural)]
pub enum TempComputeMethod {
    /// The mean of the sensors of the processor.
    CPUOnly,
    /// The mean of all sensors.
    AllSensors,
}

impl Default for TempComputeMethod {
    fn default() -> (method: TempComputeMethod)
        ensures
            method == TempComputeMethod::CPUOnly,
    {
        TempComputeMethod::CPUOnly
    }
}

/// Where the settings of the service are read from.
#[derive(Clone, Copy, Debug, PartialEq, Eq, Structural)]
pub enum SettingsSource {
    /// The settings file of the service itself.
    Own,
    /// The settings document of the NBFC service.
    Nbfc,
}

impl SettingsSource {
    /// The source of the settings, given which of the two files exist: the
    /// file of the service itself where it exists, else the document of the
    /// NBFC service where that exists, else none.
    pub open spec fn pick_spec(own_exists: bool, nbfc_exists: bool) -> Option<SettingsSource> {
        if own_exists {
            Some(SettingsSource::Own)
        } else if nbfc_exists {
            Some(SettingsSource::Nbfc)
        } else {
            None
        }
    }

    /// Chooses the source of the settings.
    pub fn pick(own_exists: bool, nbfc_exists: bool) -> (source: Option<SettingsSource>)
        ensures
            source == Self::pick_spec(own_exists, nbfc_exists),
    {
        if own_exists {
            Some(SettingsSource::Own)
        } else if nbfc_exists {
            Some(SettingsSource::Nbfc)
        } else {
            None
        }
    }
}

/// Stores the service configuration which can be written to the disk.
#[derive(Clone, Debug, PartialEq)]
pub struct ServiceConfig {
    pub ec_access_mode: ECAccessMode,
    pub selected_fan_config: String,
    pub auto: bool,
    /// The speeds that clients asked for, in thousandths of a percent.
    pub target_fans_speeds: Vec<i32>,
    pub temp_compute: TempComputeMethod,
    /// Whether a fan control configuration is checked against the rules
    /// before it is accepted.
    pub check_control_config: bool,
}

/// What a [`ServiceConfig`] holds.
pub struct ServiceConfigView {
    pub ec_access_mode: ECAccessMode,
    pub selected_fan_config: Seq<char>,
    pub auto: bool,
    pub target_fans_speeds: Seq<i32>,
    pub temp_compute: TempComputeMethod,
    pub check_control_config: bool,
}

impl View for ServiceConfig {
    type V = ServiceConfigView;

    open spec fn view(&self) -> ServiceConfigView {
        ServiceConfigView {
            ec_access_mode: self.ec_access_mode,
            selected_fan_config: self.selected_fan_config@,
            auto: self.auto,
            target_fans_speeds: self.target_fans_speeds@,
            temp_compute: self.temp_compute,
            check_control_config: self.check_control_config,
        }
    }
}

impl Default for ServiceConfig {
    /// The settings of a daemon that has never run.
    fn default() -> (config: ServiceConfig)
        ensures
            config@ == (ServiceConfigView {
                ec_access_mode: ECAccessMode::Either,
                selected_fan_config: Seq::empty(),
                auto: false,
                target_fans_speeds: Seq::empty(),
                temp_compute: TempComputeMethod::CPUOnly,
                check_control_config: false,
            }),
    {
        ServiceConfig {
            ec_access_mode: ECAccessMode::Either,
            selected_fan_config: String::new(),
            auto: false,
            target_fans_speeds: Vec::new(),
            temp_compute: TempComputeMethod::CPUOnly,
            check_control_config: false,
        }
    }
}

impl ServiceConfig {
    /// The settings that stand for those of the NBFC service: its
    /// configuration and its target speeds are taken over, everything else
    /// is as in a daemon that has never run, but for the automatic mode,
    /// which is on.
    pub open spec fn of_nbfc(
        selected_config_id: Seq<char>,
        target_fan_speeds: Seq<i32>,
    ) -> ServiceConfigView {
        ServiceConfigView {
            ec_access_mode: ECAccessMode::Either,
            selected_fan_config: selected_config_id,
            auto: true,
            target_fans_speeds: target_fan_speeds,
            temp_compute: TempComputeMethod::CPUOnly,
            check_control_config: false,
        }
    }
}

impl From<NbfcServiceSettings> for ServiceConfig {
    fn from(s: NbfcServiceSettings) -> (config: ServiceConfig)
        ensures
            config@ == ServiceConfig::of_nbfc(s.selected_config_id@, s.target_fan_speeds@),
    {
        ServiceConfig {
            ec_access_mode: ECAccessMode::Either,
            selected_fan_config: s.selected_config_id,
            auto: true,
            target_fans_speeds: s.target_fan_speeds,
            temp_compute: TempComputeMethod::CPUOnly,
            check_control_config: false,
        }
    }
}

impl FromSpecImpl<NbfcServiceSettings> for ServiceConfig {
    open spec fn obeys_from_spec() -> bool {
        true
    }

    open spec fn from_spec(s: NbfcServiceSettings) -> ServiceConfig {
        ServiceConfig {
            ec_access_mode: ECAccessMode::Either,
            selected_fan_config: s.selected_config_id,
            auto: true,
            target_fans_speeds: s.target_fan_speeds,
            temp_compute: TempComputeMethod::CPUOnly,
            check_control_config: false,
        }
    }
}

} // verus!
