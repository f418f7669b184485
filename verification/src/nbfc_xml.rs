//! The shape of the XML documents of NBFC.
//!
//! An XML document wraps each repeated element in an outer element of its
//! own, so a value read from one nests one level deeper than the model of
//! [`crate::nbfc`]. The types here mirror that nesting, `normalized` says
//! which model a document stands for, and the `From` conversions carry a
//! value from one shape to the other.

use vstd::prelude::*;
use vstd::std_specs::convert::FromSpecImpl;

use crate::nbfc::{
    copy_opt_overrides, copy_opt_text, copy_thresholds, default_critic_temp,
    default_poll_interval, default_temperature_thresholds, default_temperature_thresholds_spec,
    opt_overrides, opt_text, register_views, FanConfiguration, FanConfigurationView,
    FanControlConfigV2, FanControlConfigView, FanSpeedPercentageOverride,
    RegisterWriteConfiguration, RegisterWriteConfigurationView, RegisterWriteMode,
    RegisterWriteOccasion, TemperatureThreshold,
};

verus! {

/// The `TemperatureThresholds` element of a fan.
#[derive(Clone, Debug, PartialEq)]
pub struct TemperatureThresholds {
    /// The thresholds of the element; absent where it names none.
    pub temperature_thresholds: Option<Vec<TemperatureThreshold>>,
}

impl Default for TemperatureThresholds {
    /// The element of a fan whose document has none: the default curve.
    fn default() -> (element: TemperatureThresholds)
        ensures
            element.curve() == default_temperature_thresholds_spec(),
    {
        TemperatureThresholds { temperature_thresholds: Some(default_temperature_thresholds()) }
    }
}

impl TemperatureThresholds {
    /// The curve that the element stands for: its thresholds, or the
    /// default curve where it names none.
    pub open spec fn curve(self) -> Seq<TemperatureThreshold> {
        match self.temperature_thresholds {
            Some(list) => list@,
            None => default_temperature_thresholds_spec(),
        }
    }
}

/// The curve that an optional element stands for: the default curve where
/// the element is absent.
pub open spec fn curve_of(element: Option<TemperatureThresholds>) -> Seq<TemperatureThreshold> {
    match element {
        Some(e) => e.curve(),
        None => default_temperature_thresholds_spec(),
    }
}

/// The `FanSpeedPercentageOverrides` element of a fan.
#[derive(Clone, Debug, PartialEq)]
pub struct FanSpeedPercentageOverrides {
    pub fan_speed_percentage_overrides: Option<Vec<FanSpeedPercentageOverride>>,
}

/// A number of a document; zero where the document leaves it out.
pub open spec fn or_zero_u8(value: Option<u8>) -> u8 {
    match value {
        Some(v) => v,
        None => 0,
    }
}

/// A number of a document; zero where the document leaves it out.
pub open spec fn or_zero_u16(value: Option<u16>) -> u16 {
    match value {
        Some(v) => v,
        None => 0,
    }
}

/// A switch of a document; off where the document leaves it out.
pub open spec fn or_false(value: Option<bool>) -> bool {
    match value {
        Some(v) => v,
        None => false,
    }
}

/// Gives a number of a document, or zero.
pub fn u8_or_zero(value: Option<u8>) -> (number: u8)
    ensures
        number == or_zero_u8(value),
{
    match value {
        Some(v) => v,
        None => 0,
    }
}

/// Gives a number of a document, or zero.
pub fn u16_or_zero(value: Option<u16>) -> (number: u16)
    ensures
        number == or_zero_u16(value),
{
    match value {
        Some(v) => v,
        None => 0,
    }
}

/// Gives a switch of a document, or off.
pub fn bool_or_false(value: Option<bool>) -> (switch: bool)
    ensures
        switch == or_false(value),
{
    match value {
        Some(v) => v,
        None => false,
    }
}

/// A `FanConfiguration` element. A field is absent where the document
/// leaves it out.
#[derive(Clone, Debug, PartialEq)]
pub struct XmlFanConfiguration {
    pub read_register: Option<u8>,
    pub write_register: Option<u8>,
    pub min_speed_value: Option<u16>,
    pub max_speed_value: Option<u16>,
    pub independent_read_min_max_values: Option<bool>,
    pub min_speed_value_read: Option<u16>,
    pub max_speed_value_read: Option<u16>,
    pub reset_required: Option<bool>,
    pub fan_speed_reset_value: Option<u16>,
    pub fan_display_name: Option<String>,
    pub temperature_thresholds: Option<TemperatureThresholds>,
    pub fan_speed_percentage_overrides: Option<FanSpeedPercentageOverrides>,
}

impl XmlFanConfiguration {
    /// The overrides of the element: those of the inner list, where both the
    /// outer element and the list are there.
    pub open spec fn overrides(self) -> Option<Seq<FanSpeedPercentageOverride>> {
        match self.fan_speed_percentage_overrides {
            Some(element) => opt_overrides(element.fan_speed_percentage_overrides),
            None => None,
        }
    }

    /// The fan that the element stands for. A number that the element
    /// leaves out is zero, a switch is off, and the curve is the default
    /// curve.
    pub open spec fn normalized(self) -> FanConfigurationView {
        FanConfigurationView {
            read_register: or_zero_u8(self.read_register),
            write_register: or_zero_u8(self.write_register),
            min_speed_value: or_zero_u16(self.min_speed_value),
            max_speed_value: or_zero_u16(self.max_speed_value),
            independent_read_min_max_values: or_false(self.independent_read_min_max_values),
            min_speed_value_read: or_zero_u16(self.min_speed_value_read),
            max_speed_value_read: or_zero_u16(self.max_speed_value_read),
            reset_required: or_false(self.reset_required),
            fan_speed_reset_value: self.fan_speed_reset_value,
            fan_display_name: opt_text(self.fan_display_name),
            temperature_thresholds: curve_of(self.temperature_thresholds),
            fan_speed_percentage_overrides: self.overrides(),
        }
    }

    /// Builds the fan that the element stands for.
    pub fn to_model(&self) -> (fan: FanConfiguration)
        ensures
            fan@ == self.normalized(),
    {
        let overrides = match &self.fan_speed_percentage_overrides {
            Some(element) => copy_opt_overrides(&element.fan_speed_percentage_overrides),
            None => None,
        };
        let thresholds = match &self.temperature_thresholds {
            Some(element) => match &element.temperature_thresholds {
                Some(list) => copy_thresholds(list),
                None => default_temperature_thresholds(),
            },
            None => default_temperature_thresholds(),
        };
        FanConfiguration {
            read_register: u8_or_zero(self.read_register),
            write_register: u8_or_zero(self.write_register),
            min_speed_value: u16_or_zero(self.min_speed_value),
            max_speed_value: u16_or_zero(self.max_speed_value),
            independent_read_min_max_values: bool_or_false(self.independent_read_min_max_values),
            min_speed_value_read: u16_or_zero(self.min_speed_value_read),
            max_speed_value_read: u16_or_zero(self.max_speed_value_read),
            reset_required: bool_or_false(self.reset_required),
            fan_speed_reset_value: self.fan_speed_reset_value,
            fan_display_name: copy_opt_text(&self.fan_display_name),
            temperature_thresholds: thresholds,
            fan_speed_percentage_overrides: overrides,
        }
    }

    /// Builds the element that stands for a fan. Every field is written
    /// out; a fan without overrides gets no `FanSpeedPercentageOverrides`
    /// element.
    pub fn of_model(fan: &FanConfiguration) -> (element: XmlFanConfiguration)
        ensures
            element.normalized() == fan@,
    {
        let overrides = match &fan.fan_speed_percentage_overrides {
            Some(list) => Some(
                FanSpeedPercentageOverrides {
                    fan_speed_percentage_overrides: copy_opt_overrides(
                        &fan.fan_speed_percentage_overrides,
                    ),
                },
            ),
            None => None,
        };
        XmlFanConfiguration {
            read_register: Some(fan.read_register),
            write_register: Some(fan.write_register),
            min_speed_value: Some(fan.min_speed_value),
            max_speed_value: Some(fan.max_speed_value),
            independent_read_min_max_values: Some(fan.independent_read_min_max_values),
            min_speed_value_read: Some(fan.min_speed_value_read),
            max_speed_value_read: Some(fan.max_speed_value_read),
            reset_required: Some(fan.reset_required),
            fan_speed_reset_value: fan.fan_speed_reset_value,
            fan_display_name: copy_opt_text(&fan.fan_display_name),
            temperature_thresholds: Some(
                TemperatureThresholds {
                    temperature_thresholds: Some(copy_thresholds(&fan.temperature_thresholds)),
                },
            ),
            fan_speed_percentage_overrides: overrides,
        }
    }
}

impl From<FanConfiguration> for XmlFanConfiguration {
    fn from(f: FanConfiguration) -> (element: XmlFanConfiguration)
        ensures
            element.normalized() == f@,
    {
        XmlFanConfiguration::of_model(&f)
    }
}

impl FromSpecImpl<FanConfiguration> for XmlFanConfiguration {
    open spec fn obeys_from_spec() -> bool {
        false
    }

    open spec fn from_spec(f: FanConfiguration) -> XmlFanConfiguration {
        arbitrary()
    }
}

impl From<XmlFanConfiguration> for FanConfiguration {
    fn from(f: XmlFanConfiguration) -> (fan: FanConfiguration)
        ensures
            fan@ == f.normalized(),
    {
        f.to_model()
    }
}

impl FromSpecImpl<XmlFanConfiguration> for FanConfiguration {
    open spec fn obeys_from_spec() -> bool {
        false
    }

    open spec fn from_spec(f: XmlFanConfiguration) -> FanConfiguration {
        arbitrary()
    }
}

/// The `FanConfigurations` element of a document.
#[derive(Clone, Debug, PartialEq)]
pub struct FanConfigurations {
    pub fan_configurations: Vec<XmlFanConfiguration>,
}

/// A `RegisterWriteConfiguration` element. A field is absent where the
/// document leaves it out. The two write modes of old documents are not
/// kept.
#[derive(Clone, Debug, PartialEq)]
pub struct XmlRegisterWriteConfiguration {
    pub write_occasion: Option<RegisterWriteOccasion>,
    pub register: Option<u8>,
    pub value: Option<u8>,
    pub reset_required: Option<bool>,
    pub reset_value: Option<u8>,
    pub description: Option<String>,
}

impl XmlRegisterWriteConfiguration {
    /// The register write configuration that the element stands for.
    pub open spec fn normalized(self) -> RegisterWriteConfigurationView {
        RegisterWriteConfigurationView {
            write_mode: RegisterWriteMode::Assign,
            write_occasion: self.write_occasion,
            register: or_zero_u8(self.register),
            value: or_zero_u8(self.value),
            reset_required: or_false(self.reset_required),
            reset_value: self.reset_value,
            reset_write_mode: None,
            description: opt_text(self.description),
        }
    }

    /// Builds the register write configuration that the element stands
    /// for.
    pub fn to_model(&self) -> (config: RegisterWriteConfiguration)
        ensures
            config@ == self.normalized(),
    {
        RegisterWriteConfiguration {
            write_mode: RegisterWriteMode::Assign,
            write_occasion: self.write_occasion,
            register: u8_or_zero(self.register),
            value: u8_or_zero(self.value),
            reset_required: bool_or_false(self.reset_required),
            reset_value: self.reset_value,
            reset_write_mode: None,
            description: copy_opt_text(&self.description),
        }
    }

    /// Builds the element that stands for a register write configuration,
    /// but for its write modes.
    pub fn of_model(config: &RegisterWriteConfiguration) -> (element: XmlRegisterWriteConfiguration)
        ensures
            element.normalized() == (RegisterWriteConfigurationView {
                write_mode: RegisterWriteMode::Assign,
                reset_write_mode: None,
                ..config@
            }),
    {
        XmlRegisterWriteConfiguration {
            write_occasion: config.write_occasion,
            register: Some(config.register),
            value: Some(config.value),
            reset_required: Some(config.reset_required),
            reset_value: config.reset_value,
            description: copy_opt_text(&config.description),
        }
    }
}

/// The `RegisterWriteConfigurations` element of a document.
#[derive(Clone, Debug, PartialEq)]
pub struct RegisterWriteConfigurations {
    pub register_write_configurations: Option<Vec<XmlRegisterWriteConfiguration>>,
}

/// A `FanControlConfigV2` document. A field is absent where the document
/// leaves it out.
#[derive(Clone, Debug, PartialEq)]
pub struct XmlFanControlConfigV2 {
    pub notebook_model: String,
    pub author: Option<String>,
    pub ec_poll_interval: Option<u64>,
    pub read_write_words: Option<bool>,
    pub critical_temperature: Option<u8>,
    pub fan_configurations: FanConfigurations,
    pub register_write_configurations: Option<RegisterWriteConfigurations>,
}

/// The fans that a list of elements stands for, in order.
pub open spec fn normalized_fans(list: Seq<XmlFanConfiguration>) -> Seq<FanConfigurationView> {
    Seq::new(list.len(), |i: int| list[i].normalized())
}

/// The register write configurations that a list of elements stands for,
/// in order.
pub open spec fn normalized_registers(list: Seq<XmlRegisterWriteConfiguration>) -> Seq<
    RegisterWriteConfigurationView,
> {
    Seq::new(list.len(), |i: int| list[i].normalized())
}

/// A view in which the two write modes are the ones that every document
/// stands for.
pub open spec fn without_modes(view: RegisterWriteConfigurationView) -> RegisterWriteConfigurationView {
    RegisterWriteConfigurationView {
        write_mode: RegisterWriteMode::Assign,
        reset_write_mode: None,
        ..view
    }
}

impl FanControlConfigView {
    /// The configuration with the write modes of its register write
    /// configurations forgotten: what a document can hold of it.
    pub open spec fn without_modes(self) -> FanControlConfigView {
        FanControlConfigView {
            register_write_configurations: match self.register_write_configurations {
                Some(list) => Some(Seq::new(list.len(), |i: int| without_modes(list[i]))),
                None => None,
            },
            ..self
        }
    }
}

impl XmlFanControlConfigV2 {
    /// The register write configurations that the document stands for;
    /// none where the outer element or the list in it is absent.
    pub open spec fn registers(self) -> Option<Seq<RegisterWriteConfigurationView>> {
        match self.register_write_configurations {
            Some(element) => match element.register_write_configurations {
                Some(list) => Some(normalized_registers(list@)),
                None => None,
            },
            None => None,
        }
    }

    /// The configuration that the document stands for. A document that
    /// names no polling interval stands for one of 100 milliseconds, and
    /// one that names no critical temperature for one of 70 degrees.
    pub open spec fn normalized(self) -> FanControlConfigView {
        FanControlConfigView {
            notebook_model: self.notebook_model@,
            author: opt_text(self.author),
            ec_poll_interval: match self.ec_poll_interval {
                Some(interval) => interval,
                None => 100,
            },
            read_write_words: or_false(self.read_write_words),
            critical_temperature: match self.critical_temperature {
                Some(temperature) => temperature,
                None => 70,
            },
            fan_configurations: normalized_fans(self.fan_configurations.fan_configurations@),
            register_write_configurations: self.registers(),
        }
    }

    /// Builds the configuration that the document stands for.
    pub fn to_model(&self) -> (config: FanControlConfigV2)
        ensures
            config@ == self.normalized(),
    {
        let elements = &self.fan_configurations.fan_configurations;
        let mut fans: Vec<FanConfiguration> = Vec::new();
        let mut i: usize = 0;
        while i < elements.len()
            invariant
                i <= elements.len(),
                fans@.len() == i,
                forall|k: int| 0 <= k < i ==> (#[trigger] fans@[k])@ == elements@[k].normalized(),
            decreases elements.len() - i,
        {
            fans.push(elements[i].to_model());
            i += 1;
        }
        let registers = match &self.register_write_configurations {
            Some(element) => match &element.register_write_configurations {
                Some(list) => {
                    let mut configs: Vec<RegisterWriteConfiguration> = Vec::new();
                    let mut j: usize = 0;
                    while j < list.len()
                        invariant
                            j <= list.len(),
                            configs@.len() == j,
                            forall|k: int|
                                0 <= k < j ==> (#[trigger] configs@[k])@ == list@[k].normalized(),
                        decreases list.len() - j,
                    {
                        configs.push(list[j].to_model());
                        j += 1;
                    }
                    proof {
                        assert(register_views(configs@) =~= normalized_registers(list@));
                    }
                    Some(configs)
                },
                None => None,
            },
            None => None,
        };
        let config = FanControlConfigV2 {
            notebook_model: self.notebook_model.clone(),
            author: copy_opt_text(&self.author),
            ec_poll_interval: match self.ec_poll_interval {
                Some(interval) => interval,
                None => default_poll_interval(),
            },
            read_write_words: bool_or_false(self.read_write_words),
            critical_temperature: match self.critical_temperature {
                Some(temperature) => temperature,
                None => default_critic_temp(),
            },
            fan_configurations: fans,
            register_write_configurations: registers,
        };
        proof {
            assert(config@.fan_configurations =~= self.normalized().fan_configurations);
        }
        config
    }

    /// Builds the document that stands for a configuration. Every field is
    /// written out, but for the write modes of the register write
    /// configurations, for which documents have no place.
    pub fn of_model(config: &FanControlConfigV2) -> (document: XmlFanControlConfigV2)
        ensures
            document.normalized() == config@.without_modes(),
    {
        let fans = &config.fan_configurations;
        let mut elements: Vec<XmlFanConfiguration> = Vec::new();
        let mut i: usize = 0;
        while i < fans.len()
            invariant
                i <= fans.len(),
                elements@.len() == i,
                forall|k: int| 0 <= k < i ==> (#[trigger] elements@[k]).normalized() == fans@[k]@,
            decreases fans.len() - i,
        {
            elements.push(XmlFanConfiguration::of_model(&fans[i]));
            i += 1;
        }
        let registers = match &config.register_write_configurations {
            Some(list) => {
                let mut configs: Vec<XmlRegisterWriteConfiguration> = Vec::new();
                let mut j: usize = 0;
                while j < list.len()
                    invariant
                        j <= list.len(),
                        configs@.len() == j,
                        forall|k: int|
                            0 <= k < j ==> (#[trigger] configs@[k]).normalized() == without_modes(
                                list@[k]@,
                            ),
                    decreases list.len() - j,
                {
                    configs.push(XmlRegisterWriteConfiguration::of_model(&list[j]));
                    j += 1;
                }
                proof {
                    assert(normalized_registers(configs@) =~= Seq::new(
                        list@.len(),
                        |k: int| without_modes(register_views(list@)[k]),
                    ));
                }
                Some(RegisterWriteConfigurations { register_write_configurations: Some(configs) })
            },
            None => None,
        };
        let document = XmlFanControlConfigV2 {
            notebook_model: config.notebook_model.clone(),
            author: copy_opt_text(&config.author),
            ec_poll_interval: Some(config.ec_poll_interval),
            read_write_words: Some(config.read_write_words),
            critical_temperature: Some(config.critical_temperature),
            fan_configurations: FanConfigurations { fan_configurations: elements },
            register_write_configurations: registers,
        };
        proof {
            assert(document.normalized().fan_configurations =~= config@.fan_configurations);
        }
        document
    }
}

impl From<FanControlConfigV2> for XmlFanControlConfigV2 {
    fn from(f: FanControlConfigV2) -> (document: XmlFanControlConfigV2)
        ensures
            document.normalized() == f@.without_modes(),
    {
        XmlFanControlConfigV2::of_model(&f)
    }
}

impl FromSpecImpl<FanControlConfigV2> for XmlFanControlConfigV2 {
    open spec fn obeys_from_spec() -> bool {
        false
    }

    open spec fn from_spec(f: FanControlConfigV2) -> XmlFanControlConfigV2 {
        arbitrary()
    }
}

impl From<XmlFanControlConfigV2> for FanControlConfigV2 {
    fn from(f: XmlFanControlConfigV2) -> (config: FanControlConfigV2)
        ensures
            config@ == f.normalized(),
    {
        f.to_model()
    }
}

impl FromSpecImpl<XmlFanControlConfigV2> for FanControlConfigV2 {
    open spec fn obeys_from_spec() -> bool {
        false
    }

    open spec fn from_spec(f: XmlFanControlConfigV2) -> FanControlConfigV2 {
        arbitrary()
    }
}

/// A configuration that comes from a document has the write modes that
/// every document stands for.
pub proof fn lemma_documents_hold_no_modes(document: XmlFanControlConfigV2)
    ensures
        document.normalized().without_modes() == document.normalized(),
{
    match document.normalized().register_write_configurations {
        Some(list) => {
            assert(document.normalized().without_modes().register_write_configurations.unwrap()
                =~= list);
        },
        None => {},
    }
}

/// Reading a document, writing the configuration out and reading it again
/// gives a configuration that holds what the first one held; each fan has
/// the thresholds that it had, with their bounds and their speeds.
///
/// `config` is what `first` stands for, `second` is a document written for
/// `config`, and `back` is what `second` stands for.
pub proof fn lemma_document_round_trip(
    first: XmlFanControlConfigV2,
    config: FanControlConfigV2,
    second: XmlFanControlConfigV2,
    back: FanControlConfigV2,
)
    requires
        config@ == first.normalized(),
        second.normalized() == config@.without_modes(),
        back@ == second.normalized(),
    ensures
        back@ == config@,
        back.fan_configurations@.len() == config.fan_configurations@.len(),
        forall|i: int|
            0 <= i < config.fan_configurations@.len() ==> (
            #[trigger] back.fan_configurations@[i]).temperature_thresholds@
                == config.fan_configurations@[i].temperature_thresholds@,
{
    lemma_documents_hold_no_modes(first);
    assert(back@.fan_configurations.len() == back.fan_configurations@.len());
    assert(config@.fan_configurations.len() == config.fan_configurations@.len());
    assert forall|i: int| 0 <= i < config.fan_configurations@.len() implies (
    #[trigger] back.fan_configurations@[i]).temperature_thresholds@
        == config.fan_configurations@[i].temperature_thresholds@ by {
        assert(back@.fan_configurations[i] == back.fan_configurations@[i]@);
        assert(config@.fan_configurations[i] == config.fan_configurations@[i]@);
    }
}

/// A configuration survives the way through the document shape and back,
/// but for the write modes, for which documents have no place.
pub proof fn lemma_xml_shape_round_trip(
    config: FanControlConfigV2,
    document: XmlFanControlConfigV2,
    back: FanControlConfigV2,
)
    requires
        document.normalized() == config@.without_modes(),
        back@ == document.normalized(),
    ensures
        back@ == config@.without_modes(),
{
}

/// The `TargetFanSpeeds` element of the settings of the NBFC service.
#[derive(Clone, Debug, PartialEq)]
pub struct TargetFanSpeeds {
    /// Speeds in thousandths of a percent.
    pub target_fan_speeds: Vec<i32>,
}

/// The settings document of the NBFC service.
#[derive(Clone, Debug, PartialEq)]
pub struct XmlNbfcServiceSettings {
    pub settings_version: usize,
    pub selected_config_id: String,
    pub autostart: bool,
    pub read_only: bool,
    pub target_fan_speeds: TargetFanSpeeds,
}

/// The settings of the NBFC service.
#[derive(Clone, Debug, PartialEq)]
pub struct NbfcServiceSettings {
    pub settings_version: usize,
    pub selected_config_id: String,
    pub autostart: bool,
    pub read_only: bool,
    /// Speeds in thousandths of a percent.
    pub target_fan_speeds: Vec<i32>,
}

impl From<NbfcServiceSettings> for XmlNbfcServiceSettings {
    fn from(s: NbfcServiceSettings) -> (document: XmlNbfcServiceSettings) {
        XmlNbfcServiceSettings {
            settings_version: s.settings_version,
            selected_config_id: s.selected_config_id,
            autostart: s.autostart,
            read_only: s.read_only,
            target_fan_speeds: TargetFanSpeeds { target_fan_speeds: s.target_fan_speeds },
        }
    }
}

impl FromSpecImpl<NbfcServiceSettings> for XmlNbfcServiceSettings {
    open spec fn obeys_from_spec() -> bool {
        true
    }

    open spec fn from_spec(s: NbfcServiceSettings) -> XmlNbfcServiceSettings {
        XmlNbfcServiceSettings {
            settings_version: s.settings_version,
            selected_config_id: s.selected_config_id,
            autostart: s.autostart,
            read_only: s.read_only,
            target_fan_speeds: TargetFanSpeeds { target_fan_speeds: s.target_fan_speeds },
        }
    }
}

impl From<XmlNbfcServiceSettings> for NbfcServiceSettings {
    fn from(s: XmlNbfcServiceSettings) -> (settings: NbfcServiceSettings) {
        NbfcServiceSettings {
            settings_version: s.settings_version,
            selected_config_id: s.selected_config_id,
            autostart: s.autostart,
            read_only: s.read_only,
            target_fan_speeds: s.target_fan_speeds.target_fan_speeds,
        }
    }
}

impl FromSpecImpl<XmlNbfcServiceSettings> for NbfcServiceSettings {
    open spec fn obeys_from_spec() -> bool {
        true
    }

    open spec fn from_spec(s: XmlNbfcServiceSettings) -> NbfcServiceSettings {
        NbfcServiceSettings {
            settings_version: s.settings_version,
            selected_config_id: s.selected_config_id,
            autostart: s.autostart,
            read_only: s.read_only,
            target_fan_speeds: s.target_fan_speeds.target_fan_speeds,
        }
    }
}

} // verus!
