//! The fan control configuration of one notebook model.
//!
//! A configuration exists in two shapes. [`FanControlConfigV2`] is the model
//! that the rest of the crate works on. [`XmlFanControlConfigV2`] mirrors the
//! XML documents of NBFC, which wrap every repeated element in an outer
//! element of its own. The `From` conversions between the two are the
//! normalising transform; turning text into either shape is left to the
//! caller.

use vstd::prelude::*;
use vstd::std_specs::cmp::PartialEqSpecImpl;
use vstd::string::StringExecFns;

use crate::units::FULL_SPEED;

verus! {

/// Compares two string slices character by character.
pub fn same_text(a: &str, b: &str) -> (same: bool)
    ensures
        same == (a@ == b@),
{
    let left = String::from_str(a);
    let right = String::from_str(b);
    left == right
}

/// How a register value is combined with what the register holds. Kept for
/// old documents; every write sets the whole register.
#[derive(Clone, Copy, Debug, PartialEq, Eq, Structural)]
pub enum RegisterWriteMode {
    /// Named `Set` in documents.
    Assign,
    And,
    Or,
}

impl RegisterWriteMode {
    /// The mode that a document names, if it names one.
    pub open spec fn parse_spec(name: Seq<char>) -> Option<RegisterWriteMode> {
        if name == "Set"@ {
            Some(RegisterWriteMode::Assign)
        } else if name == "And"@ {
            Some(RegisterWriteMode::And)
        } else if name == "Or"@ {
            Some(RegisterWriteMode::Or)
        } else {
            None
        }
    }

    /// Reads a mode from its name in a document: `Set`, `And` or `Or`.
    pub fn parse(name: &str) -> (mode: Option<RegisterWriteMode>)
        ensures
            mode == Self::parse_spec(name@),
    {
        if same_text(name, "Set") {
            Some(RegisterWriteMode::Assign)
        } else if same_text(name, "And") {
            Some(RegisterWriteMode::And)
        } else if same_text(name, "Or") {
            Some(RegisterWriteMode::Or)
        } else {
            None
        }
    }
}

impl Default for RegisterWriteMode {
    fn default() -> (mode: Self)
        ensures
            mode == RegisterWriteMode::Assign,
    {
        RegisterWriteMode::Assign
    }
}

/// When a register write configuration is applied.
#[derive(Clone, Copy, Debug, PartialEq, Eq, Structural)]
pub enum RegisterWriteOccasion {
    /// Before every write of a fan speed.
    OnWriteFanSpeed,
    /// Once, when a configuration is installed.
    OnInitialization,
}

impl RegisterWriteOccasion {
    /// The occasion that a document names, if it names one.
    pub open spec fn parse_spec(name: Seq<char>) -> Option<RegisterWriteOccasion> {
        if name == "OnWriteFanSpeed"@ {
            Some(RegisterWriteOccasion::OnWriteFanSpeed)
        } else if name == "OnInitialization"@ {
            Some(RegisterWriteOccasion::OnInitialization)
        } else {
            None
        }
    }

    /// Reads an occasion from its name in a document.
    pub fn parse(name: &str) -> (occasion: Option<RegisterWriteOccasion>)
        ensures
            occasion == Self::parse_spec(name@),
    {
        if same_text(name, "OnWriteFanSpeed") {
            Some(RegisterWriteOccasion::OnWriteFanSpeed)
        } else if same_text(name, "OnInitialization") {
            Some(RegisterWriteOccasion::OnInitialization)
        } else {
            None
        }
    }
}

/// The direction in which a speed override applies.
#[derive(Clone, Copy, Debug, PartialEq, Eq, Structural)]
pub enum OverrideTargetOperation {
    Read,
    Write,
    ReadWrite,
}

impl OverrideTargetOperation {
    /// The operation that a document names, if it names one.
    pub open spec fn parse_spec(name: Seq<char>) -> Option<OverrideTargetOperation> {
        if name == "Read"@ {
            Some(OverrideTargetOperation::Read)
        } else if name == "Write"@ {
            Some(OverrideTargetOperation::Write)
        } else if name == "ReadWrite"@ {
            Some(OverrideTargetOperation::ReadWrite)
        } else {
            None
        }
    }

    /// Reads an operation from its name in a document.
    pub fn parse(name: &str) -> (operation: Option<OverrideTargetOperation>)
        ensures
            operation == Self::parse_spec(name@),
    {
        if same_text(name, "Read") {
            Some(OverrideTargetOperation::Read)
        } else if same_text(name, "Write") {
            Some(OverrideTargetOperation::Write)
        } else if same_text(name, "ReadWrite") {
            Some(OverrideTargetOperation::ReadWrite)
        } else {
            None
        }
    }
}

/// One level of a fan curve. The level is entered when the temperature rises
/// to `up_threshold` and left when it falls below `down_threshold`.
///
/// Two thresholds are equal under `==` when their `down_threshold` is the
/// same: that field alone is the key by which thresholds are ordered.
#[derive(Clone, Copy, Debug)]
pub struct TemperatureThreshold {
    pub up_threshold: u8,
    pub down_threshold: u8,
    /// Fan speed of this level, in thousandths of a percent.
    pub fan_speed: i32,
}

impl TemperatureThreshold {
    /// Whether a temperature lies between the two bounds, both included.
    pub open spec fn holds(self, temp: u8) -> bool {
        self.down_threshold <= temp <= self.up_threshold
    }

    /// Whether both thresholds have the same three fields.
    pub open spec fn same_values_spec(self, other: TemperatureThreshold) -> bool {
        self == other
    }

    /// Compares all three fields, unlike `==`.
    pub fn same_values(&self, other: &TemperatureThreshold) -> (same: bool)
        ensures
            same == self.same_values_spec(*other),
    {
        self.up_threshold == other.up_threshold && self.down_threshold == other.down_threshold
            && self.fan_speed == other.fan_speed
    }
}

impl PartialEq for TemperatureThreshold {
    fn eq(&self, other: &TemperatureThreshold) -> (same: bool) {
        self.down_threshold == other.down_threshold
    }
}

impl Eq for TemperatureThreshold {

}

impl PartialEqSpecImpl for TemperatureThreshold {
    open spec fn obeys_eq_spec() -> bool {
        true
    }

    open spec fn eq_spec(&self, other: &TemperatureThreshold) -> bool {
        self.down_threshold == other.down_threshold
    }
}

/// The fan curve of a fan whose configuration names none: off at rest and
/// full speed from 50 degrees on.
pub open spec fn default_temperature_thresholds_spec() -> Seq<TemperatureThreshold> {
    seq![
        TemperatureThreshold { up_threshold: 0, down_threshold: 0, fan_speed: 0 },
        TemperatureThreshold { up_threshold: 50, down_threshold: 40, fan_speed: FULL_SPEED },
    ]
}

/// Builds the fan curve of a fan whose configuration names none.
pub fn default_temperature_thresholds() -> (thresholds: Vec<TemperatureThreshold>)
    ensures
        thresholds@ == default_temperature_thresholds_spec(),
{
    let mut thresholds: Vec<TemperatureThreshold> = Vec::new();
    thresholds.push(TemperatureThreshold { up_threshold: 0, down_threshold: 0, fan_speed: 0 });
    thresholds.push(
        TemperatureThreshold { up_threshold: 50, down_threshold: 40, fan_speed: FULL_SPEED },
    );
    assert(thresholds@ =~= default_temperature_thresholds_spec());
    thresholds
}

/// Polling interval, in milliseconds, of a configuration that names none.
pub fn default_poll_interval() -> (interval: u64)
    ensures
        interval == 100,
{
    100
}

/// Critical temperature, in degrees, of a configuration that names none.
pub fn default_critic_temp() -> (temperature: u8)
    ensures
        temperature == 70,
{
    70
}


/// A raw register value that stands for a speed where the linear model of a
/// fan does not fit.
#[derive(Clone, Copy, Debug, PartialEq)]
pub struct FanSpeedPercentageOverride {
    /// Speed, in thousandths of a percent.
    pub fan_speed_percentage: i32,
    pub fan_speed_value: u16,
    /// Direction in which the override applies; both when absent.
    pub target_operation: Option<OverrideTargetOperation>,
}

impl FanSpeedPercentageOverride {
    /// Whether the override applies when a speed is written.
    pub open spec fn applies_to_write_spec(self) -> bool {
        self.target_operation != Some(OverrideTargetOperation::Read)
    }

    /// Whether the override applies when a speed is read.
    pub open spec fn applies_to_read_spec(self) -> bool {
        self.target_operation != Some(OverrideTargetOperation::Write)
    }

    /// Tells whether the override applies when a speed is written: its
    /// operation is `Write` or `ReadWrite`, or it names none.
    pub fn applies_to_write(&self) -> (applies: bool)
        ensures
            applies == self.applies_to_write_spec(),
    {
        match self.target_operation {
            Some(OverrideTargetOperation::Read) => false,
            _ => true,
        }
    }

    /// Tells whether the override applies when a speed is read: its
    /// operation is `Read` or `ReadWrite`, or it names none.
    pub fn applies_to_read(&self) -> (applies: bool)
        ensures
            applies == self.applies_to_read_spec(),
    {
        match self.target_operation {
            Some(OverrideTargetOperation::Write) => false,
            _ => true,
        }
    }
}

/// The text of an optional string.
pub open spec fn opt_text(text: Option<String>) -> Option<Seq<char>> {
    match text {
        Some(t) => Some(t@),
        None => None,
    }
}

/// Copies an optional string.
pub fn copy_opt_text(text: &Option<String>) -> (copy: Option<String>)
    ensures
        copy == *text,
{
    match text {
        Some(t) => Some(t.clone()),
        None => None,
    }
}

/// A register that is written besides the fan registers.
#[derive(Clone, Debug, PartialEq)]
pub struct RegisterWriteConfiguration {
    /// Accepted in documents and not used.
    pub write_mode: RegisterWriteMode,
    pub write_occasion: Option<RegisterWriteOccasion>,
    pub register: u8,
    pub value: u8,
    pub reset_required: bool,
    pub reset_value: Option<u8>,
    /// Accepted in documents and not used.
    pub reset_write_mode: Option<RegisterWriteMode>,
    pub description: Option<String>,
}

/// What a [`RegisterWriteConfiguration`] holds.
pub struct RegisterWriteConfigurationView {
    pub write_mode: RegisterWriteMode,
    pub write_occasion: Option<RegisterWriteOccasion>,
    pub register: u8,
    pub value: u8,
    pub reset_required: bool,
    pub reset_value: Option<u8>,
    pub reset_write_mode: Option<RegisterWriteMode>,
    pub description: Option<Seq<char>>,
}

impl View for RegisterWriteConfiguration {
    type V = RegisterWriteConfigurationView;

    open spec fn view(&self) -> RegisterWriteConfigurationView {
        RegisterWriteConfigurationView {
            write_mode: self.write_mode,
            write_occasion: self.write_occasion,
            register: self.register,
            value: self.value,
            reset_required: self.reset_required,
            reset_value: self.reset_value,
            reset_write_mode: self.reset_write_mode,
            description: opt_text(self.description),
        }
    }
}

impl RegisterWriteConfiguration {
    /// Copies the configuration.
    pub fn duplicate(&self) -> (copy: RegisterWriteConfiguration)
        ensures
            copy == *self,
    {
        RegisterWriteConfiguration {
            write_mode: self.write_mode,
            write_occasion: self.write_occasion,
            register: self.register,
            value: self.value,
            reset_required: self.reset_required,
            reset_value: self.reset_value,
            reset_write_mode: self.reset_write_mode,
            description: copy_opt_text(&self.description),
        }
    }
}

/// The views of a list of register write configurations, in order.
pub open spec fn register_views(list: Seq<RegisterWriteConfiguration>) -> Seq<
    RegisterWriteConfigurationView,
> {
    Seq::new(list.len(), |i: int| list[i]@)
}

/// The views of an optional list of register write configurations. An absent
/// list and an empty one are told apart.
pub open spec fn opt_register_views(list: Option<Vec<RegisterWriteConfiguration>>) -> Option<
    Seq<RegisterWriteConfigurationView>,
> {
    match list {
        Some(l) => Some(register_views(l@)),
        None => None,
    }
}

/// The overrides of an optional list.
pub open spec fn opt_overrides(list: Option<Vec<FanSpeedPercentageOverride>>) -> Option<
    Seq<FanSpeedPercentageOverride>,
> {
    match list {
        Some(l) => Some(l@),
        None => None,
    }
}

/// Copies a fan curve.
pub fn copy_thresholds(list: &Vec<TemperatureThreshold>) -> (copy: Vec<TemperatureThreshold>)
    ensures
        copy@ == list@,
{
    let mut copy: Vec<TemperatureThreshold> = Vec::new();
    let mut i: usize = 0;
    while i < list.len()
        invariant
            i <= list.len(),
            copy@ == list@.subrange(0, i as int),
        decreases list.len() - i,
    {
        copy.push(list[i]);
        assert(copy@ =~= list@.subrange(0, i + 1));
        i += 1;
    }
    assert(list@.subrange(0, list.len() as int) =~= list@);
    copy
}

/// Copies a list of overrides.
pub fn copy_overrides(list: &Vec<FanSpeedPercentageOverride>) -> (copy: Vec<
    FanSpeedPercentageOverride,
>)
    ensures
        copy@ == list@,
{
    let mut copy: Vec<FanSpeedPercentageOverride> = Vec::new();
    let mut i: usize = 0;
    while i < list.len()
        invariant
            i <= list.len(),
            copy@ == list@.subrange(0, i as int),
        decreases list.len() - i,
    {
        copy.push(list[i]);
        assert(copy@ =~= list@.subrange(0, i + 1));
        i += 1;
    }
    assert(list@.subrange(0, list.len() as int) =~= list@);
    copy
}

/// Copies an optional list of overrides.
pub fn copy_opt_overrides(list: &Option<Vec<FanSpeedPercentageOverride>>) -> (copy: Option<
    Vec<FanSpeedPercentageOverride>,
>)
    ensures
        opt_overrides(copy) == opt_overrides(*list),
{
    match list {
        Some(l) => Some(copy_overrides(l)),
        None => None,
    }
}

/// Copies a list of register write configurations.
pub fn copy_registers(list: &Vec<RegisterWriteConfiguration>) -> (copy: Vec<
    RegisterWriteConfiguration,
>)
    ensures
        copy@ == list@,
{
    let mut copy: Vec<RegisterWriteConfiguration> = Vec::new();
    let mut i: usize = 0;
    while i < list.len()
        invariant
            i <= list.len(),
            copy@ == list@.subrange(0, i as int),
        decreases list.len() - i,
    {
        copy.push(list[i].duplicate());
        assert(copy@ =~= list@.subrange(0, i + 1));
        i += 1;
    }
    assert(list@.subrange(0, list.len() as int) =~= list@);
    copy
}

/// One fan of a notebook: its registers, the range of its raw values, its
/// curve and its overrides.
#[derive(Clone, Debug, PartialEq)]
pub struct FanConfiguration {
    pub read_register: u8,
    pub write_register: u8,
    /// Raw value of the lowest speed. It may be above `max_speed_value`: on
    /// such a fan a smaller value means a higher speed.
    pub min_speed_value: u16,
    pub max_speed_value: u16,
    /// Whether reads have bounds of their own.
    pub independent_read_min_max_values: bool,
    pub min_speed_value_read: u16,
    pub max_speed_value_read: u16,
    pub reset_required: bool,
    pub fan_speed_reset_value: Option<u16>,
    pub fan_display_name: Option<String>,
    pub temperature_thresholds: Vec<TemperatureThreshold>,
    pub fan_speed_percentage_overrides: Option<Vec<FanSpeedPercentageOverride>>,
}

/// What a [`FanConfiguration`] holds.
pub struct FanConfigurationView {
    pub read_register: u8,
    pub write_register: u8,
    pub min_speed_value: u16,
    pub max_speed_value: u16,
    pub independent_read_min_max_values: bool,
    pub min_speed_value_read: u16,
    pub max_speed_value_read: u16,
    pub reset_required: bool,
    pub fan_speed_reset_value: Option<u16>,
    pub fan_display_name: Option<Seq<char>>,
    pub temperature_thresholds: Seq<TemperatureThreshold>,
    pub fan_speed_percentage_overrides: Option<Seq<FanSpeedPercentageOverride>>,
}

impl View for FanConfiguration {
    type V = FanConfigurationView;

    open spec fn view(&self) -> FanConfigurationView {
        FanConfigurationView {
            read_register: self.read_register,
            write_register: self.write_register,
            min_speed_value: self.min_speed_value,
            max_speed_value: self.max_speed_value,
            independent_read_min_max_values: self.independent_read_min_max_values,
            min_speed_value_read: self.min_speed_value_read,
            max_speed_value_read: self.max_speed_value_read,
            reset_required: self.reset_required,
            fan_speed_reset_value: self.fan_speed_reset_value,
            fan_display_name: opt_text(self.fan_display_name),
            temperature_thresholds: self.temperature_thresholds@,
            fan_speed_percentage_overrides: opt_overrides(self.fan_speed_percentage_overrides),
        }
    }
}

impl FanConfigurationView {
    /// The overrides of the fan; none where the configuration names none.
    pub open spec fn overrides(self) -> Seq<FanSpeedPercentageOverride> {
        match self.fan_speed_percentage_overrides {
            Some(list) => list,
            None => Seq::empty(),
        }
    }

    /// Raw value that a read gives at the lowest speed.
    pub open spec fn min_read(self) -> u16 {
        if self.independent_read_min_max_values {
            self.min_speed_value_read
        } else {
            self.min_speed_value
        }
    }

    /// Raw value that a read gives at the highest speed.
    pub open spec fn max_read(self) -> u16 {
        if self.independent_read_min_max_values {
            self.max_speed_value_read
        } else {
            self.max_speed_value
        }
    }
}

/// The views of a list of fans, in order.
pub open spec fn fan_views(list: Seq<FanConfiguration>) -> Seq<FanConfigurationView> {
    Seq::new(list.len(), |i: int| list[i]@)
}

/// The fan control configuration of one notebook model.
#[derive(Clone, Debug, PartialEq)]
pub struct FanControlConfigV2 {
    pub notebook_model: String,
    pub author: Option<String>,
    /// Time between two rounds of the control loop, in milliseconds.
    pub ec_poll_interval: u64,
    /// Whether fan registers hold 16-bit little-endian words, not bytes.
    pub read_write_words: bool,
    /// Temperature, in degrees, from which every fan runs at full speed.
    pub critical_temperature: u8,
    pub fan_configurations: Vec<FanConfiguration>,
    pub register_write_configurations: Option<Vec<RegisterWriteConfiguration>>,
}

/// What a [`FanControlConfigV2`] holds.
pub struct FanControlConfigView {
    pub notebook_model: Seq<char>,
    pub author: Option<Seq<char>>,
    pub ec_poll_interval: u64,
    pub read_write_words: bool,
    pub critical_temperature: u8,
    pub fan_configurations: Seq<FanConfigurationView>,
    pub register_write_configurations: Option<Seq<RegisterWriteConfigurationView>>,
}

impl View for FanControlConfigV2 {
    type V = FanControlConfigView;

    open spec fn view(&self) -> FanControlConfigView {
        FanControlConfigView {
            notebook_model: self.notebook_model@,
            author: opt_text(self.author),
            ec_poll_interval: self.ec_poll_interval,
            read_write_words: self.read_write_words,
            critical_temperature: self.critical_temperature,
            fan_configurations: fan_views(self.fan_configurations@),
            register_write_configurations: opt_register_views(self.register_write_configurations),
        }
    }
}

impl FanControlConfigView {
    /// The register write configurations; none where the configuration names
    /// none.
    pub open spec fn registers(self) -> Seq<RegisterWriteConfigurationView> {
        match self.register_write_configurations {
            Some(list) => list,
            None => Seq::empty(),
        }
    }
}

impl Default for FanControlConfigV2 {
    /// A configuration without fans, with empty texts and every number zero.
    fn default() -> (config: FanControlConfigV2)
        ensures
            config@ == (FanControlConfigView {
                notebook_model: Seq::empty(),
                author: None,
                ec_poll_interval: 0,
                read_write_words: false,
                critical_temperature: 0,
                fan_configurations: Seq::empty(),
                register_write_configurations: None,
            }),
    {
        let config = FanControlConfigV2 {
            notebook_model: String::new(),
            author: None,
            ec_poll_interval: 0,
            read_write_words: false,
            critical_temperature: 0,
            fan_configurations: Vec::new(),
            register_write_configurations: None,
        };
        assert(config@.fan_configurations =~= Seq::empty());
        config
    }
}

} // verus!
