//! The writer: which registers are written when a configuration is
//! installed, when a fan speed is set and when the controller is handed back.

use vstd::prelude::*;

use crate::ec_control::ec_rw::EcWrite;
use crate::nbfc::{
    FanConfiguration, FanConfigurationView, FanSpeedPercentageOverride,
    RegisterWriteConfiguration, RegisterWriteConfigurationView, RegisterWriteOccasion,
    fan_views, opt_register_views, register_views,
};
use crate::units::clamp_int;

verus! {

/// What the writer keeps of a register write configuration.
#[derive(Clone, Copy, Debug, PartialEq, Eq, Structural)]
pub struct RegisterWrite {
    pub register: u8,
    pub value: u8,
    pub reset_required: bool,
    pub reset_value: Option<u8>,
}

impl RegisterWrite {
    /// What is kept of a configuration.
    pub open spec fn of(config: RegisterWriteConfigurationView) -> RegisterWrite {
        RegisterWrite {
            register: config.register,
            value: config.value,
            reset_required: config.reset_required,
            reset_value: config.reset_value,
        }
    }

    /// Whether a reset writes the register: it has a reset value, and the
    /// reset is one of all registers or the register asks for it.
    pub open spec fn is_reset(self, reset_all: bool) -> bool {
        self.reset_value.is_some() && (reset_all || self.reset_required)
    }
}

/// The configurations of a list that are applied on `occasion`, in order.
pub open spec fn registers_on(
    list: Seq<RegisterWriteConfigurationView>,
    occasion: RegisterWriteOccasion,
) -> Seq<RegisterWrite>
    decreases list.len(),
{
    if list.len() == 0 {
        Seq::empty()
    } else {
        let before = registers_on(list.drop_last(), occasion);
        if list.last().write_occasion == Some(occasion) {
            before.push(RegisterWrite::of(list.last()))
        } else {
            before
        }
    }
}

/// The overrides of a list that apply to writes, in order.
pub open spec fn write_overrides(list: Seq<FanSpeedPercentageOverride>) -> Seq<
    FanSpeedPercentageOverride,
>
    decreases list.len(),
{
    if list.len() == 0 {
        Seq::empty()
    } else {
        let before = write_overrides(list.drop_last());
        if list.last().applies_to_write_spec() {
            before.push(list.last())
        } else {
            before
        }
    }
}

/// What the writer keeps of a fan.
#[derive(Clone, Debug, PartialEq)]
pub struct FanWriteConfig {
    pub write_register: u8,
    pub reset_required: bool,
    pub reset_value: Option<u16>,
    pub max_speed: u16,
    pub min_speed: u16,
    pub write_percent_overrides: Vec<FanSpeedPercentageOverride>,
}

/// What a [`FanWriteConfig`] holds.
pub struct FanWriteView {
    pub write_register: u8,
    pub reset_required: bool,
    pub reset_value: Option<u16>,
    pub max_speed: u16,
    pub min_speed: u16,
    pub write_percent_overrides: Seq<FanSpeedPercentageOverride>,
}

impl View for FanWriteConfig {
    type V = FanWriteView;

    open spec fn view(&self) -> FanWriteView {
        FanWriteView {
            write_register: self.write_register,
            reset_required: self.reset_required,
            reset_value: self.reset_value,
            max_speed: self.max_speed,
            min_speed: self.min_speed,
            write_percent_overrides: self.write_percent_overrides@,
        }
    }
}

/// The quotient of `num` by `den` rounded to the nearest integer, a tie going
/// away from zero. `den` is positive.
pub open spec fn round_div(num: int, den: int) -> int {
    if num >= 0 {
        (2 * num + den) / (2 * den)
    } else {
        -((2 * (-num) + den) / (2 * den))
    }
}

/// The raw value of a speed on the line from `min` at 0 % to `max` at 100 %,
/// rounded to the nearest integer and limited to what a register word holds.
pub open spec fn linear_raw(min: u16, max: u16, speed: i32) -> u16 {
    clamp_int(round_div(min * 100_000 + (max - min) * speed, 100_000), 0, 65535) as u16
}

/// The value of the first override of a list that is given for exactly this
/// speed.
pub open spec fn find_write_override(list: Seq<FanSpeedPercentageOverride>, speed: i32) -> Option<
    u16,
>
    decreases list.len(),
{
    if list.len() == 0 {
        None
    } else if list[0].fan_speed_percentage == speed {
        Some(list[0].fan_speed_value)
    } else {
        find_write_override(list.subrange(1, list.len() as int), speed)
    }
}

impl FanWriteView {
    /// What is kept of a fan.
    pub open spec fn of(fan: FanConfigurationView) -> FanWriteView {
        FanWriteView {
            write_register: fan.write_register,
            reset_required: fan.reset_required,
            reset_value: fan.fan_speed_reset_value,
            max_speed: fan.max_speed_value,
            min_speed: fan.min_speed_value,
            write_percent_overrides: write_overrides(fan.overrides()),
        }
    }

    /// Whether a reset writes the fan register.
    pub open spec fn is_reset(self, reset_all: bool) -> bool {
        self.reset_value.is_some() && (reset_all || self.reset_required)
    }

    /// The raw value that stands for a speed: that of the first override
    /// given for exactly this speed, or else the one on the line between the
    /// two bounds.
    pub open spec fn raw_speed(self, speed: i32) -> u16 {
        match find_write_override(self.write_percent_overrides, speed) {
            Some(value) => value,
            None => linear_raw(self.min_speed, self.max_speed, speed),
        }
    }
}

/// What is kept of each fan of a list.
pub open spec fn fan_write_views(fans: Seq<FanConfigurationView>) -> Seq<FanWriteView> {
    Seq::new(fans.len(), |i: int| FanWriteView::of(fans[i]))
}

/// The views of the fans of a writer.
pub open spec fn kept_fans(fans: Seq<FanWriteConfig>) -> Seq<FanWriteView> {
    Seq::new(fans.len(), |i: int| fans[i]@)
}

/// One write of `value` for each register of a list.
pub open spec fn value_writes(list: Seq<RegisterWrite>) -> Seq<EcWrite> {
    Seq::new(list.len(), |i: int| EcWrite::of_byte(list[i].register, list[i].value))
}

/// One write of the reset value for each register of a list that a reset
/// writes, in order.
pub open spec fn reset_register_writes(list: Seq<RegisterWrite>, reset_all: bool) -> Seq<EcWrite>
    decreases list.len(),
{
    if list.len() == 0 {
        Seq::empty()
    } else {
        let before = reset_register_writes(list.drop_last(), reset_all);
        if list.last().is_reset(reset_all) {
            before.push(EcWrite::of_byte(list.last().register, list.last().reset_value.unwrap()))
        } else {
            before
        }
    }
}

/// One write of the reset value for each fan of a list that a reset writes,
/// in order.
pub open spec fn reset_fan_writes(list: Seq<FanWriteView>, reset_all: bool, words: bool) -> Seq<
    EcWrite,
>
    decreases list.len(),
{
    if list.len() == 0 {
        Seq::empty()
    } else {
        let before = reset_fan_writes(list.drop_last(), reset_all, words);
        if list.last().is_reset(reset_all) {
            before.push(
                EcWrite::of_value(
                    list.last().write_register,
                    list.last().reset_value.unwrap(),
                    words,
                ),
            )
        } else {
            before
        }
    }
}

/// Manages writes to the embedded controller.
#[derive(Clone, Debug, PartialEq)]
pub struct ECWriter {
    pub on_write_reg_confs: Vec<RegisterWrite>,
    pub init_reg_confs: Vec<RegisterWrite>,
    pub fans_write_config: Vec<FanWriteConfig>,
    pub write_words: bool,
}

/// What an [`ECWriter`] holds.
pub struct ECWriterView {
    pub on_write_reg_confs: Seq<RegisterWrite>,
    pub init_reg_confs: Seq<RegisterWrite>,
    pub fans_write_config: Seq<FanWriteView>,
    pub write_words: bool,
}

impl View for ECWriter {
    type V = ECWriterView;

    open spec fn view(&self) -> ECWriterView {
        ECWriterView {
            on_write_reg_confs: self.on_write_reg_confs@,
            init_reg_confs: self.init_reg_confs@,
            fans_write_config: kept_fans(self.fans_write_config@),
            write_words: self.write_words,
        }
    }
}

impl ECWriterView {
    /// The writer of a configuration: the register write configurations
    /// parted by their occasion, those without an occasion left out, and the
    /// write parameters of each fan.
    pub open spec fn of(
        write_words: bool,
        registers: Seq<RegisterWriteConfigurationView>,
        fans: Seq<FanConfigurationView>,
    ) -> ECWriterView {
        ECWriterView {
            on_write_reg_confs: registers_on(registers, RegisterWriteOccasion::OnWriteFanSpeed),
            init_reg_confs: registers_on(registers, RegisterWriteOccasion::OnInitialization),
            fans_write_config: fan_write_views(fans),
            write_words,
        }
    }

    /// The writes that make the controller ready: the value of every
    /// register configured for initialisation, then the reset value of every
    /// fan that has one.
    pub open spec fn init_plan(self) -> Seq<EcWrite> {
        value_writes(self.init_reg_confs) + reset_fan_writes(
            self.fans_write_config,
            true,
            self.write_words,
        )
    }

    /// The writes that hand the controller back: the reset values of the
    /// registers configured for initialisation, then of those configured for
    /// speed writes, then of the fans; each only where the register has a
    /// reset value and the reset is one of all registers or the register
    /// asks for it.
    pub open spec fn reset_plan(self, reset_all: bool) -> Seq<EcWrite> {
        reset_register_writes(self.init_reg_confs, reset_all) + reset_register_writes(
            self.on_write_reg_confs,
            reset_all,
        ) + reset_fan_writes(self.fans_write_config, reset_all, self.write_words)
    }

    /// The writes that set the speed of a fan: the value of every register
    /// configured for speed writes, then the raw value of the speed in the
    /// fan's register.
    pub open spec fn speed_plan(self, fan_index: int, speed: i32) -> Seq<EcWrite> {
        value_writes(self.on_write_reg_confs).push(
            EcWrite::of_value(
                self.fans_write_config[fan_index].write_register,
                self.fans_write_config[fan_index].raw_speed(speed),
                self.write_words,
            ),
        )
    }
}

/// Picks the configurations of a list that are applied on `occasion`.
fn pick_registers(list: &Vec<RegisterWriteConfiguration>, occasion: RegisterWriteOccasion) -> (kept:
    Vec<RegisterWrite>)
    ensures
        kept@ == registers_on(register_views(list@), occasion),
{
    let mut kept: Vec<RegisterWrite> = Vec::new();
    let mut i: usize = 0;
    while i < list.len()
        invariant
            i <= list.len(),
            kept@ == registers_on(register_views(list@.subrange(0, i as int)), occasion),
        decreases list.len() - i,
    {
        let config = &list[i];
        proof {
            let now = register_views(list@.subrange(0, i + 1));
            assert(now.drop_last() =~= register_views(list@.subrange(0, i as int)));
            assert(now.last() == list@[i as int]@);
        }
        let applies = match config.write_occasion {
            Some(RegisterWriteOccasion::OnWriteFanSpeed) => match occasion {
                RegisterWriteOccasion::OnWriteFanSpeed => true,
                RegisterWriteOccasion::OnInitialization => false,
            },
            Some(RegisterWriteOccasion::OnInitialization) => match occasion {
                RegisterWriteOccasion::OnWriteFanSpeed => false,
                RegisterWriteOccasion::OnInitialization => true,
            },
            None => false,
        };
        if applies {
            kept.push(
                RegisterWrite {
                    register: config.register,
                    value: config.value,
                    reset_required: config.reset_required,
                    reset_value: config.reset_value,
                },
            );
        }
        i += 1;
    }
    proof {
        assert(list@.subrange(0, list.len() as int) =~= list@);
    }
    kept
}

/// Picks the overrides of a list that apply to writes.
fn pick_write_overrides(list: &Vec<FanSpeedPercentageOverride>) -> (kept: Vec<
    FanSpeedPercentageOverride,
>)
    ensures
        kept@ == write_overrides(list@),
{
    let mut kept: Vec<FanSpeedPercentageOverride> = Vec::new();
    let mut i: usize = 0;
    while i < list.len()
        invariant
            i <= list.len(),
            kept@ == write_overrides(list@.subrange(0, i as int)),
        decreases list.len() - i,
    {
        proof {
            let now = list@.subrange(0, i + 1);
            assert(now.drop_last() =~= list@.subrange(0, i as int));
            assert(now.last() == list@[i as int]);
        }
        if list[i].applies_to_write() {
            kept.push(list[i]);
        }
        i += 1;
    }
    proof {
        assert(list@.subrange(0, list.len() as int) =~= list@);
    }
    kept
}

impl FanWriteConfig {
    /// Captures the write parameters of a fan.
    pub fn new(fan: &FanConfiguration) -> (kept: FanWriteConfig)
        ensures
            kept@ == FanWriteView::of(fan@),
    {
        let overrides = match &fan.fan_speed_percentage_overrides {
            Some(list) => pick_write_overrides(list),
            None => Vec::new(),
        };
        FanWriteConfig {
            write_register: fan.write_register,
            reset_required: fan.reset_required,
            reset_value: fan.fan_speed_reset_value,
            max_speed: fan.max_speed_value,
            min_speed: fan.min_speed_value,
            write_percent_overrides: overrides,
        }
    }

    /// Gives the raw value that stands for a speed: that of the first
    /// override given for exactly this speed, or else the value on the line
    /// from `min_speed` at 0 % to `max_speed` at 100 %, rounded to the
    /// nearest integer, a tie going away from zero.
    pub fn raw_speed(&self, speed: i32) -> (raw: u16)
        ensures
            raw == self@.raw_speed(speed),
    {
        let list = &self.write_percent_overrides;
        let mut i: usize = 0;
        proof {
            assert(list@.subrange(0, list.len() as int) =~= list@);
        }
        while i < list.len()
            invariant
                i <= list.len(),
                self@.write_percent_overrides == list@,
                find_write_override(list@, speed) == find_write_override(
                    list@.subrange(i as int, list.len() as int),
                    speed,
                ),
            decreases list.len() - i,
        {
            proof {
                let rest = list@.subrange(i as int, list.len() as int);
                assert(rest[0] == list@[i as int]);
                assert(rest.subrange(1, rest.len() as int) =~= list@.subrange(
                    i + 1,
                    list.len() as int,
                ));
            }
            if list[i].fan_speed_percentage == speed {
                proof {
                    let rest = list@.subrange(i as int, list.len() as int);
                    assert(find_write_override(rest, speed) == Some(rest[0].fan_speed_value));
                }
                return list[i].fan_speed_value;
            }
            i += 1;
        }
        proof {
            assert(list@.subrange(i as int, list.len() as int).len() == 0);
        }
        compute_linear_raw(self.min_speed, self.max_speed, speed)
    }
}

/// Computes the raw value of a speed on the line from `min` at 0 % to `max`
/// at 100 %.
pub fn compute_linear_raw(min: u16, max: u16, speed: i32) -> (raw: u16)
    ensures
        raw == linear_raw(min, max, speed),
{
    let span: i64 = max as i64 - min as i64;
    assert(-65535 <= span <= 65535);
    assert(-65535 * 0x8000_0000 <= span * (speed as i64) <= 65535 * 0x8000_0000) by (nonlinear_arith)
        requires
            -65535 <= span <= 65535,
            -0x8000_0000 <= speed as i64 <= 0x8000_0000,
    ;
    let num: i64 = (min as i64) * 100_000 + span * (speed as i64);
    let rounded: i64 = if num >= 0 {
        (2 * num + 100_000) / 200_000
    } else {
        -((2 * (-num) + 100_000) / 200_000)
    };
    assert(rounded == round_div(num as int, 100_000));
    if rounded < 0 {
        0
    } else if rounded > 65535 {
        65535
    } else {
        rounded as u16
    }
}

impl ECWriter {
    /// A writer without registers and fans.
    pub fn new() -> (writer: ECWriter)
        ensures
            writer@ == (ECWriterView {
                on_write_reg_confs: Seq::empty(),
                init_reg_confs: Seq::empty(),
                fans_write_config: Seq::empty(),
                write_words: false,
            }),
    {
        let writer = ECWriter {
            on_write_reg_confs: Vec::new(),
            init_reg_confs: Vec::new(),
            fans_write_config: Vec::new(),
            write_words: false,
        };
        assert(writer@.fans_write_config =~= Seq::empty());
        writer
    }

    /// Takes over a configuration and returns the writes that make the
    /// controller ready for it.
    ///
    /// The register write configurations are parted by their occasion, an
    /// absent list counting as an empty one, and the write parameters of
    /// every fan are captured.
    pub fn refresh_config(
        &mut self,
        write_words: bool,
        reg_confs: Option<Vec<RegisterWriteConfiguration>>,
        fan_configs: &Vec<FanConfiguration>,
    ) -> (plan: Vec<EcWrite>)
        ensures
            final(self)@ == ECWriterView::of(
                write_words,
                match opt_register_views(reg_confs) {
                    Some(list) => list,
                    None => Seq::empty(),
                },
                fan_views(fan_configs@),
            ),
            plan@ == final(self)@.init_plan(),
    {
        match &reg_confs {
            Some(list) => {
                self.on_write_reg_confs = pick_registers(
                    list,
                    RegisterWriteOccasion::OnWriteFanSpeed,
                );
                self.init_reg_confs = pick_registers(list, RegisterWriteOccasion::OnInitialization);
            },
            None => {
                self.on_write_reg_confs = Vec::new();
                self.init_reg_confs = Vec::new();
            },
        }
        self.write_words = write_words;
        let mut fans: Vec<FanWriteConfig> = Vec::new();
        let mut i: usize = 0;
        while i < fan_configs.len()
            invariant
                i <= fan_configs.len(),
                fans@.len() == i,
                forall|k: int| 0 <= k < i ==> (#[trigger] fans@[k])@ == FanWriteView::of(fan_configs@[k]@),
            decreases fan_configs.len() - i,
        {
            fans.push(FanWriteConfig::new(&fan_configs[i]));
            i += 1;
        }
        self.fans_write_config = fans;
        proof {
            assert(self@.fans_write_config =~= fan_write_views(fan_views(fan_configs@)));
        }
        self.init_write()
    }

    /// Returns the writes that make the controller ready: the value of every
    /// register configured for initialisation, each as one byte, then the
    /// reset value of every fan that has one.
    pub fn init_write(&self) -> (plan: Vec<EcWrite>)
        ensures
            plan@ == self@.init_plan(),
    {
        let mut plan: Vec<EcWrite> = Vec::new();
        self.push_value_writes(&self.init_reg_confs, &mut plan);
        self.push_fan_resets(true, &mut plan);
        plan
    }

    /// Returns the writes that hand the controller back. With `reset_all`
    /// every register that has a reset value is written, without it only
    /// those that ask for a reset.
    pub fn reset(&self, reset_all: bool) -> (plan: Vec<EcWrite>)
        ensures
            plan@ == self@.reset_plan(reset_all),
    {
        let mut plan: Vec<EcWrite> = Vec::new();
        Self::push_register_resets(&self.init_reg_confs, reset_all, &mut plan);
        Self::push_register_resets(&self.on_write_reg_confs, reset_all, &mut plan);
        self.push_fan_resets(reset_all, &mut plan);
        plan
    }

    /// Returns the writes that set a fan to a speed, given in thousandths of
    /// a percent: first every register configured for speed writes, then the
    /// fan's own register.
    pub fn write_speed_percent(&self, fan_index: usize, speed_percent: i32) -> (plan: Vec<EcWrite>)
        requires
            fan_index < self.fans_write_config@.len(),
        ensures
            plan@ == self@.speed_plan(fan_index as int, speed_percent),
    {
        let mut plan: Vec<EcWrite> = Vec::new();
        self.push_value_writes(&self.on_write_reg_confs, &mut plan);
        let fan = &self.fans_write_config[fan_index];
        let raw = fan.raw_speed(speed_percent);
        plan.push(self.write_value(self.write_words, fan.write_register, raw));
        plan
    }

    /// Builds one write: of the whole value where a word is asked for, of its
    /// low byte where it is not.
    pub fn write_value(&self, write_word: bool, write_off: u8, value: u16) -> (write: EcWrite)
        ensures
            write == EcWrite::of_value(write_off, value, write_word),
    {
        EcWrite::value(write_off, value, write_word)
    }

    /// Appends one write of the configured value per register.
    fn push_value_writes(&self, list: &Vec<RegisterWrite>, plan: &mut Vec<EcWrite>)
        ensures
            final(plan)@ == old(plan)@ + value_writes(list@),
    {
        let ghost before = plan@;
        let mut i: usize = 0;
        while i < list.len()
            invariant
                i <= list.len(),
                plan@ == before + value_writes(list@.subrange(0, i as int)),
            decreases list.len() - i,
        {
            plan.push(EcWrite::byte(list[i].register, list[i].value));
            proof {
                assert(plan@ =~= before + value_writes(list@.subrange(0, i + 1)));
            }
            i += 1;
        }
        proof {
            assert(list@.subrange(0, list.len() as int) =~= list@);
        }
    }

    /// Appends one write of the reset value per register that a reset
    /// writes.
    fn push_register_resets(list: &Vec<RegisterWrite>, reset_all: bool, plan: &mut Vec<EcWrite>)
        ensures
            final(plan)@ == old(plan)@ + reset_register_writes(list@, reset_all),
    {
        let ghost before = plan@;
        let mut i: usize = 0;
        while i < list.len()
            invariant
                i <= list.len(),
                plan@ == before + reset_register_writes(list@.subrange(0, i as int), reset_all),
            decreases list.len() - i,
        {
            proof {
                let now = list@.subrange(0, i + 1);
                assert(now.drop_last() =~= list@.subrange(0, i as int));
                assert(now.last() == list@[i as int]);
            }
            if reset_all || list[i].reset_required {
                if let Some(value) = list[i].reset_value {
                    plan.push(EcWrite::byte(list[i].register, value));
                }
            }
            proof {
                assert(plan@ =~= before + reset_register_writes(
                    list@.subrange(0, i + 1),
                    reset_all,
                ));
            }
            i += 1;
        }
        proof {
            assert(list@.subrange(0, list.len() as int) =~= list@);
        }
    }

    /// Appends one write of the reset value per fan that a reset writes.
    fn push_fan_resets(&self, reset_all: bool, plan: &mut Vec<EcWrite>)
        ensures
            final(plan)@ == old(plan)@ + reset_fan_writes(
                self@.fans_write_config,
                reset_all,
                self.write_words,
            ),
    {
        let ghost before = plan@;
        let ghost fans = self@.fans_write_config;
        let list = &self.fans_write_config;
        let mut i: usize = 0;
        while i < list.len()
            invariant
                i <= list.len(),
                fans == kept_fans(list@),
                plan@ == before + reset_fan_writes(
                    fans.subrange(0, i as int),
                    reset_all,
                    self.write_words,
                ),
            decreases list.len() - i,
        {
            proof {
                let now = fans.subrange(0, i + 1);
                assert(now.drop_last() =~= fans.subrange(0, i as int));
                assert(now.last() == list@[i as int]@);
            }
            if reset_all || list[i].reset_required {
                if let Some(value) = list[i].reset_value {
                    plan.push(self.write_value(self.write_words, list[i].write_register, value));
                }
            }
            proof {
                assert(plan@ =~= before + reset_fan_writes(
                    fans.subrange(0, i + 1),
                    reset_all,
                    self.write_words,
                ));
            }
            i += 1;
        }
        proof {
            assert(fans.subrange(0, list.len() as int) =~= fans);
        }
    }
}


/// The writes for a list of registers are those for its first `i`
/// registers followed by those for the rest.
pub proof fn lemma_reset_register_writes_split(list: Seq<RegisterWrite>, reset_all: bool, i: int)
    requires
        0 <= i <= list.len(),
    ensures
        reset_register_writes(list, reset_all) == reset_register_writes(
            list.subrange(0, i),
            reset_all,
        ) + reset_register_writes(list.subrange(i, list.len() as int), reset_all),
    decreases list.len(),
{
    let tail = list.subrange(i, list.len() as int);
    if i == list.len() {
        assert(list.subrange(0, i) =~= list);
        assert(reset_register_writes(tail, reset_all) =~= Seq::empty());
        assert(reset_register_writes(list, reset_all) + Seq::empty()
            =~= reset_register_writes(list, reset_all));
    } else {
        let shorter = list.drop_last();
        lemma_reset_register_writes_split(shorter, reset_all, i);
        assert(shorter.subrange(0, i) =~= list.subrange(0, i));
        assert(shorter.subrange(i, shorter.len() as int) =~= tail.drop_last());
        assert(tail.last() == list.last());
        let head_writes = reset_register_writes(list.subrange(0, i), reset_all);
        let tail_before = reset_register_writes(tail.drop_last(), reset_all);
        if list.last().is_reset(reset_all) {
            let write = EcWrite::of_byte(list.last().register, list.last().reset_value.unwrap());
            assert((head_writes + tail_before).push(write) =~= head_writes + tail_before.push(
                write,
            ));
        }
    }
}

/// The writes for a list of fans are those for its first `i` fans followed
/// by those for the rest.
pub proof fn lemma_reset_fan_writes_split(
    list: Seq<FanWriteView>,
    reset_all: bool,
    words: bool,
    i: int,
)
    requires
        0 <= i <= list.len(),
    ensures
        reset_fan_writes(list, reset_all, words) == reset_fan_writes(
            list.subrange(0, i),
            reset_all,
            words,
        ) + reset_fan_writes(list.subrange(i, list.len() as int), reset_all, words),
    decreases list.len(),
{
    let tail = list.subrange(i, list.len() as int);
    if i == list.len() {
        assert(list.subrange(0, i) =~= list);
        assert(reset_fan_writes(tail, reset_all, words) =~= Seq::empty());
        assert(reset_fan_writes(list, reset_all, words) + Seq::empty() =~= reset_fan_writes(
            list,
            reset_all,
            words,
        ));
    } else {
        let shorter = list.drop_last();
        lemma_reset_fan_writes_split(shorter, reset_all, words, i);
        assert(shorter.subrange(0, i) =~= list.subrange(0, i));
        assert(shorter.subrange(i, shorter.len() as int) =~= tail.drop_last());
        assert(tail.last() == list.last());
        let head_writes = reset_fan_writes(list.subrange(0, i), reset_all, words);
        let tail_before = reset_fan_writes(tail.drop_last(), reset_all, words);
        if list.last().is_reset(reset_all) {
            let write = EcWrite::of_value(
                list.last().write_register,
                list.last().reset_value.unwrap(),
                words,
            );
            assert((head_writes + tail_before).push(write) =~= head_writes + tail_before.push(
                write,
            ));
        }
    }
}

/// A reset writes each register once: the writes for a list are those for
/// the registers before the `i`th, then the reset value of the `i`th, once,
/// where a reset writes it, and nothing where it does not, then those for
/// the registers after it.
pub proof fn lemma_reset_writes_each_register_once(
    list: Seq<RegisterWrite>,
    reset_all: bool,
    i: int,
)
    requires
        0 <= i < list.len(),
    ensures
        reset_register_writes(list, reset_all) == reset_register_writes(
            list.subrange(0, i),
            reset_all,
        ) + (if list[i].is_reset(reset_all) {
            seq![EcWrite::of_byte(list[i].register, list[i].reset_value.unwrap())]
        } else {
            Seq::empty()
        }) + reset_register_writes(list.subrange(i + 1, list.len() as int), reset_all),
{
    let tail = list.subrange(i, list.len() as int);
    lemma_reset_register_writes_split(list, reset_all, i);
    lemma_reset_register_writes_split(tail, reset_all, 1);
    assert(tail.subrange(1, tail.len() as int) =~= list.subrange(i + 1, list.len() as int));
    let one = tail.subrange(0, 1);
    assert(one.last() == list[i]);
    assert(one.drop_last() =~= Seq::<RegisterWrite>::empty());
    assert(reset_register_writes(one.drop_last(), reset_all) =~= Seq::empty());
    let middle = if list[i].is_reset(reset_all) {
        seq![EcWrite::of_byte(list[i].register, list[i].reset_value.unwrap())]
    } else {
        Seq::empty()
    };
    assert(reset_register_writes(one, reset_all) =~= middle);
    let head_writes = reset_register_writes(list.subrange(0, i), reset_all);
    let rest_writes = reset_register_writes(list.subrange(i + 1, list.len() as int), reset_all);
    assert(head_writes + (middle + rest_writes) =~= head_writes + middle + rest_writes);
}

/// A reset writes each fan once: the writes for a list are those for the
/// fans before the `i`th, then the reset value of the `i`th, once, where a
/// reset writes it, and nothing where it does not, then those for the fans
/// after it.
pub proof fn lemma_reset_writes_each_fan_once(
    list: Seq<FanWriteView>,
    reset_all: bool,
    words: bool,
    i: int,
)
    requires
        0 <= i < list.len(),
    ensures
        reset_fan_writes(list, reset_all, words) == reset_fan_writes(
            list.subrange(0, i),
            reset_all,
            words,
        ) + (if list[i].is_reset(reset_all) {
            seq![EcWrite::of_value(list[i].write_register, list[i].reset_value.unwrap(), words)]
        } else {
            Seq::empty()
        }) + reset_fan_writes(list.subrange(i + 1, list.len() as int), reset_all, words),
{
    let tail = list.subrange(i, list.len() as int);
    lemma_reset_fan_writes_split(list, reset_all, words, i);
    lemma_reset_fan_writes_split(tail, reset_all, words, 1);
    assert(tail.subrange(1, tail.len() as int) =~= list.subrange(i + 1, list.len() as int));
    let one = tail.subrange(0, 1);
    assert(one.last() == list[i]);
    assert(one.drop_last() =~= Seq::<FanWriteView>::empty());
    assert(reset_fan_writes(one.drop_last(), reset_all, words) =~= Seq::empty());
    let middle = if list[i].is_reset(reset_all) {
        seq![EcWrite::of_value(list[i].write_register, list[i].reset_value.unwrap(), words)]
    } else {
        Seq::empty()
    };
    assert(reset_fan_writes(one, reset_all, words) =~= middle);
    let head_writes = reset_fan_writes(list.subrange(0, i), reset_all, words);
    let rest_writes = reset_fan_writes(list.subrange(i + 1, list.len() as int), reset_all, words);
    assert(head_writes + (middle + rest_writes) =~= head_writes + middle + rest_writes);
}

/// The number of writes of a reset is the number of registers that it
/// writes: no register is written twice and no write is made for a register
/// that the reset leaves alone.
pub proof fn lemma_reset_register_writes_count(list: Seq<RegisterWrite>, reset_all: bool)
    ensures
        reset_register_writes(list, reset_all).len() == list.filter(
            |r: RegisterWrite| r.is_reset(reset_all),
        ).len(),
    decreases list.len(),
{
    reveal(Seq::filter);
    if list.len() > 0 {
        lemma_reset_register_writes_count(list.drop_last(), reset_all);
    }
}

/// The number of fan writes of a reset is the number of fans that it writes.
pub proof fn lemma_reset_fan_writes_count(list: Seq<FanWriteView>, reset_all: bool, words: bool)
    ensures
        reset_fan_writes(list, reset_all, words).len() == list.filter(
            |f: FanWriteView| f.is_reset(reset_all),
        ).len(),
    decreases list.len(),
{
    reveal(Seq::filter);
    if list.len() > 0 {
        lemma_reset_fan_writes_count(list.drop_last(), reset_all, words);
    }
}

} // verus!
