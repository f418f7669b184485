//! The control loop: the state that it owns and what it does on each event.
//!
//! The loop is a function from a state and an event to the next state and a
//! list of register transfers. The caller waits for events and hands each
//! one to [`ECManager::event_handler`]; when the polling interval has passed
//! it hands the samples of the sensors to [`ECManager::tick`]. Either way it
//! carries out the transfers that come back and hands the bytes that a read
//! delivered to [`ECManager::read_fan_speed`].

use vstd::prelude::*;

use crate::config::service::TempComputeMethod;
use crate::ec_control::ec_rw::{EcRead, EcWrite};
use crate::ec_control::fan::{select_index, sort_by_down, sort_thresholds, Fan};
use crate::ec_control::read::{ECReader, ECReaderView};
use crate::ec_control::write::{ECWriter, ECWriterView};
use crate::error::ErrorKind;
use crate::nbfc::{
    fan_views, FanConfiguration, FanConfigurationView, FanControlConfigV2, FanControlConfigView,
    TemperatureThreshold,
};
use crate::temp::{driving_temperature, driving_temperature_spec, reading_views, SensorReading};
use crate::text::{default_fan_name, make_default_fan_name};
use crate::units::{
    clamp_speed, clamp_speed_spec, speed_in_bounds, whole_degrees, whole_degrees_spec, FULL_SPEED,
};

verus! {

/// Number of degrees by which the temperature has to fall below the
/// critical temperature before the fans leave full speed again.
pub const CRITICAL_INTERVAL: u8 = 10;

/// The polling interval of a loop that has no configuration: it never polls.
pub const INFINITE_INTERVAL: u64 = 0xffff_ffff_ffff_ffff;

/// What a [`Fan`] holds.
pub struct FanView {
    pub name: Seq<char>,
    pub index: usize,
    pub thresholds: Seq<TemperatureThreshold>,
    pub current_threshold: usize,
    pub fan_speed: i32,
    pub last_written_speed: Option<i32>,
}

impl View for Fan {
    type V = FanView;

    open spec fn view(&self) -> FanView {
        FanView {
            name: self.name@,
            index: self.index,
            thresholds: self.thresholds@,
            current_threshold: self.current_threshold,
            fan_speed: self.fan_speed,
            last_written_speed: self.last_written_speed,
        }
    }
}

impl FanView {
    /// Whether the level of the fan is one of its curve.
    pub open spec fn wf(self) -> bool {
        if self.thresholds.len() == 0 {
            self.current_threshold == 0
        } else {
            self.current_threshold < self.thresholds.len()
        }
    }

    /// The fan of a configuration before anything is known of it: at its
    /// first level, its curve ordered by lower bound, named as the
    /// configuration says or, where it says nothing, by its number.
    pub open spec fn of(fan: FanConfigurationView, index: usize) -> FanView {
        FanView {
            name: match fan.fan_display_name {
                Some(name) => name,
                None => default_fan_name(index as nat + 1),
            },
            index,
            thresholds: sort_by_down(fan.temperature_thresholds),
            current_threshold: 0,
            fan_speed: 0,
            last_written_speed: None,
        }
    }
}

/// The views of a list of fans.
pub open spec fn loop_fans(fans: Seq<Fan>) -> Seq<FanView> {
    Seq::new(fans.len(), |i: int| fans[i]@)
}

/// The stage of the control loop.
#[derive(Clone, Copy, Debug, PartialEq, Eq, Structural)]
pub enum Phase {
    /// No configuration is installed.
    Idle,
    /// A configuration is installed and the fans are driven.
    Running,
    /// The controller has been handed back.
    Stopping,
}

/// Events that come from the clients of the daemon.
#[derive(Clone, Copy, Debug, PartialEq, Eq, Structural)]
pub enum ManagerEvent {
    /// A client asks for a speed of a fan, in thousandths of a percent.
    TargetSpeed(u8, i32),
    /// A client switches the automatic mode on or off.
    Auto(bool),
    /// A client asks for the speed of a fan to be read.
    QuerySpeed(usize),
}

/// Events external to the manager.
#[derive(Clone, Debug, PartialEq)]
pub enum ExternalEvent {
    /// The sensors report a temperature, in thousandths of a degree.
    TempChange(i32),
    /// A configuration has been loaded and is to be installed.
    RefreshConfig(FanControlConfigV2),
    /// The daemon is asked to end.
    Shutdown,
}

/// What the control loop reacts to.
#[derive(Clone, Debug, PartialEq)]
pub enum Event {
    Manager(ManagerEvent),
    External(ExternalEvent),
}

/// What an [`Event`] holds.
pub enum EventView {
    TargetSpeed(u8, i32),
    Auto(bool),
    QuerySpeed(usize),
    TempChange(i32),
    RefreshConfig(FanControlConfigView),
    Shutdown,
}

impl View for Event {
    type V = EventView;

    open spec fn view(&self) -> EventView {
        match *self {
            Event::Manager(ManagerEvent::TargetSpeed(index, speed)) => EventView::TargetSpeed(
                index,
                speed,
            ),
            Event::Manager(ManagerEvent::Auto(auto)) => EventView::Auto(auto),
            Event::Manager(ManagerEvent::QuerySpeed(index)) => EventView::QuerySpeed(index),
            Event::External(ExternalEvent::TempChange(sample)) => EventView::TempChange(sample),
            Event::External(ExternalEvent::RefreshConfig(config)) => EventView::RefreshConfig(
                config@,
            ),
            Event::External(ExternalEvent::Shutdown) => EventView::Shutdown,
        }
    }
}

/// The read that delivers the speed of a fan.
#[derive(Clone, Copy, Debug, PartialEq, Eq, Structural)]
pub struct FanRead {
    pub fan_index: usize,
    pub request: EcRead,
}

/// The writes that set a fan to a speed.
#[derive(Clone, Debug, PartialEq)]
pub struct SpeedWrite {
    pub fan_index: usize,
    /// The speed, in thousandths of a percent.
    pub speed: i32,
    pub writes: Vec<EcWrite>,
}

/// What a [`SpeedWrite`] holds.
pub struct SpeedWriteView {
    pub fan_index: usize,
    pub speed: i32,
    pub writes: Seq<EcWrite>,
}

impl View for SpeedWrite {
    type V = SpeedWriteView;

    open spec fn view(&self) -> SpeedWriteView {
        SpeedWriteView { fan_index: self.fan_index, speed: self.speed, writes: self.writes@ }
    }
}

/// The views of a list of speed writes.
pub open spec fn speed_write_views(list: Seq<SpeedWrite>) -> Seq<SpeedWriteView> {
    Seq::new(list.len(), |i: int| list[i]@)
}

/// Whether the fans run at full speed whatever their curves say, at `temp`
/// and given whether they did so before.
///
/// The state is entered when the temperature reaches the critical
/// temperature and left when it is more than [`CRITICAL_INTERVAL`] degrees
/// below it.
pub open spec fn next_critical(critical: bool, critical_temperature: u8, temp: u8) -> bool {
    if critical {
        critical_temperature - temp <= CRITICAL_INTERVAL
    } else {
        temp >= critical_temperature
    }
}

/// Manages accesses to the embedded controller: the state of the control
/// loop.
#[derive(Clone, Debug, PartialEq)]
pub struct ECManager {
    pub fans: Vec<Fan>,
    /// The speed that a client asked for, for each fan.
    pub targets: Vec<Option<i32>>,
    /// Whether the curves drive the fans even where a client asked for a
    /// speed.
    pub auto: bool,
    /// Time between two rounds, in milliseconds.
    pub poll_interval: u64,
    pub critical_temperature: u8,
    /// Temperature last reported, in whole degrees.
    pub current_temperature: u8,
    pub critical: bool,
    /// Whether a client has asked for a speed since the flag was last
    /// cleared.
    pub manual_target_dirty: bool,
    pub phase: Phase,
    pub reader: ECReader,
    pub writer: ECWriter,
}

/// What an [`ECManager`] holds.
pub struct ECManagerView {
    pub fans: Seq<FanView>,
    pub targets: Seq<Option<i32>>,
    pub auto: bool,
    pub poll_interval: u64,
    pub critical_temperature: u8,
    pub current_temperature: u8,
    pub critical: bool,
    pub manual_target_dirty: bool,
    pub phase: Phase,
    pub reader: ECReaderView,
    pub writer: ECWriterView,
}

impl View for ECManager {
    type V = ECManagerView;

    open spec fn view(&self) -> ECManagerView {
        ECManagerView {
            fans: loop_fans(self.fans@),
            targets: self.targets@,
            auto: self.auto,
            poll_interval: self.poll_interval,
            critical_temperature: self.critical_temperature,
            current_temperature: self.current_temperature,
            critical: self.critical,
            manual_target_dirty: self.manual_target_dirty,
            phase: self.phase,
            reader: self.reader@,
            writer: self.writer@,
        }
    }
}

/// What the caller has to do after an event.
#[derive(Clone, Debug, PartialEq)]
pub enum Step {
    /// Nothing.
    Wait,
    /// Make the reads and hand what each delivers to
    /// [`ECManager::read_fan_speed`]; then make the writes, fan by fan. A
    /// fan whose transfer fails is left out for this round.
    Round { reads: Vec<FanRead>, writes: Vec<SpeedWrite> },
    /// Make the writes and, if they all succeed, go on with `next` as the
    /// state of the loop. If one fails, the state stays as it is.
    Install { next: ECManager, plan: Vec<EcWrite> },
    /// Tell the client that its value is not accepted.
    Reject(ErrorKind),
    /// Make the writes and end the loop.
    Stop { plan: Vec<EcWrite> },
}

/// What a [`Step`] holds.
pub enum StepView {
    Wait,
    Round { reads: Seq<FanRead>, writes: Seq<SpeedWriteView> },
    Install { next: ECManagerView, plan: Seq<EcWrite> },
    Reject(ErrorKind),
    Stop { plan: Seq<EcWrite> },
}

impl View for Step {
    type V = StepView;

    open spec fn view(&self) -> StepView {
        match *self {
            Step::Wait => StepView::Wait,
            Step::Round { reads, writes } => StepView::Round {
                reads: reads@,
                writes: speed_write_views(writes@),
            },
            Step::Install { next, plan } => StepView::Install { next: next@, plan: plan@ },
            Step::Reject(kind) => StepView::Reject(kind),
            Step::Stop { plan } => StepView::Stop { plan: plan@ },
        }
    }
}

/// The targets of a loop after a configuration with `count` fans is
/// installed: those that there were, as far as there are fans for them, and
/// none for the fans beyond.
pub open spec fn resized_targets(targets: Seq<Option<i32>>, count: nat) -> Seq<Option<i32>> {
    Seq::new(
        count,
        |i: int|
            if i < targets.len() {
                targets[i]
            } else {
                None
            },
    )
}

/// The fans of a configuration before anything is known of them.
pub open spec fn fresh_fans(fans: Seq<FanConfigurationView>) -> Seq<FanView> {
    Seq::new(fans.len(), |i: int| FanView::of(fans[i], i as usize))
}

impl ECManagerView {
    /// Whether the parts of the state fit together: there is a target, a
    /// set of read parameters and a set of write parameters for each fan,
    /// and each fan knows its place and is at a level of its curve.
    pub open spec fn wf(self) -> bool {
        &&& self.targets.len() == self.fans.len()
        &&& self.reader.fans_read_config.len() == self.fans.len()
        &&& self.writer.fans_write_config.len() == self.fans.len()
        &&& forall|i: int|
            0 <= i < self.fans.len() ==> (#[trigger] self.fans[i]).wf() && self.fans[i].index == i
    }

    /// The level of a fan after a decision on its speed. The level moves
    /// only where the curve decides.
    pub open spec fn level_after(self, i: int) -> usize {
        let fan = self.fans[i];
        if self.critical {
            fan.current_threshold
        } else if !self.auto && self.targets[i].is_some() {
            fan.current_threshold
        } else if fan.thresholds.len() == 0 {
            fan.current_threshold
        } else {
            select_index(fan.thresholds, fan.current_threshold as int, self.current_temperature) as usize
        }
    }

    /// The speed to write to a fan, if any:
    ///
    /// - full speed, while the temperature is critical;
    /// - else the speed that a client asked for, limited to the range from
    ///   0 % to 100 %, where the automatic mode is off and a client asked
    ///   for one;
    /// - else the speed of the level that the curve chooses at the current
    ///   temperature, where that level differs from the one before, and none
    ///   where it does not.
    pub open spec fn speed_for(self, i: int) -> Option<i32> {
        let fan = self.fans[i];
        if self.critical {
            Some(FULL_SPEED)
        } else if !self.auto && self.targets[i].is_some() {
            Some(clamp_speed_spec(self.targets[i].unwrap()))
        } else if fan.thresholds.len() == 0 {
            None
        } else if self.level_after(i) != fan.current_threshold {
            Some(fan.thresholds[self.level_after(i) as int].fan_speed)
        } else {
            None
        }
    }

    /// A fan after a decision on its speed.
    pub open spec fn fan_after(self, i: int) -> FanView {
        let fan = self.fans[i];
        FanView {
            current_threshold: self.level_after(i),
            last_written_speed: match self.speed_for(i) {
                Some(speed) => Some(speed),
                None => fan.last_written_speed,
            },
            ..fan
        }
    }

    /// The writes for a fan after a decision on its speed, if it gets a
    /// speed.
    pub open spec fn speed_write(self, i: int) -> Option<SpeedWriteView> {
        match self.speed_for(i) {
            Some(speed) => Some(
                SpeedWriteView {
                    fan_index: i as usize,
                    speed,
                    writes: self.writer.speed_plan(i, speed),
                },
            ),
            None => None,
        }
    }

    /// The state after a decision on the speed of one fan.
    pub open spec fn after_write(self, i: int) -> ECManagerView {
        ECManagerView { fans: self.fans.update(i, self.fan_after(i)), ..self }
    }

    /// The state after a decision on the speed of every fan.
    pub open spec fn after_round(self) -> ECManagerView {
        ECManagerView { fans: Seq::new(self.fans.len(), |i: int| self.fan_after(i)), ..self }
    }

    /// The writes of a round for the first `count` fans, fan by fan.
    pub open spec fn round_writes(self, count: int) -> Seq<SpeedWriteView>
        decreases count,
    {
        if count <= 0 {
            Seq::empty()
        } else {
            match self.speed_write(count - 1) {
                Some(write) => self.round_writes(count - 1).push(write),
                None => self.round_writes(count - 1),
            }
        }
    }

    /// The reads of a round: one for each fan.
    pub open spec fn round_reads(self) -> Seq<FanRead> {
        Seq::new(
            self.fans.len(),
            |i: int| FanRead { fan_index: i as usize, request: self.reader.request(i) },
        )
    }

    /// The state after the sensors reported `temp`.
    pub open spec fn after_temp(self, temp: u8) -> ECManagerView {
        ECManagerView {
            critical: next_critical(self.critical, self.critical_temperature, temp),
            current_temperature: temp,
            ..self
        }
    }

    /// The state after the raw value `raw` was read for a fan.
    pub open spec fn after_read(self, i: int, raw: u16) -> ECManagerView {
        ECManagerView {
            fans: self.fans.update(
                i,
                FanView { fan_speed: self.reader.speed_percent(i, raw), ..self.fans[i] },
            ),
            ..self
        }
    }

    /// The state in which a configuration is installed. The targets are
    /// kept as far as there are fans for them, the automatic mode stays as
    /// it is, and the fans run at full speed until a temperature that
    /// allows less is reported.
    pub open spec fn install(self, config: FanControlConfigView) -> ECManagerView {
        ECManagerView {
            fans: fresh_fans(config.fan_configurations),
            targets: resized_targets(self.targets, config.fan_configurations.len()),
            auto: self.auto,
            poll_interval: config.ec_poll_interval,
            critical_temperature: config.critical_temperature,
            current_temperature: self.current_temperature,
            critical: true,
            manual_target_dirty: self.manual_target_dirty,
            phase: Phase::Running,
            reader: ECReaderView::of(config.read_write_words, config.fan_configurations),
            writer: ECWriterView::of(
                config.read_write_words,
                config.registers(),
                config.fan_configurations,
            ),
        }
    }

    /// The outcome of a client asking for a speed of one fan: the speed is
    /// taken, the automatic mode is switched off and the flag is raised; or
    /// the request is turned down because there is no such fan or the speed
    /// is not between 0 % and 100 %.
    pub open spec fn with_target(self, index: u8, speed: i32) -> Result<ECManagerView, ErrorKind> {
        if index >= self.fans.len() || !speed_in_bounds(speed) {
            Err(ErrorKind::InvalidArgument)
        } else {
            Ok(
                ECManagerView {
                    targets: self.targets.update(index as int, Some(speed)),
                    auto: false,
                    manual_target_dirty: true,
                    ..self
                },
            )
        }
    }

    /// The outcome of a client asking for a speed of every fan: the speeds
    /// are taken; or the request is turned down because there is not one
    /// speed for each fan or a speed is not between 0 % and 100 %.
    pub open spec fn with_targets(self, speeds: Seq<i32>) -> Result<ECManagerView, ErrorKind> {
        if speeds.len() != self.fans.len() || exists|i: int|
            0 <= i < speeds.len() && !speed_in_bounds(#[trigger] speeds[i]) {
            Err(ErrorKind::InvalidArgument)
        } else {
            Ok(
                ECManagerView {
                    targets: Seq::new(speeds.len(), |i: int| Some(speeds[i])),
                    ..self
                },
            )
        }
    }
}


impl ECManagerView {
    /// The state and the step after a round: a speed is decided for every
    /// fan, every fan is to be read, and the fans that got a speed are to be
    /// written. Outside the running stage nothing happens.
    pub open spec fn round(self) -> (ECManagerView, StepView) {
        if self.phase == Phase::Running {
            (
                self.after_round(),
                StepView::Round {
                    reads: self.round_reads(),
                    writes: self.round_writes(self.fans.len() as int),
                },
            )
        } else {
            (self, StepView::Wait)
        }
    }

    /// The state and the step after the polling interval has passed and the
    /// sensors were read: the temperature that drives the fans is taken note
    /// of, if the samples give one, the temperature is judged critical or
    /// not, and a round follows.
    pub open spec fn tick(self, temperature: Option<int>) -> (ECManagerView, StepView) {
        if self.phase == Phase::Running {
            match temperature {
                Some(sample) => self.after_temp(whole_degrees_spec(sample as i32)).round(),
                None => self.round(),
            }
        } else {
            (self, StepView::Wait)
        }
    }

    /// The state and the step after an event, or, where `event` is absent,
    /// after the polling interval has passed without news of the sensors.
    ///
    /// Before a configuration is installed, only the arrival of one and the
    /// end of the daemon have an effect. Once the controller has been
    /// handed back, nothing has. In between:
    ///
    /// - the passing of the polling interval starts a round;
    /// - a temperature is taken note of, and judged critical or not;
    /// - a change of the automatic mode is taken note of;
    /// - a speed asked for by a client is taken note of;
    /// - a query reads that fan;
    /// - a configuration is prepared for installation;
    /// - the end of the daemon hands every register back that has a reset
    ///   value.
    ///
    /// What a client asks for shows in the writes of the next round.
    pub open spec fn handle(self, event: Option<EventView>) -> (ECManagerView, StepView) {
        let count = self.fans.len() as int;
        match self.phase {
            Phase::Stopping => (self, StepView::Wait),
            Phase::Idle => match event {
                Some(EventView::RefreshConfig(config)) => (
                    self,
                    StepView::Install {
                        next: self.install(config),
                        plan: self.install(config).writer.init_plan(),
                    },
                ),
                Some(EventView::Shutdown) => (
                    ECManagerView { phase: Phase::Stopping, ..self },
                    StepView::Stop { plan: Seq::empty() },
                ),
                _ => (self, StepView::Wait),
            },
            Phase::Running => match event {
                None => self.round(),
                Some(EventView::TempChange(sample)) => (
                    self.after_temp(whole_degrees_spec(sample)),
                    StepView::Wait,
                ),
                Some(EventView::Auto(auto)) => (ECManagerView { auto, ..self }, StepView::Wait),
                Some(EventView::TargetSpeed(index, speed)) => match self.with_target(index, speed) {
                    Ok(noted) => (noted, StepView::Wait),
                    Err(kind) => (self, StepView::Reject(kind)),
                },
                Some(EventView::QuerySpeed(index)) => if index < count {
                    (
                        self,
                        StepView::Round {
                            reads: seq![
                                FanRead {
                                    fan_index: index,
                                    request: self.reader.request(index as int),
                                },
                            ],
                            writes: Seq::empty(),
                        },
                    )
                } else {
                    (self, StepView::Reject(ErrorKind::InvalidArgument))
                },
                Some(EventView::RefreshConfig(config)) => (
                    self,
                    StepView::Install {
                        next: self.install(config),
                        plan: self.install(config).writer.init_plan(),
                    },
                ),
                Some(EventView::Shutdown) => (
                    ECManagerView { phase: Phase::Stopping, ..self },
                    StepView::Stop { plan: self.writer.reset_plan(true) },
                ),
            },
        }
    }
}

/// The view of an optional event.
pub open spec fn opt_event_view(event: Option<Event>) -> Option<EventView> {
    match event {
        Some(e) => Some(e@),
        None => None,
    }
}

/// Builds the fans of a configuration before anything is known of them.
fn build_fans(fan_configs: &Vec<FanConfiguration>) -> (fans: Vec<Fan>)
    ensures
        loop_fans(fans@) == fresh_fans(fan_views(fan_configs@)),
{
    let mut fans: Vec<Fan> = Vec::new();
    let mut i: usize = 0;
    while i < fan_configs.len()
        invariant
            i <= fan_configs.len(),
            fans@.len() == i,
            forall|k: int|
                0 <= k < i ==> (#[trigger] fans@[k])@ == FanView::of(
                    fan_configs@[k]@,
                    k as usize,
                ),
        decreases fan_configs.len() - i,
    {
        let config = &fan_configs[i];
        let name = match &config.fan_display_name {
            Some(name) => name.clone(),
            None => make_default_fan_name(i + 1),
        };
        fans.push(
            Fan {
                name,
                index: i,
                thresholds: sort_thresholds(&config.temperature_thresholds),
                current_threshold: 0,
                fan_speed: 0,
                last_written_speed: None,
            },
        );
        i += 1;
    }
    proof {
        assert(loop_fans(fans@) =~= fresh_fans(fan_views(fan_configs@)));
    }
    fans
}

/// Keeps the targets as far as there are fans for them.
fn resize_targets(targets: &Vec<Option<i32>>, count: usize) -> (resized: Vec<Option<i32>>)
    ensures
        resized@ == resized_targets(targets@, count as nat),
{
    let mut resized: Vec<Option<i32>> = Vec::new();
    let mut i: usize = 0;
    while i < count
        invariant
            i <= count,
            resized@.len() == i,
            forall|k: int|
                0 <= k < i ==> #[trigger] resized@[k] == (if k < targets@.len() {
                    targets@[k]
                } else {
                    None
                }),
        decreases count - i,
    {
        if i < targets.len() {
            resized.push(targets[i]);
        } else {
            resized.push(None);
        }
        i += 1;
    }
    proof {
        assert(resized@ =~= resized_targets(targets@, count as nat));
    }
    resized
}

impl ECManager {
    /// Whether the parts of the state fit together.
    pub open spec fn wf(&self) -> bool {
        self@.wf()
    }

    /// The state of a loop before a configuration is installed: no fans,
    /// the automatic mode on, and the temperature taken for critical until
    /// the sensors say otherwise.
    pub fn new() -> (manager: ECManager)
        ensures
            manager.wf(),
            manager@ == (ECManagerView {
                fans: Seq::empty(),
                targets: Seq::empty(),
                auto: true,
                poll_interval: INFINITE_INTERVAL,
                critical_temperature: 0,
                current_temperature: 100,
                critical: true,
                manual_target_dirty: false,
                phase: Phase::Idle,
                reader: ECReaderView { read_words: false, fans_read_config: Seq::empty() },
                writer: ECWriterView {
                    on_write_reg_confs: Seq::empty(),
                    init_reg_confs: Seq::empty(),
                    fans_write_config: Seq::empty(),
                    write_words: false,
                },
            }),
    {
        let manager = ECManager {
            fans: Vec::new(),
            targets: Vec::new(),
            auto: true,
            poll_interval: INFINITE_INTERVAL,
            critical_temperature: 0,
            current_temperature: 100,
            critical: true,
            manual_target_dirty: false,
            phase: Phase::Idle,
            reader: ECReader::new(),
            writer: ECWriter::new(),
        };
        proof {
            assert(manager@.fans =~= Seq::empty());
        }
        manager
    }

    /// Prepares the installation of a configuration: returns the state in
    /// which it is installed and the writes that make the controller ready
    /// for it. The state at hand stays as it is, so that it can be kept
    /// where a write fails.
    ///
    /// A client's target is kept for every fan that had one and still
    /// exists.
    pub fn refresh_control_config(&self, c: &FanControlConfigV2) -> (installed: (
        ECManager,
        Vec<EcWrite>,
    ))
        ensures
            installed.0@ == self@.install(c@),
            installed.1@ == self@.install(c@).writer.init_plan(),
            installed.0.wf(),
            forall|i: int|
                0 <= i < self.targets@.len() && i < c.fan_configurations@.len()
                    ==> installed.0.targets@[i] == self.targets@[i],
    {
        let fans = build_fans(&c.fan_configurations);
        let targets = resize_targets(&self.targets, c.fan_configurations.len());
        let mut reader = ECReader::new();
        reader.refresh_config(c.read_write_words, &c.fan_configurations);
        let mut writer = ECWriter::new();
        let registers = match &c.register_write_configurations {
            Some(list) => Some(crate::nbfc::copy_registers(list)),
            None => None,
        };
        let plan = writer.refresh_config(c.read_write_words, registers, &c.fan_configurations);
        let next = ECManager {
            fans,
            targets,
            auto: self.auto,
            poll_interval: c.ec_poll_interval,
            critical_temperature: c.critical_temperature,
            current_temperature: self.current_temperature,
            critical: true,
            manual_target_dirty: self.manual_target_dirty,
            phase: Phase::Running,
            reader,
            writer,
        };
        proof {
            let model = self@.install(c@);
            assert(c@.fan_configurations == fan_views(c.fan_configurations@));
            assert(next@.fans == model.fans);
            assert(next@.targets == model.targets);
            assert(next@.reader == model.reader);
            assert(next@.writer == model.writer);
            assert(next@ == model);
        }
        (next, plan)
    }

    /// Takes note of a temperature, given in whole degrees, and decides
    /// whether it is critical.
    pub fn update_temp(&mut self, temp: u8)
        ensures
            final(self)@ == old(self)@.after_temp(temp),
            old(self).wf() ==> final(self).wf(),
    {
        self.critical = if self.critical {
            temp >= self.critical_temperature || self.critical_temperature - temp
                <= CRITICAL_INTERVAL
        } else {
            temp >= self.critical_temperature
        };
        self.current_temperature = temp;
    }

    /// Switches the automatic mode on or off.
    pub fn set_auto(&mut self, auto: bool)
        ensures
            final(self)@ == (ECManagerView { auto, ..old(self)@ }),
            old(self).wf() ==> final(self).wf(),
    {
        self.auto = auto;
    }

    /// Takes the speed that a client asks for of one fan, in thousandths of
    /// a percent, and switches the automatic mode off. A fan that does not
    /// exist and a speed outside the range from 0 % to 100 % are turned
    /// down, and nothing changes.
    pub fn set_target_fan_speed(&mut self, index: u8, speed: i32) -> (outcome: Result<
        (),
        ErrorKind,
    >)
        requires
            old(self).wf(),
        ensures
            final(self).wf(),
            match old(self)@.with_target(index, speed) {
                Ok(state) => outcome.is_ok() && final(self)@ == state,
                Err(kind) => outcome == Err::<(), _>(kind) && final(self)@ == old(self)@,
            },
    {
        if index as usize >= self.fans.len() {
            return Err(ErrorKind::InvalidArgument);
        }
        if speed < 0 || speed > FULL_SPEED {
            return Err(ErrorKind::InvalidArgument);
        }
        self.targets[index as usize] = Some(speed);
        self.auto = false;
        self.manual_target_dirty = true;
        Ok(())
    }

    /// Takes the speeds that a client asks for of all fans. A list that
    /// does not hold one speed for each fan, or holds a speed outside the
    /// range from 0 % to 100 %, is turned down, and nothing changes.
    pub fn set_target_fans_speeds(&mut self, value: &Vec<i32>) -> (outcome: Result<(), ErrorKind>)
        requires
            old(self).wf(),
        ensures
            final(self).wf(),
            match old(self)@.with_targets(value@) {
                Ok(state) => outcome.is_ok() && final(self)@ == state,
                Err(kind) => outcome == Err::<(), _>(kind) && final(self)@ == old(self)@,
            },
    {
        if value.len() != self.fans.len() {
            return Err(ErrorKind::InvalidArgument);
        }
        let ghost before = self@;
        let mut targets: Vec<Option<i32>> = Vec::new();
        let mut i: usize = 0;
        while i < value.len()
            invariant
                i <= value.len(),
                self@ == before,
                before.wf(),
                before.fans.len() == value@.len(),
                targets@.len() == i,
                forall|k: int| 0 <= k < i ==> speed_in_bounds(#[trigger] value@[k]),
                forall|k: int| 0 <= k < i ==> #[trigger] targets@[k] == Some(value@[k]),
            decreases value.len() - i,
        {
            if value[i] < 0 || value[i] > FULL_SPEED {
                return Err(ErrorKind::InvalidArgument);
            }
            targets.push(Some(value[i]));
            i += 1;
        }
        proof {
            assert(targets@ =~= Seq::new(value@.len(), |k: int| Some(value@[k])));
        }
        self.targets = targets;
        Ok(())
    }

    /// Gives the speed that a client asked for, for each fan.
    pub fn target_speeds(&self) -> (speeds: Vec<Option<i32>>)
        ensures
            speeds@ == self.targets@,
    {
        let mut speeds: Vec<Option<i32>> = Vec::new();
        let mut i: usize = 0;
        while i < self.targets.len()
            invariant
                i <= self.targets@.len(),
                speeds@ == self.targets@.subrange(0, i as int),
            decreases self.targets@.len() - i,
        {
            speeds.push(self.targets[i]);
            proof {
                assert(speeds@ =~= self.targets@.subrange(0, i + 1));
            }
            i += 1;
        }
        proof {
            assert(self.targets@.subrange(0, self.targets@.len() as int) =~= self.targets@);
        }
        speeds
    }

    /// Decides on the speed of one fan and returns the writes that set it,
    /// if the fan gets a speed.
    ///
    /// While the temperature is critical the fan gets full speed, whatever
    /// a client asked for and whether or not the automatic mode is on.
    pub fn write_fan_speed(&mut self, fan_index: usize) -> (write: Option<SpeedWrite>)
        requires
            old(self).wf(),
            fan_index < old(self).fans@.len(),
        ensures
            final(self).wf(),
            final(self)@ == old(self)@.after_write(fan_index as int),
            match write {
                Some(w) => old(self)@.speed_write(fan_index as int) == Some(w@),
                None => old(self)@.speed_write(fan_index as int).is_none(),
            },
            old(self).critical ==> write.is_some() && write.unwrap().speed == FULL_SPEED,
    {
        let ghost before = self@;
        assert(before.fans[fan_index as int] == self.fans@[fan_index as int]@);
        assert(before.fans[fan_index as int].wf());
        let speed: Option<i32> = if self.critical {
            Some(FULL_SPEED)
        } else if !self.auto && self.targets[fan_index].is_some() {
            Some(clamp_speed(self.targets[fan_index].unwrap()))
        } else if self.fans[fan_index].thresholds.len() == 0 {
            None
        } else {
            let temp = self.current_temperature;
            proof {
                crate::ec_control::fan::lemma_select_in_range(
                    self.fans@[fan_index as int].thresholds@,
                    self.fans@[fan_index as int].current_threshold as int,
                    temp,
                );
            }
            self.fans[fan_index].refresh_fan_threshold(temp)
        };
        assert(speed == before.speed_for(fan_index as int));
        assert(self.fans@[fan_index as int].current_threshold == before.level_after(
            fan_index as int,
        ));
        let write = match speed {
            Some(value) => {
                self.fans[fan_index].last_written_speed = Some(value);
                let writes = self.writer.write_speed_percent(fan_index, value);
                Some(SpeedWrite { fan_index, speed: value, writes })
            },
            None => None,
        };
        proof {
            assert(self.fans@[fan_index as int]@ == before.fan_after(fan_index as int));
            assert(self@.fans =~= before.fans.update(
                fan_index as int,
                before.fan_after(fan_index as int),
            ));
            assert forall|i: int| 0 <= i < self@.fans.len() implies (#[trigger] self@.fans[i]).wf()
                && self@.fans[i].index == i by {
                if i != fan_index {
                    assert(self@.fans[i] == before.fans[i]);
                }
            }
        }
        write
    }

    /// Decides on the speed of every fan, in order, and returns the writes
    /// that set the speeds of those that get one.
    pub fn write_speeds(&mut self) -> (writes: Vec<SpeedWrite>)
        requires
            old(self).wf(),
        ensures
            final(self).wf(),
            final(self)@ == old(self)@.after_round(),
            speed_write_views(writes@) == old(self)@.round_writes(old(self)@.fans.len() as int),
            old(self).critical ==> writes@.len() == old(self).fans@.len() && forall|k: int|
                0 <= k < writes@.len() ==> (#[trigger] writes@[k]).speed == FULL_SPEED
                    && writes@[k].fan_index == k,
    {
        let ghost before = self@;
        let count = self.fans.len();
        let mut writes: Vec<SpeedWrite> = Vec::new();
        let mut i: usize = 0;
        proof {
            assert(before.fans =~= Seq::new(
                before.fans.len(),
                |k: int|
                    if k < 0 {
                        before.fan_after(k)
                    } else {
                        before.fans[k]
                    },
            ));
            assert(speed_write_views(writes@) =~= before.round_writes(0));
        }
        while i < count
            invariant
                i <= count,
                count == before.fans.len(),
                before.wf(),
                self.wf(),
                self@ == (ECManagerView {
                    fans: Seq::new(
                        before.fans.len(),
                        |k: int|
                            if k < i {
                                before.fan_after(k)
                            } else {
                                before.fans[k]
                            },
                    ),
                    ..before
                }),
                speed_write_views(writes@) == before.round_writes(i as int),
                before.critical ==> writes@.len() == i && forall|k: int|
                    0 <= k < writes@.len() ==> (#[trigger] writes@[k]).speed == FULL_SPEED
                        && writes@[k].fan_index == k,
            decreases count - i,
        {
            let ghost mid = self@;
            let ghost shown = speed_write_views(writes@);
            assert(mid.fans[i as int] == before.fans[i as int]);
            assert(mid.speed_for(i as int) == before.speed_for(i as int));
            assert(mid.fan_after(i as int) == before.fan_after(i as int));
            assert(mid.speed_write(i as int) == before.speed_write(i as int));
            let write = self.write_fan_speed(i);
            match write {
                Some(w) => {
                    writes.push(w);
                    proof {
                        assert(speed_write_views(writes@) =~= shown.push(w@));
                    }
                },
                None => {
                    proof {
                        assert(speed_write_views(writes@) =~= shown);
                    }
                },
            }
            proof {
                assert(self@.fans =~= Seq::new(
                    before.fans.len(),
                    |k: int|
                        if k < i + 1 {
                            before.fan_after(k)
                        } else {
                            before.fans[k]
                        },
                ));
            }
            i += 1;
        }
        proof {
            assert(self@.fans =~= before.after_round().fans);
        }
        writes
    }

    /// Gives the reads of a round: the speed of each fan, in order.
    pub fn read_speeds(&self) -> (reads: Vec<FanRead>)
        requires
            self.wf(),
        ensures
            reads@ == self@.round_reads(),
    {
        let mut reads: Vec<FanRead> = Vec::new();
        let mut i: usize = 0;
        while i < self.fans.len()
            invariant
                i <= self.fans@.len(),
                self.wf(),
                reads@.len() == i,
                forall|k: int|
                    0 <= k < i ==> #[trigger] reads@[k] == (FanRead {
                        fan_index: k as usize,
                        request: self@.reader.request(k),
                    }),
            decreases self.fans@.len() - i,
        {
            reads.push(FanRead { fan_index: i, request: self.reader.read_request(i) });
            i += 1;
        }
        proof {
            assert(reads@ =~= self@.round_reads());
        }
        reads
    }

    /// Takes note of the speed of a fan from the bytes that its read
    /// delivered, and returns the speed in thousandths of a percent.
    pub fn read_fan_speed(&mut self, fan_index: usize, bytes: &[u8]) -> (speed: i32)
        requires
            old(self).wf(),
            fan_index < old(self).fans@.len(),
        ensures
            final(self).wf(),
            final(self)@ == old(self)@.after_read(
                fan_index as int,
                old(self)@.reader.value(bytes@),
            ),
            speed == old(self)@.reader.speed_percent(
                fan_index as int,
                old(self)@.reader.value(bytes@),
            ),
            0 <= speed <= FULL_SPEED,
    {
        let ghost before = self@;
        assert(before.fans[fan_index as int] == self.fans@[fan_index as int]@);
        let raw = self.reader.read_value(bytes);
        let speed = self.reader.read_speed_percent(fan_index, raw);
        self.fans[fan_index].fan_speed = speed;
        proof {
            assert(self@.fans =~= before.after_read(fan_index as int, raw).fans);
            assert forall|i: int| 0 <= i < self@.fans.len() implies (#[trigger] self@.fans[i]).wf()
                && self@.fans[i].index == i by {
                if i != fan_index {
                    assert(self@.fans[i] == before.fans[i]);
                }
            }
        }
        speed
    }

    /// Returns the writes that hand the controller back, including the
    /// registers that do not ask for a reset when `reset_all` is true.
    pub fn reset_ec(&self, reset_all: bool) -> (plan: Vec<EcWrite>)
        ensures
            plan@ == self@.writer.reset_plan(reset_all),
    {
        self.writer.reset(reset_all)
    }

    /// Makes a round: decides on the speed of every fan and says which
    /// reads and writes the caller has to make.
    pub fn round(&mut self) -> (step: Step)
        requires
            old(self).wf(),
        ensures
            final(self).wf(),
            (final(self)@, step@) == old(self)@.round(),
    {
        match self.phase {
            Phase::Running => {
                let reads = self.read_speeds();
                let writes = self.write_speeds();
                Step::Round { reads, writes }
            },
            _ => Step::Wait,
        }
    }

    /// Makes the step that is due when the polling interval has passed:
    /// computes the temperature that drives the fans from the samples of the
    /// sensors, judges it, and makes a round. Where no sample counts, the
    /// temperature stays what it was.
    pub fn tick(&mut self, samples: &Vec<SensorReading>, method: TempComputeMethod) -> (step: Step)
        requires
            old(self).wf(),
        ensures
            final(self).wf(),
            (final(self)@, step@) == old(self)@.tick(
                driving_temperature_spec(reading_views(samples@), method),
            ),
    {
        match self.phase {
            Phase::Running => {
                match driving_temperature(samples, method) {
                    Some(sample) => {
                        self.update_temp(whole_degrees(sample));
                    },
                    None => {},
                }
                self.round()
            },
            _ => Step::Wait,
        }
    }

    /// Makes one step of the control loop: takes an event, or the passing
    /// of the polling interval where `event` is absent, moves to the next
    /// state and says what the caller has to do.
    pub fn event_handler(&mut self, event: Option<Event>) -> (step: Step)
        requires
            old(self).wf(),
        ensures
            final(self).wf(),
            (final(self)@, step@) == old(self)@.handle(opt_event_view(event)),
    {
        match self.phase {
            Phase::Stopping => Step::Wait,
            Phase::Idle => match event {
                Some(Event::External(ExternalEvent::RefreshConfig(config))) => {
                    let (next, plan) = self.refresh_control_config(&config);
                    Step::Install { next, plan }
                },
                Some(Event::External(ExternalEvent::Shutdown)) => {
                    self.phase = Phase::Stopping;
                    let plan: Vec<EcWrite> = Vec::new();
                    let step = Step::Stop { plan };
                    proof {
                        assert(plan@ =~= Seq::empty());
                    }
                    step
                },
                _ => Step::Wait,
            },
            Phase::Running => match event {
                None => self.round(),
                Some(Event::External(ExternalEvent::TempChange(sample))) => {
                    self.update_temp(whole_degrees(sample));
                    Step::Wait
                },
                Some(Event::Manager(ManagerEvent::Auto(auto))) => {
                    self.set_auto(auto);
                    Step::Wait
                },
                Some(Event::Manager(ManagerEvent::TargetSpeed(index, speed))) => {
                    match self.set_target_fan_speed(index, speed) {
                        Ok(()) => Step::Wait,
                        Err(kind) => Step::Reject(kind),
                    }
                },
                Some(Event::Manager(ManagerEvent::QuerySpeed(index))) => {
                    if index < self.fans.len() {
                        let mut reads: Vec<FanRead> = Vec::new();
                        reads.push(
                            FanRead { fan_index: index, request: self.reader.read_request(index) },
                        );
                        let writes: Vec<SpeedWrite> = Vec::new();
                        proof {
                            assert(reads@ =~= seq![
                                FanRead {
                                    fan_index: index,
                                    request: self@.reader.request(index as int),
                                },
                            ]);
                            assert(speed_write_views(writes@) =~= Seq::empty());
                        }
                        Step::Round { reads, writes }
                    } else {
                        Step::Reject(ErrorKind::InvalidArgument)
                    }
                },
                Some(Event::External(ExternalEvent::RefreshConfig(config))) => {
                    let (next, plan) = self.refresh_control_config(&config);
                    Step::Install { next, plan }
                },
                Some(Event::External(ExternalEvent::Shutdown)) => {
                    let plan = self.reset_ec(true);
                    self.phase = Phase::Stopping;
                    Step::Stop { plan }
                },
            },
        }
    }
}

/// While the temperature is critical every fan gets full speed: the writes
/// of a round are one for each fan, in order, each for 100 %, whatever the
/// clients asked for and whether or not the automatic mode is on.
pub proof fn lemma_critical_round_is_full_speed(state: ECManagerView, count: int)
    requires
        state.critical,
        0 <= count <= state.fans.len(),
    ensures
        state.round_writes(count).len() == count,
        forall|k: int|
            0 <= k < count ==> (#[trigger] state.round_writes(count)[k]) == (SpeedWriteView {
                fan_index: k as usize,
                speed: FULL_SPEED,
                writes: state.writer.speed_plan(k, FULL_SPEED),
            }),
    decreases count,
{
    if count > 0 {
        lemma_critical_round_is_full_speed(state, count - 1);
        assert(state.speed_for(count - 1) == Some(FULL_SPEED));
    }
}

/// Whether a list of writes sets each of `count` fans, in order, to 100 %.
pub open spec fn all_full_speed(writes: Seq<SpeedWriteView>, count: nat) -> bool {
    &&& writes.len() == count
    &&& forall|k: int|
        0 <= k < writes.len() ==> (#[trigger] writes[k]).speed == FULL_SPEED && writes[k].fan_index
            == k
}

/// Every write of a round is for 100 % while the temperature is critical,
/// whatever the clients asked for and whether or not the automatic mode is
/// on.
pub proof fn lemma_critical_round_forces_full_speed(state: ECManagerView)
    requires
        state.phase == Phase::Running,
        state.fans.len() <= usize::MAX,
        state.critical,
    ensures
        state.round().0.critical,
        match state.round().1 {
            StepView::Round { reads, writes } => all_full_speed(writes, state.fans.len()),
            _ => false,
        },
{
    lemma_critical_round_is_full_speed(state, state.fans.len() as int);
    let writes = state.round_writes(state.fans.len() as int);
    assert forall|k: int| 0 <= k < writes.len() implies (#[trigger] writes[k]).speed == FULL_SPEED
        && writes[k].fan_index == k by {}
}

/// Every write of the round that follows the reading of the sensors is for
/// 100 % where the temperature that they give is critical.
pub proof fn lemma_critical_tick_forces_full_speed(state: ECManagerView, temperature: int)
    requires
        state.phase == Phase::Running,
        state.fans.len() <= usize::MAX,
        next_critical(
            state.critical,
            state.critical_temperature,
            whole_degrees_spec(temperature as i32),
        ),
    ensures
        state.tick(Some(temperature)).0.critical,
        match state.tick(Some(temperature)).1 {
            StepView::Round { reads, writes } => all_full_speed(writes, state.fans.len()),
            _ => false,
        },
{
    let noted = state.after_temp(whole_degrees_spec(temperature as i32));
    lemma_critical_round_forces_full_speed(noted);
}

/// What a client asks for of one fan is written in the next round: with
/// the automatic mode off and the temperature not critical, the round
/// writes the target of every fan that has one.
pub proof fn lemma_target_is_written_next_round(state: ECManagerView, index: u8, speed: i32)
    requires
        state.phase == Phase::Running,
        state.wf(),
        !state.critical,
        state.with_target(index, speed).is_ok(),
    ensures
        state.handle(Some(EventView::TargetSpeed(index, speed))).1 == StepView::Wait,
        state.handle(Some(EventView::TargetSpeed(index, speed))).0.speed_for(index as int) == Some(
            speed,
        ),
{
}

/// The installation of a configuration keeps the target of every fan that
/// there was and still is.
pub proof fn lemma_install_keeps_targets(state: ECManagerView, config: FanControlConfigView)
    requires
        state.wf(),
    ensures
        state.install(config).targets.len() == config.fan_configurations.len(),
        forall|i: int|
            0 <= i < state.fans.len() && i < config.fan_configurations.len()
                ==> #[trigger] state.install(config).targets[i] == state.targets[i],
{
}

/// The state in which a configuration is installed has its parts fitting
/// together, every fan at its first level.
pub proof fn lemma_install_is_wf(state: ECManagerView, config: FanControlConfigView)
    requires
        config.fan_configurations.len() <= usize::MAX,
    ensures
        state.install(config).wf(),
        state.install(config).fans.len() == config.fan_configurations.len(),
        forall|i: int|
            0 <= i < config.fan_configurations.len() ==> (#[trigger] state.install(
                config,
            ).fans[i]).current_threshold == 0,
{
}


/// The end of the daemon hands the controller back once: the step that
/// follows it writes the reset value of every register that has one, and no
/// step after that asks for anything.
pub proof fn lemma_shutdown_resets_once(state: ECManagerView, later: Option<EventView>)
    requires
        state.phase == Phase::Running,
    ensures
        state.handle(Some(EventView::Shutdown)).1 == (StepView::Stop {
            plan: state.writer.reset_plan(true),
        }),
        state.handle(Some(EventView::Shutdown)).0.phase == Phase::Stopping,
        state.handle(Some(EventView::Shutdown)).0.handle(later) == (
            state.handle(Some(EventView::Shutdown)).0,
            StepView::Wait,
        ),
        state.handle(Some(EventView::Shutdown)).0.round().1 == StepView::Wait,
{
}

} // verus!
