//! The properties that the daemon shows to its clients, and the checks on
//! what clients hand over.

use vstd::prelude::*;

use crate::config::service::ECAccessMode;
use crate::ec_control::ec_manager::ECManager;
use crate::error::ErrorKind;
use crate::temp::SensorReading;
use crate::units::{speed_in_bounds, FULL_SPEED};

verus! {

/// The properties of the daemon as its clients see them.
#[derive(Clone, Debug, PartialEq)]
pub struct State {
    pub ec_access_mode: ECAccessMode,
    /// Speed last read of each fan, in thousandths of a percent.
    pub fans_speeds: Vec<i32>,
    /// Speed asked for of each fan, in thousandths of a percent.
    pub target_fans_speeds: Vec<i32>,
    pub auto: bool,
    pub critical: bool,
    /// Name of the fan control configuration in use.
    pub config: String,
    pub temps: Vec<SensorReading>,
    /// Time between two rounds of the control loop, in milliseconds.
    pub poll_interval: u64,
    pub fans_names: Vec<String>,
    /// Whether a client has asked for the speed of a single fan.
    pub manual_set_target_speeds: bool,
    /// Whether a configuration is checked against the rules before it is
    /// taken.
    pub check_control_config: bool,
}

impl Default for State {
    /// The properties of a daemon without a configuration.
    fn default() -> (state: State)
        ensures
            state.ec_access_mode == ECAccessMode::Either,
            state.fans_speeds@.len() == 0,
            state.target_fans_speeds@.len() == 0,
            !state.auto,
            !state.critical,
            state.config@.len() == 0,
            state.temps@.len() == 0,
            state.poll_interval == 0,
            state.fans_names@.len() == 0,
            !state.manual_set_target_speeds,
            !state.check_control_config,
    {
        State {
            ec_access_mode: ECAccessMode::Either,
            fans_speeds: Vec::new(),
            target_fans_speeds: Vec::new(),
            auto: false,
            critical: false,
            config: String::new(),
            temps: Vec::new(),
            poll_interval: 0,
            fans_names: Vec::new(),
            manual_set_target_speeds: false,
            check_control_config: false,
        }
    }
}

/// The properties that clients can watch.
#[derive(Clone, Copy, Debug, PartialEq, Eq, Structural)]
pub enum Property {
    FansSpeeds,
    FansNames,
    TargetFansSpeeds,
    Auto,
    Critical,
    PollInterval,
}

/// The texts of a list of names.
pub open spec fn name_texts(names: Seq<String>) -> Seq<Seq<char>> {
    Seq::new(names.len(), |i: int| names[i]@)
}

/// The property, where `changed` says that it has changed, and nothing
/// where it has not.
pub open spec fn if_changed(changed: bool, property: Property) -> Seq<Property> {
    if changed {
        seq![property]
    } else {
        Seq::empty()
    }
}

/// Whether every speed of a list lies between 0 % and 100 %.
pub open spec fn all_in_bounds(speeds: Seq<i32>) -> bool {
    forall|i: int| 0 <= i < speeds.len() ==> speed_in_bounds(#[trigger] speeds[i])
}

/// The speeds that a manager holds as targets, a fan that no client asked a
/// speed for counting as one asked to run at full speed.
pub open spec fn shown_targets(targets: Seq<Option<i32>>) -> Seq<i32> {
    Seq::new(
        targets.len(),
        |i: int|
            match targets[i] {
                Some(speed) => speed,
                None => FULL_SPEED,
            },
    )
}

/// Tells whether two lists hold the same speeds.
fn same_speeds(a: &Vec<i32>, b: &Vec<i32>) -> (same: bool)
    ensures
        same == (a@ == b@),
{
    if a.len() != b.len() {
        return false;
    }
    let mut i: usize = 0;
    while i < a.len()
        invariant
            i <= a@.len(),
            a@.len() == b@.len(),
            forall|k: int| 0 <= k < i ==> a@[k] == b@[k],
        decreases a@.len() - i,
    {
        if a[i] != b[i] {
            return false;
        }
        i += 1;
    }
    proof {
        assert(a@ =~= b@);
    }
    true
}

/// Tells whether two lists hold the same names.
fn same_names(a: &Vec<String>, b: &Vec<String>) -> (same: bool)
    ensures
        same == (name_texts(a@) == name_texts(b@)),
{
    if a.len() != b.len() {
        proof {
            assert(name_texts(a@).len() != name_texts(b@).len());
        }
        return false;
    }
    let mut i: usize = 0;
    while i < a.len()
        invariant
            i <= a@.len(),
            a@.len() == b@.len(),
            forall|k: int| 0 <= k < i ==> a@[k]@ == b@[k]@,
        decreases a@.len() - i,
    {
        if a[i] != b[i] {
            proof {
                assert(name_texts(a@)[i as int] != name_texts(b@)[i as int]);
            }
            return false;
        }
        i += 1;
    }
    proof {
        assert(name_texts(a@) =~= name_texts(b@));
    }
    true
}

/// Lists the properties that have changed.
fn list_changes(
    speeds: bool,
    names: bool,
    targets: bool,
    auto: bool,
    critical: bool,
    interval: bool,
) -> (changed: Vec<Property>)
    ensures
        changed@ == if_changed(speeds, Property::FansSpeeds) + if_changed(
            names,
            Property::FansNames,
        ) + if_changed(targets, Property::TargetFansSpeeds) + if_changed(auto, Property::Auto)
            + if_changed(critical, Property::Critical) + if_changed(
            interval,
            Property::PollInterval,
        ),
{
    let mut changed: Vec<Property> = Vec::new();
    if speeds {
        changed.push(Property::FansSpeeds);
    }
    let ghost one = changed@;
    if names {
        changed.push(Property::FansNames);
    }
    let ghost two = changed@;
    if targets {
        changed.push(Property::TargetFansSpeeds);
    }
    let ghost three = changed@;
    if auto {
        changed.push(Property::Auto);
    }
    let ghost four = changed@;
    if critical {
        changed.push(Property::Critical);
    }
    let ghost five = changed@;
    if interval {
        changed.push(Property::PollInterval);
    }
    proof {
        assert(one =~= if_changed(speeds, Property::FansSpeeds));
        assert(two =~= one + if_changed(names, Property::FansNames));
        assert(three =~= two + if_changed(targets, Property::TargetFansSpeeds));
        assert(four =~= three + if_changed(auto, Property::Auto));
        assert(five =~= four + if_changed(critical, Property::Critical));
        assert(changed@ =~= five + if_changed(interval, Property::PollInterval));
    }
    changed
}

/// Copies a list of speeds.
fn copy_speeds(list: &Vec<i32>) -> (copy: Vec<i32>)
    ensures
        copy@ == list@,
{
    let mut copy: Vec<i32> = Vec::new();
    let mut i: usize = 0;
    while i < list.len()
        invariant
            i <= list@.len(),
            copy@ == list@.subrange(0, i as int),
        decreases list@.len() - i,
    {
        copy.push(list[i]);
        proof {
            assert(copy@ =~= list@.subrange(0, i + 1));
        }
        i += 1;
    }
    proof {
        assert(list@.subrange(0, list@.len() as int) =~= list@);
    }
    copy
}

impl State {
    /// Gives the speed last read of each fan.
    pub fn fans_speeds(&self) -> (speeds: Vec<i32>)
        ensures
            speeds@ == self.fans_speeds@,
    {
        copy_speeds(&self.fans_speeds)
    }

    /// Gives the speed asked for of each fan.
    pub fn target_fans_speeds(&self) -> (speeds: Vec<i32>)
        ensures
            speeds@ == self.target_fans_speeds@,
    {
        copy_speeds(&self.target_fans_speeds)
    }

    /// Takes the speeds that a client asks for of all fans. A list that
    /// does not hold one speed for each fan, or holds a speed outside the
    /// range from 0 % to 100 %, is turned down with `InvalidArgument`, and
    /// nothing changes.
    pub fn set_target_fans_speeds(&mut self, value: Vec<i32>) -> (outcome: Result<(), ErrorKind>)
        ensures
            outcome.is_ok() <==> (value@.len() == old(self).fans_speeds@.len()
                && all_in_bounds(value@)),
            outcome.is_err() ==> outcome == Err::<(), _>(ErrorKind::InvalidArgument) && *final(self)
                == *old(self),
            outcome.is_ok() ==> *final(self) == (State { target_fans_speeds: value, ..*old(self) }),
    {
        if value.len() != self.fans_speeds.len() {
            return Err(ErrorKind::InvalidArgument);
        }
        let mut i: usize = 0;
        while i < value.len()
            invariant
                i <= value@.len(),
                *self == *old(self),
                forall|k: int| 0 <= k < i ==> speed_in_bounds(#[trigger] value@[k]),
            decreases value@.len() - i,
        {
            if value[i] < 0 || value[i] > FULL_SPEED {
                return Err(ErrorKind::InvalidArgument);
            }
            i += 1;
        }
        self.target_fans_speeds = value;
        Ok(())
    }

    /// Takes the speed that a client asks for of one fan, switches the
    /// automatic mode off and notes that a client has asked. A fan that does
    /// not exist and a speed outside the range from 0 % to 100 % are turned
    /// down with `InvalidArgument`, and nothing changes.
    pub fn set_target_fan_speed(&mut self, index: u8, speed: i32) -> (outcome: Result<
        (),
        ErrorKind,
    >)
        ensures
            outcome.is_ok() <==> (index < old(self).target_fans_speeds@.len()
                && speed_in_bounds(speed)),
            outcome.is_err() ==> outcome == Err::<(), _>(ErrorKind::InvalidArgument) && *final(self)
                == *old(self),
            outcome.is_ok() ==> final(self).target_fans_speeds@ == old(self).target_fans_speeds@.update(
                index as int,
                speed,
            ),
            outcome.is_ok() ==> *final(self) == (State {
                target_fans_speeds: final(self).target_fans_speeds,
                manual_set_target_speeds: true,
                auto: false,
                ..*old(self)
            }),
    {
        if index as usize >= self.target_fans_speeds.len() {
            return Err(ErrorKind::InvalidArgument);
        }
        if speed < 0 || speed > FULL_SPEED {
            return Err(ErrorKind::InvalidArgument);
        }
        self.target_fans_speeds[index as usize] = speed;
        self.manual_set_target_speeds = true;
        self.auto = false;
        Ok(())
    }

    /// Gives the name of the configuration in use.
    pub fn config(&self) -> (name: String)
        ensures
            name == self.config,
    {
        self.config.clone()
    }

    /// Takes the name of a configuration that a client asks for, given the
    /// outcome of loading and checking that configuration. A configuration
    /// that failed is turned down with its own error, and nothing changes.
    pub fn set_config(&mut self, value: String, tested: Result<(), ErrorKind>) -> (outcome: Result<
        (),
        ErrorKind,
    >)
        ensures
            outcome.is_ok() <==> tested.is_ok(),
            tested.is_err() ==> outcome == tested,
            tested.is_ok() ==> *final(self) == (State { config: value, ..*old(self) }),
            tested.is_err() ==> *final(self) == *old(self),
    {
        match tested {
            Ok(()) => {
                self.config = value;
                Ok(())
            },
            Err(kind) => Err(kind),
        }
    }

    /// Tells whether the temperature is critical.
    pub fn critical(&self) -> (critical: bool)
        ensures
            critical == self.critical,
    {
        self.critical
    }

    /// Tells whether the automatic mode is on.
    pub fn auto(&self) -> (auto: bool)
        ensures
            auto == self.auto,
    {
        self.auto
    }

    /// Switches the automatic mode on or off.
    pub fn set_auto(&mut self, value: bool) -> (outcome: Result<(), ErrorKind>)
        ensures
            outcome.is_ok(),
            *final(self) == (State { auto: value, ..*old(self) }),
    {
        self.auto = value;
        Ok(())
    }

    /// Gives the samples of the sensors.
    pub fn temperatures(&self) -> (temps: Vec<SensorReading>)
        ensures
            temps@ == self.temps@,
    {
        let mut temps: Vec<SensorReading> = Vec::new();
        let mut i: usize = 0;
        while i < self.temps.len()
            invariant
                i <= self.temps@.len(),
                temps@ == self.temps@.subrange(0, i as int),
            decreases self.temps@.len() - i,
        {
            temps.push(
                SensorReading {
                    name: self.temps[i].name.clone(),
                    millidegrees: self.temps[i].millidegrees,
                },
            );
            proof {
                assert(temps@ =~= self.temps@.subrange(0, i + 1));
            }
            i += 1;
        }
        proof {
            assert(self.temps@.subrange(0, self.temps@.len() as int) =~= self.temps@);
        }
        temps
    }

    /// Gives the time between two rounds of the control loop.
    pub fn poll_interval(&self) -> (interval: u64)
        ensures
            interval == self.poll_interval,
    {
        self.poll_interval
    }

    /// Gives the name of each fan.
    pub fn fans_names(&self) -> (names: Vec<String>)
        ensures
            names@ == self.fans_names@,
    {
        let mut names: Vec<String> = Vec::new();
        let mut i: usize = 0;
        while i < self.fans_names.len()
            invariant
                i <= self.fans_names@.len(),
                names@ == self.fans_names@.subrange(0, i as int),
            decreases self.fans_names@.len() - i,
        {
            names.push(self.fans_names[i].clone());
            proof {
                assert(names@ =~= self.fans_names@.subrange(0, i + 1));
            }
            i += 1;
        }
        proof {
            assert(self.fans_names@.subrange(0, self.fans_names@.len() as int)
                =~= self.fans_names@);
        }
        names
    }

    /// The properties that change when the state takes over what a control
    /// loop knows, in the order of the variants of [`Property`].
    pub open spec fn changes(self, manager: ECManager) -> Seq<Property> {
        let speeds = Seq::new(manager.fans@.len(), |i: int| manager.fans@[i].fan_speed);
        let names = Seq::new(manager.fans@.len(), |i: int| manager.fans@[i].name@);
        if_changed(self.fans_speeds@ != speeds, Property::FansSpeeds) + if_changed(
            name_texts(self.fans_names@) != names,
            Property::FansNames,
        ) + if_changed(
            self.target_fans_speeds@ != shown_targets(manager.targets@),
            Property::TargetFansSpeeds,
        ) + if_changed(self.auto != manager.auto, Property::Auto) + if_changed(
            self.critical != manager.critical,
            Property::Critical,
        ) + if_changed(self.poll_interval != manager.poll_interval, Property::PollInterval)
    }

    /// Takes over what the control loop knows: the name and the speed of
    /// each fan, the targets, the polling interval, and whether the
    /// automatic mode is on and the temperature critical. Returns the
    /// properties that have changed, for the clients to be told.
    pub fn refresh_from(&mut self, manager: &ECManager) -> (changed: Vec<Property>)
        ensures
            changed@ == old(self).changes(*manager),
            final(self).fans_speeds@ == Seq::new(
                manager.fans@.len(),
                |i: int| manager.fans@[i].fan_speed,
            ),
            name_texts(final(self).fans_names@) == Seq::new(
                manager.fans@.len(),
                |i: int| manager.fans@[i].name@,
            ),
            final(self).target_fans_speeds@ == shown_targets(manager.targets@),
            final(self).auto == manager.auto,
            final(self).critical == manager.critical,
            final(self).poll_interval == manager.poll_interval,
            final(self).manual_set_target_speeds == manager.manual_target_dirty,
            final(self).config == old(self).config,
            final(self).temps == old(self).temps,
            final(self).check_control_config == old(self).check_control_config,
            final(self).ec_access_mode == old(self).ec_access_mode,
    {
        let mut speeds: Vec<i32> = Vec::new();
        let mut names: Vec<String> = Vec::new();
        let mut i: usize = 0;
        while i < manager.fans.len()
            invariant
                i <= manager.fans@.len(),
                speeds@.len() == i,
                names@.len() == i,
                forall|k: int| 0 <= k < i ==> #[trigger] speeds@[k] == manager.fans@[k].fan_speed,
                forall|k: int| 0 <= k < i ==> (#[trigger] names@[k])@ == manager.fans@[k].name@,
            decreases manager.fans@.len() - i,
        {
            speeds.push(manager.fans[i].fan_speed);
            names.push(manager.fans[i].name.clone());
            i += 1;
        }
        let mut targets: Vec<i32> = Vec::new();
        let mut j: usize = 0;
        while j < manager.targets.len()
            invariant
                j <= manager.targets@.len(),
                targets@.len() == j,
                forall|k: int|
                    0 <= k < j ==> #[trigger] targets@[k] == shown_targets(manager.targets@)[k],
            decreases manager.targets@.len() - j,
        {
            targets.push(
                match manager.targets[j] {
                    Some(speed) => speed,
                    None => FULL_SPEED,
                },
            );
            j += 1;
        }
        proof {
            assert(speeds@ =~= Seq::new(manager.fans@.len(), |i: int| manager.fans@[i].fan_speed));
            assert(name_texts(names@) =~= Seq::new(
                manager.fans@.len(),
                |i: int| manager.fans@[i].name@,
            ));
            assert(targets@ =~= shown_targets(manager.targets@));
        }
        let speeds_changed = !same_speeds(&self.fans_speeds, &speeds);
        let names_changed = !same_names(&self.fans_names, &names);
        let targets_changed = !same_speeds(&self.target_fans_speeds, &targets);
        let changed = list_changes(
            speeds_changed,
            names_changed,
            targets_changed,
            self.auto != manager.auto,
            self.critical != manager.critical,
            self.poll_interval != manager.poll_interval,
        );
        self.fans_speeds = speeds;
        self.fans_names = names;
        self.target_fans_speeds = targets;
        self.auto = manager.auto;
        self.critical = manager.critical;
        self.poll_interval = manager.poll_interval;
        self.manual_set_target_speeds = manager.manual_target_dirty;
        changed
    }
}

} // verus!
