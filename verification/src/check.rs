//! Validation of a fan control configuration.

use vstd::prelude::*;
use vstd::string::StringExecFns;

use crate::nbfc::{fan_views, FanControlConfigV2, FanControlConfigView, TemperatureThreshold};
use crate::units::FULL_SPEED;

verus! {

/// The rule that a rejected configuration breaks.
#[derive(Clone, Copy, Debug, PartialEq, Eq, Structural)]
pub enum CheckControlConfigError {
    /// The configuration has no fan.
    FanConfigurationsNotEmpty,
    /// A fan has no threshold at which it runs at full speed.
    MaxFanSpeedThresholdRequired,
    /// Two thresholds of a fan have the same lower bound.
    NoDuplicateTemperatureUpThresholds,
    /// A threshold has its upper bound below its lower bound.
    UpThresholdMayNotBeLowerThanDownThreshold,
    /// A threshold has its upper bound above the critical temperature.
    UpThresholdsMustBeLowerThanCriticalTemperature,
}

impl CheckControlConfigError {
    /// The sentence that describes the broken rule.
    pub open spec fn message_spec(self) -> Seq<char> {
        match self {
            CheckControlConfigError::FanConfigurationsNotEmpty => "There should be at least one fan configuration"@,
            CheckControlConfigError::MaxFanSpeedThresholdRequired => "There should be at least one threshold with the maximum fan speed"@,
            CheckControlConfigError::NoDuplicateTemperatureUpThresholds => "There shouldn't be any duplicate up thresholds"@,
            CheckControlConfigError::UpThresholdMayNotBeLowerThanDownThreshold => "Up threshold can't be lower than down threshold"@,
            CheckControlConfigError::UpThresholdsMustBeLowerThanCriticalTemperature => "Up threshold must be lower than critical temperature"@,
        }
    }

    /// Describes the broken rule in a sentence.
    pub fn to_string(&self) -> (message: String)
        ensures
            message@ == self.message_spec(),
    {
        String::from_str(
            match self {
                CheckControlConfigError::FanConfigurationsNotEmpty => "There should be at least one fan configuration",
                CheckControlConfigError::MaxFanSpeedThresholdRequired => "There should be at least one threshold with the maximum fan speed",
                CheckControlConfigError::NoDuplicateTemperatureUpThresholds => "There shouldn't be any duplicate up thresholds",
                CheckControlConfigError::UpThresholdMayNotBeLowerThanDownThreshold => "Up threshold can't be lower than down threshold",
                CheckControlConfigError::UpThresholdsMustBeLowerThanCriticalTemperature => "Up threshold must be lower than critical temperature",
            },
        )
    }
}

/// Whether a curve has a threshold at which the fan runs at full speed.
pub open spec fn has_full_speed(thresholds: Seq<TemperatureThreshold>) -> bool {
    exists|i: int| 0 <= i < thresholds.len() && (#[trigger] thresholds[i]).fan_speed == FULL_SPEED
}

/// Whether two thresholds of a curve have the same lower bound.
pub open spec fn has_duplicate_down(thresholds: Seq<TemperatureThreshold>) -> bool {
    exists|i: int, j: int|
        0 <= i < j < thresholds.len() && (#[trigger] thresholds[i]).down_threshold == (
        #[trigger] thresholds[j]).down_threshold
}

/// Whether a threshold of a curve has its upper bound below its lower bound.
pub open spec fn has_up_below_down(thresholds: Seq<TemperatureThreshold>) -> bool {
    exists|i: int|
        0 <= i < thresholds.len() && (#[trigger] thresholds[i]).up_threshold
            < thresholds[i].down_threshold
}

/// Whether a threshold of a curve has its upper bound above `critical`.
pub open spec fn has_up_above(thresholds: Seq<TemperatureThreshold>, critical: u8) -> bool {
    exists|i: int| 0 <= i < thresholds.len() && (#[trigger] thresholds[i]).up_threshold > critical
}

impl FanControlConfigView {
    /// Whether every fan has a threshold at which it runs at full speed.
    pub open spec fn every_fan_reaches_full_speed(self) -> bool {
        forall|k: int|
            0 <= k < self.fan_configurations.len() ==> has_full_speed(
                (#[trigger] self.fan_configurations[k]).temperature_thresholds,
            )
    }

    /// Whether no fan has two thresholds with the same lower bound.
    pub open spec fn no_duplicate_downs(self) -> bool {
        forall|k: int|
            0 <= k < self.fan_configurations.len() ==> !has_duplicate_down(
                (#[trigger] self.fan_configurations[k]).temperature_thresholds,
            )
    }

    /// Whether every threshold has its upper bound at or above its lower
    /// bound.
    pub open spec fn ups_not_below_downs(self) -> bool {
        forall|k: int|
            0 <= k < self.fan_configurations.len() ==> !has_up_below_down(
                (#[trigger] self.fan_configurations[k]).temperature_thresholds,
            )
    }

    /// Whether every threshold has its upper bound at or below the critical
    /// temperature.
    pub open spec fn ups_within_critical(self) -> bool {
        forall|k: int|
            0 <= k < self.fan_configurations.len() ==> !has_up_above(
                (#[trigger] self.fan_configurations[k]).temperature_thresholds,
                self.critical_temperature,
            )
    }

    /// Whether the configuration keeps all five rules.
    pub open spec fn is_valid(self) -> bool {
        &&& self.fan_configurations.len() > 0
        &&& self.every_fan_reaches_full_speed()
        &&& self.no_duplicate_downs()
        &&& self.ups_not_below_downs()
        &&& self.ups_within_critical()
    }

    /// The outcome of the check: the first rule, in the order of the error's
    /// variants, that the configuration breaks.
    pub open spec fn check(self) -> Result<(), CheckControlConfigError> {
        if self.fan_configurations.len() == 0 {
            Err(CheckControlConfigError::FanConfigurationsNotEmpty)
        } else if !self.every_fan_reaches_full_speed() {
            Err(CheckControlConfigError::MaxFanSpeedThresholdRequired)
        } else if !self.no_duplicate_downs() {
            Err(CheckControlConfigError::NoDuplicateTemperatureUpThresholds)
        } else if !self.ups_not_below_downs() {
            Err(CheckControlConfigError::UpThresholdMayNotBeLowerThanDownThreshold)
        } else if !self.ups_within_critical() {
            Err(CheckControlConfigError::UpThresholdsMustBeLowerThanCriticalTemperature)
        } else {
            Ok(())
        }
    }
}

/// Tells whether a curve has a threshold at which the fan runs at full speed.
fn curve_has_full_speed(thresholds: &Vec<TemperatureThreshold>) -> (found: bool)
    ensures
        found == has_full_speed(thresholds@),
{
    let mut i: usize = 0;
    while i < thresholds.len()
        invariant
            i <= thresholds.len(),
            forall|k: int| 0 <= k < i ==> (#[trigger] thresholds@[k]).fan_speed != FULL_SPEED,
        decreases thresholds.len() - i,
    {
        if thresholds[i].fan_speed == FULL_SPEED {
            return true;
        }
        i += 1;
    }
    false
}

/// Tells whether two thresholds of a curve have the same lower bound.
fn curve_has_duplicate_down(thresholds: &Vec<TemperatureThreshold>) -> (found: bool)
    ensures
        found == has_duplicate_down(thresholds@),
{
    let mut i: usize = 0;
    while i < thresholds.len()
        invariant
            i <= thresholds.len(),
            forall|a: int, b: int|
                0 <= a < i && a < b < thresholds.len() ==> (#[trigger] thresholds@[a]).down_threshold
                    != (#[trigger] thresholds@[b]).down_threshold,
        decreases thresholds.len() - i,
    {
        let mut j: usize = i + 1;
        while j < thresholds.len()
            invariant
                i < j <= thresholds.len(),
                forall|b: int|
                    i < b < j ==> thresholds@[i as int].down_threshold != (
                    #[trigger] thresholds@[b]).down_threshold,
            decreases thresholds.len() - j,
        {
            if thresholds[i].down_threshold == thresholds[j].down_threshold {
                return true;
            }
            j += 1;
        }
        i += 1;
    }
    false
}

/// Tells whether a threshold of a curve has its upper bound below its lower
/// bound.
fn curve_has_up_below_down(thresholds: &Vec<TemperatureThreshold>) -> (found: bool)
    ensures
        found == has_up_below_down(thresholds@),
{
    let mut i: usize = 0;
    while i < thresholds.len()
        invariant
            i <= thresholds.len(),
            forall|k: int|
                0 <= k < i ==> (#[trigger] thresholds@[k]).up_threshold
                    >= thresholds@[k].down_threshold,
        decreases thresholds.len() - i,
    {
        if thresholds[i].up_threshold < thresholds[i].down_threshold {
            return true;
        }
        i += 1;
    }
    false
}

/// Tells whether a threshold of a curve has its upper bound above `critical`.
fn curve_has_up_above(thresholds: &Vec<TemperatureThreshold>, critical: u8) -> (found: bool)
    ensures
        found == has_up_above(thresholds@, critical),
{
    let mut i: usize = 0;
    while i < thresholds.len()
        invariant
            i <= thresholds.len(),
            forall|k: int| 0 <= k < i ==> (#[trigger] thresholds@[k]).up_threshold <= critical,
        decreases thresholds.len() - i,
    {
        if thresholds[i].up_threshold > critical {
            return true;
        }
        i += 1;
    }
    false
}

/// Checks a configuration against the five rules:
///
/// 1. there is at least one fan;
/// 2. every fan has a threshold at which it runs at full speed;
/// 3. no two thresholds of a fan have the same lower bound;
/// 4. no threshold has its upper bound below its lower bound;
/// 5. no threshold has its upper bound above the critical temperature.
///
/// The error names the first rule, in this order, that is broken.
pub fn check_control_config(c: &FanControlConfigV2) -> (outcome: Result<
    (),
    CheckControlConfigError,
>)
    ensures
        outcome == c@.check(),
        outcome.is_ok() <==> c@.is_valid(),
{
    let fans = &c.fan_configurations;
    let ghost views = c@.fan_configurations;
    if fans.len() == 0 {
        return Err(CheckControlConfigError::FanConfigurationsNotEmpty);
    }
    let mut k: usize = 0;
    while k < fans.len()
        invariant
            k <= fans.len(),
            views == c@.fan_configurations,
            views == fan_views(fans@),
            views.len() == fans@.len(),
            forall|n: int|
                0 <= n < k ==> has_full_speed((#[trigger] views[n]).temperature_thresholds),
        decreases fans.len() - k,
    {
        assert(views[k as int] == fans@[k as int]@);
        if !curve_has_full_speed(&fans[k].temperature_thresholds) {
            return Err(CheckControlConfigError::MaxFanSpeedThresholdRequired);
        }
        k += 1;
    }
    k = 0;
    while k < fans.len()
        invariant
            k <= fans.len(),
            views == c@.fan_configurations,
            views == fan_views(fans@),
            views.len() == fans@.len(),
            c@.every_fan_reaches_full_speed(),
            forall|n: int|
                0 <= n < k ==> !has_duplicate_down((#[trigger] views[n]).temperature_thresholds),
        decreases fans.len() - k,
    {
        assert(views[k as int] == fans@[k as int]@);
        if curve_has_duplicate_down(&fans[k].temperature_thresholds) {
            return Err(CheckControlConfigError::NoDuplicateTemperatureUpThresholds);
        }
        k += 1;
    }
    k = 0;
    while k < fans.len()
        invariant
            k <= fans.len(),
            views == c@.fan_configurations,
            views == fan_views(fans@),
            views.len() == fans@.len(),
            c@.every_fan_reaches_full_speed(),
            c@.no_duplicate_downs(),
            forall|n: int|
                0 <= n < k ==> !has_up_below_down((#[trigger] views[n]).temperature_thresholds),
        decreases fans.len() - k,
    {
        assert(views[k as int] == fans@[k as int]@);
        if curve_has_up_below_down(&fans[k].temperature_thresholds) {
            return Err(CheckControlConfigError::UpThresholdMayNotBeLowerThanDownThreshold);
        }
        k += 1;
    }
    k = 0;
    while k < fans.len()
        invariant
            k <= fans.len(),
            views == c@.fan_configurations,
            views == fan_views(fans@),
            views.len() == fans@.len(),
            c@.every_fan_reaches_full_speed(),
            c@.no_duplicate_downs(),
            c@.ups_not_below_downs(),
            forall|n: int|
                0 <= n < k ==> !has_up_above(
                    (#[trigger] views[n]).temperature_thresholds,
                    c.critical_temperature,
                ),
        decreases fans.len() - k,
    {
        assert(views[k as int] == fans@[k as int]@);
        if curve_has_up_above(&fans[k].temperature_thresholds, c.critical_temperature) {
            return Err(CheckControlConfigError::UpThresholdsMustBeLowerThanCriticalTemperature);
        }
        k += 1;
    }
    Ok(())
}

/// The check accepts a configuration if and only if it keeps all five
/// rules, and each error stands for a rule that is broken.
pub proof fn lemma_check_matches_rules(config: FanControlConfigView)
    ensures
        config.check().is_ok() <==> config.is_valid(),
        config.check() == Err::<(), _>(CheckControlConfigError::FanConfigurationsNotEmpty)
            <==> config.fan_configurations.len() == 0,
        config.check() == Err::<(), _>(CheckControlConfigError::MaxFanSpeedThresholdRequired)
            ==> !config.every_fan_reaches_full_speed(),
        config.check() == Err::<(), _>(
            CheckControlConfigError::NoDuplicateTemperatureUpThresholds,
        ) ==> !config.no_duplicate_downs(),
        config.check() == Err::<(), _>(
            CheckControlConfigError::UpThresholdMayNotBeLowerThanDownThreshold,
        ) ==> !config.ups_not_below_downs(),
        config.check() == Err::<(), _>(
            CheckControlConfigError::UpThresholdsMustBeLowerThanCriticalTemperature,
        ) ==> !config.ups_within_critical(),
        !config.is_valid() ==> config.check().is_err(),
{
}

} // verus!
