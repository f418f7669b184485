use fancy_core::config::service::ECAccessMode;
use fancy_core::error::{ConfigFormat, ErrorKind};
use fancy_core::check::CheckControlConfigError;
use fancy_core::state::State;
use fancy_core::temp::SensorReading;

fn pct(percent: f64) -> i32 {
    (percent * 1000.0).round() as i32
}

fn speeds(list: &[f64]) -> Vec<i32> {
    list.iter().map(|s| pct(*s)).collect()
}

#[test]
fn connection_getters() {
    let dummy_fans_speeds = speeds(&[50., 35., 23.]);
    let dummy_target_fans_speeds = speeds(&[90., 85., 75.]);
    let dummy_temps = vec![SensorReading { name: "CPU".to_owned(), millidegrees: 26_000 }];
    let dummy_config = String::from("Dummy config");
    let state = State {
        ec_access_mode: ECAccessMode::Either,
        fans_speeds: dummy_fans_speeds.clone(),
        target_fans_speeds: dummy_target_fans_speeds.clone(),
        auto: true,
        critical: false,
        config: dummy_config,
        temps: dummy_temps.clone(),
        poll_interval: 0,
        fans_names: vec!["dummy".to_string()],
        check_control_config: false,
        ..Default::default()
    };

    assert_eq!(state.fans_speeds(), dummy_fans_speeds);
    assert_eq!(state.target_fans_speeds(), dummy_target_fans_speeds);
    assert_eq!(&*state.config(), "Dummy config");
    assert_eq!(state.critical(), false);
    assert_eq!(state.auto(), true);
    assert_eq!(state.temperatures(), dummy_temps);
    assert_eq!(state.poll_interval(), 0);
    assert_eq!(state.fans_names(), vec!["dummy".to_string()]);
}

#[test]
fn connection_setters() {
    let dummy_target_fans_speeds = speeds(&[90., 85., 75.]);
    let mut state = State {
        target_fans_speeds: speeds(&[0., 0., 0.]),
        fans_speeds: speeds(&[0., 0., 0.]),
        ..Default::default()
    };

    assert!(state.set_target_fans_speeds(dummy_target_fans_speeds.clone()).is_ok());
    assert_eq!(&state.target_fans_speeds, &dummy_target_fans_speeds);

    assert!(state.set_auto(true).is_ok());
    assert_eq!(state.auto, true);
}

#[test]
fn connection_set_target_fans_speeds() {
    let mut state = State {
        target_fans_speeds: speeds(&[0., 0., 0.]),
        fans_speeds: speeds(&[0., 0., 0.]),
        ..Default::default()
    };
    let dummy_target_speeds = speeds(&[3., 2., 10.]);

    assert!(state.set_target_fans_speeds(dummy_target_speeds.clone()).is_ok());
    assert!(state.target_fans_speeds == dummy_target_speeds);

    let invalid_target_speeds = speeds(&[102., 1023., 1244.]);
    assert!(state.set_target_fans_speeds(invalid_target_speeds).is_err());

    let invalid_number_speeds = speeds(&[0.]);
    assert!(state.set_target_fans_speeds(invalid_number_speeds).is_err());
    assert!(state.target_fans_speeds == dummy_target_speeds);
}

#[test]
fn connection_out_of_bounds_target_speeds() {
    let mut state = State { ..Default::default() };
    let dummy_target_speeds = speeds(&[-35., 0., 100., 24.54, 26.12]);

    assert!(state.set_target_fans_speeds(dummy_target_speeds).is_err());
}

#[test]
fn a_speed_below_zero_is_turned_down_among_as_many_fans() {
    let mut state = State {
        target_fans_speeds: speeds(&[1., 1., 1., 1., 1.]),
        fans_speeds: speeds(&[0., 0., 0., 0., 0.]),
        ..Default::default()
    };
    assert_eq!(
        state.set_target_fans_speeds(speeds(&[-35., 0., 100., 24.54, 26.12])),
        Err(ErrorKind::InvalidArgument)
    );
    assert_eq!(state.target_fans_speeds, speeds(&[1., 1., 1., 1., 1.]));
    assert_eq!(state.set_target_fans_speeds(speeds(&[0., 0., 100., 24.54, 26.12])), Ok(()));
    assert_eq!(state.target_fans_speeds, vec![0, 0, 100_000, 24_540, 26_120]);
    assert_eq!(
        state.set_target_fans_speeds(speeds(&[0., 0., 100.001, 24.54, 26.12])),
        Err(ErrorKind::InvalidArgument)
    );
}

#[test]
fn the_speed_of_one_fan_is_checked_and_noted() {
    let mut state = State {
        target_fans_speeds: speeds(&[0., 0., 0.]),
        fans_speeds: speeds(&[0., 0., 0.]),
        ..Default::default()
    };
    state.auto = true;
    assert_eq!(state.set_target_fan_speed(3, pct(50.0)), Err(ErrorKind::InvalidArgument));
    assert_eq!(state.set_target_fan_speed(0, pct(100.5)), Err(ErrorKind::InvalidArgument));
    assert_eq!(state.set_target_fan_speed(0, pct(-0.5)), Err(ErrorKind::InvalidArgument));
    assert!(!state.manual_set_target_speeds);
    assert!(state.auto);
    assert_eq!(state.target_fans_speeds, vec![0, 0, 0]);
    assert_eq!(state.set_target_fan_speed(2, pct(42.5)), Ok(()));
    assert_eq!(state.set_target_fan_speed(0, pct(100.0)), Ok(()));
    assert_eq!(state.target_fans_speeds, vec![100_000, 0, 42_500]);
    assert!(state.manual_set_target_speeds);
    assert!(!state.auto);
}

#[test]
fn a_configuration_that_failed_is_not_taken() {
    let mut state = State { config: "old".to_string(), ..Default::default() };
    for kind in [
        ErrorKind::ConfigNotFound,
        ErrorKind::ConfigInvalidName,
        ErrorKind::ConfigParse(ConfigFormat::Json),
        ErrorKind::ConfigValidation(CheckControlConfigError::MaxFanSpeedThresholdRequired),
    ] {
        assert_eq!(state.set_config("new".to_string(), Err(kind)), Err(kind));
        assert_eq!(state.config(), "old");
    }
    assert_eq!(state.set_config("new".to_string(), Ok(())), Ok(()));
    assert_eq!(state.config(), "new");
}

#[test]
fn a_state_starts_empty() {
    let state = State::default();
    assert_eq!(state.ec_access_mode, ECAccessMode::Either);
    assert!(state.fans_speeds().is_empty());
    assert!(state.target_fans_speeds().is_empty());
    assert!(state.fans_names().is_empty());
    assert!(state.temperatures().is_empty());
    assert_eq!(state.config(), "");
    assert!(!state.auto() && !state.critical());
}
