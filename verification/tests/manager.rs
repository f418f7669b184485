use fancy_core::ec_control::ec_manager::{
    ECManager, Event, ExternalEvent, FanRead, ManagerEvent, Phase, SpeedWrite, Step,
    CRITICAL_INTERVAL, INFINITE_INTERVAL,
};
use fancy_core::ec_control::ec_rw::{EcRead, EcWrite};
use fancy_core::error::ErrorKind;
use fancy_core::nbfc::{
    FanConfiguration, FanControlConfigV2, FanSpeedPercentageOverride, OverrideTargetOperation,
    RegisterWriteConfiguration, RegisterWriteMode, RegisterWriteOccasion, TemperatureThreshold,
};
use fancy_core::config::service::TempComputeMethod;
use fancy_core::signals::{on_signal, SIGHUP, SIGINT, SIGQUIT, SIGTERM};
use fancy_core::temp::SensorReading;
use fancy_core::state::{Property, State};

fn pct(percent: f64) -> i32 {
    (percent * 1000.0).round() as i32
}

fn threshold(up: u8, down: u8, speed: f64) -> TemperatureThreshold {
    TemperatureThreshold { up_threshold: up, down_threshold: down, fan_speed: pct(speed) }
}

fn fan(name: Option<&str>, write_register: u8, read_register: u8) -> FanConfiguration {
    FanConfiguration {
        read_register,
        write_register,
        min_speed_value: 0,
        max_speed_value: 200,
        independent_read_min_max_values: false,
        min_speed_value_read: 0,
        max_speed_value_read: 0,
        reset_required: true,
        fan_speed_reset_value: Some(255),
        fan_display_name: name.map(|n| n.to_string()),
        temperature_thresholds: vec![
            threshold(68, 60, 100.0),
            threshold(0, 0, 0.0),
            threshold(55, 45, 30.0),
            threshold(62, 52, 60.0),
        ],
        fan_speed_percentage_overrides: None,
    }
}

fn model(fans: usize) -> FanControlConfigV2 {
    let mut fan_configurations = Vec::new();
    for i in 0..fans {
        let name = if i == 0 { Some("CPU fan") } else { None };
        fan_configurations.push(fan(name, 148 + 2 * i as u8, 149 + 2 * i as u8));
    }
    FanControlConfigV2 {
        notebook_model: "ModelA".to_string(),
        author: None,
        ec_poll_interval: 250,
        read_write_words: false,
        critical_temperature: 70,
        fan_configurations,
        register_write_configurations: Some(vec![
            RegisterWriteConfiguration {
                write_mode: RegisterWriteMode::Assign,
                write_occasion: Some(RegisterWriteOccasion::OnInitialization),
                register: 147,
                value: 20,
                reset_required: true,
                reset_value: Some(4),
                reset_write_mode: None,
                description: None,
            },
            RegisterWriteConfiguration {
                write_mode: RegisterWriteMode::Assign,
                write_occasion: Some(RegisterWriteOccasion::OnWriteFanSpeed),
                register: 146,
                value: 1,
                reset_required: false,
                reset_value: Some(0),
                reset_write_mode: None,
                description: None,
            },
        ]),
    }
}

fn byte(offset: u8, value: u8) -> EcWrite {
    EcWrite { offset, low: value, high: None }
}

/// A loop in which a configuration with `fans` fans is installed.
fn running(fans: usize) -> ECManager {
    let mut manager = ECManager::new();
    match manager.event_handler(Some(Event::External(ExternalEvent::RefreshConfig(model(fans))))) {
        Step::Install { next, .. } => next,
        other => panic!("unexpected {:?}", other),
    }
}

/// A running loop whose temperature is far from critical.
fn cool(fans: usize) -> ECManager {
    let mut manager = running(fans);
    manager.update_temp(20);
    assert!(!manager.critical);
    manager.write_speeds();
    manager
}

fn temp(degrees: f64) -> Option<Event> {
    Some(Event::External(ExternalEvent::TempChange((degrees * 1000.0).round() as i32)))
}

/// What the sensors deliver when the processor has `degrees` degrees.
fn sensors(degrees: f64) -> Vec<SensorReading> {
    vec![
        SensorReading { name: "coretemp".to_string(), millidegrees: (degrees * 1000.0) as i32 },
        SensorReading { name: "nvme".to_string(), millidegrees: 20_000 },
    ]
}

fn writes_of(step: Step) -> Vec<SpeedWrite> {
    match step {
        Step::Round { writes, .. } => writes,
        other => panic!("unexpected {:?}", other),
    }
}

#[test]
fn a_new_loop_waits_for_a_configuration() {
    let mut manager = ECManager::new();
    assert_eq!(manager.phase, Phase::Idle);
    assert_eq!(manager.poll_interval, INFINITE_INTERVAL);
    assert_eq!(manager.poll_interval, u64::MAX);
    assert!(manager.fans.is_empty());
    assert!(manager.auto);
    assert_eq!(CRITICAL_INTERVAL, 10);
    let before = manager.clone();
    assert_eq!(manager.event_handler(None), Step::Wait);
    assert_eq!(manager.event_handler(temp(95.0)), Step::Wait);
    assert_eq!(manager.event_handler(Some(Event::Manager(ManagerEvent::Auto(false)))), Step::Wait);
    assert_eq!(
        manager.event_handler(Some(Event::Manager(ManagerEvent::TargetSpeed(0, 1)))),
        Step::Wait
    );
    assert_eq!(
        manager.event_handler(Some(Event::Manager(ManagerEvent::QuerySpeed(0)))),
        Step::Wait
    );
    assert_eq!(manager, before);
}

// No configuration is kept from an earlier run. The daemon starts and
// waits; a client asks for `ModelA`; the configuration is installed; the
// first round reads and writes both fans.
#[test]
fn boot_with_empty_config_name() {
    let mut manager = ECManager::new();
    let mut state = State::default();
    assert_eq!(manager.event_handler(None), Step::Wait);
    // The client's request was loaded and checked by the caller.
    assert_eq!(state.set_config("ModelA".to_string(), Ok(())), Ok(()));
    let step =
        manager.event_handler(Some(Event::External(ExternalEvent::RefreshConfig(model(2)))));
    let (next, plan) = match step {
        Step::Install { next, plan } => (next, plan),
        other => panic!("unexpected {:?}", other),
    };
    assert_eq!(manager.phase, Phase::Idle);
    assert_eq!(plan, vec![byte(147, 20), byte(148, 255), byte(150, 255)]);
    manager = next;
    assert_eq!(manager.phase, Phase::Running);
    assert_eq!(manager.poll_interval, 250);
    assert_eq!(manager.critical_temperature, 70);
    let changed = state.refresh_from(&manager);
    assert_eq!(
        changed,
        vec![
            Property::FansSpeeds,
            Property::FansNames,
            Property::TargetFansSpeeds,
            Property::Auto,
            Property::Critical,
            Property::PollInterval,
        ]
    );
    assert!(state.refresh_from(&manager).is_empty());
    assert_eq!(state.poll_interval(), 250);
    assert_eq!(state.fans_names(), vec!["CPU fan".to_string(), "Fan #2".to_string()]);
    assert_eq!(state.config(), "ModelA");
    assert_eq!(state.fans_speeds(), vec![0, 0]);

    let step = manager.event_handler(None);
    let (reads, writes) = match step {
        Step::Round { reads, writes } => (reads, writes),
        other => panic!("unexpected {:?}", other),
    };
    assert_eq!(
        reads,
        vec![
            FanRead { fan_index: 0, request: EcRead { offset: 149, word: false } },
            FanRead { fan_index: 1, request: EcRead { offset: 151, word: false } },
        ]
    );
    assert_eq!(
        writes,
        vec![
            SpeedWrite { fan_index: 0, speed: 100_000, writes: vec![byte(146, 1), byte(148, 200)] },
            SpeedWrite { fan_index: 1, speed: 100_000, writes: vec![byte(146, 1), byte(150, 200)] },
        ]
    );
    assert_eq!(manager.read_fan_speed(0, &[100]), 50_000);
    assert_eq!(manager.read_fan_speed(1, &[50]), 25_000);
    assert_eq!(state.refresh_from(&manager), vec![Property::FansSpeeds]);
    assert_eq!(state.fans_speeds(), vec![50_000, 25_000]);
    assert!(state.critical());
}

#[test]
fn an_installed_configuration_has_its_curves_in_order() {
    let manager = running(3);
    assert_eq!(manager.fans.len(), 3);
    assert_eq!(manager.targets, vec![None, None, None]);
    for (i, fan) in manager.fans.iter().enumerate() {
        assert_eq!(fan.index, i);
        assert_eq!(fan.current_threshold, 0);
        assert_eq!(fan.fan_speed, 0);
        assert_eq!(fan.last_written_speed, None);
        let downs: Vec<u8> = fan.thresholds.iter().map(|t| t.down_threshold).collect();
        assert_eq!(downs, vec![0, 45, 52, 60]);
        let speeds: Vec<i32> = fan.thresholds.iter().map(|t| t.fan_speed).collect();
        assert_eq!(speeds, vec![0, 30_000, 60_000, 100_000]);
    }
    assert_eq!(manager.fans[0].name, "CPU fan");
    assert_eq!(manager.fans[1].name, "Fan #2");
    assert_eq!(manager.fans[2].name, "Fan #3");
    assert_eq!(manager.reader.fans_read_config.len(), 3);
    assert_eq!(manager.writer.fans_write_config.len(), 3);
    let many = running(12);
    assert_eq!(many.fans[9].name, "Fan #10");
    assert_eq!(many.fans[11].name, "Fan #12");
}

// Critical temperature 70; the sensors report 60, 68, 71, 69, 64, 59.
#[test]
fn critical_excursion() {
    let mut manager = cool(2);
    let mut series = Vec::new();
    let mut written = Vec::new();
    for degrees in [60.0, 68.0, 71.0, 69.0, 64.0, 59.0] {
        let step = manager.tick(&sensors(degrees), TempComputeMethod::CPUOnly);
        let (reads, writes) = match step {
            Step::Round { reads, writes } => (reads, writes),
            other => panic!("unexpected {:?}", other),
        };
        assert_eq!(reads.len(), 2);
        series.push(manager.critical);
        written.push(writes);
    }
    assert_eq!(series, vec![false, false, true, true, true, false]);
    for round in 2..5 {
        assert_eq!(written[round].len(), 2);
        assert!(written[round].iter().all(|w| w.speed == 100_000));
        assert_eq!(written[round][0].writes, vec![byte(146, 1), byte(148, 200)]);
        assert_eq!(written[round][1].writes, vec![byte(146, 1), byte(150, 200)]);
    }
    // Before: the curve moves at 60 and stays at 68.
    assert_eq!(written[0].iter().map(|w| w.speed).collect::<Vec<_>>(), vec![60_000, 60_000]);
    assert!(written[1].iter().all(|w| w.speed == 100_000));
    // After: the curve is at its last level still, and 59 leaves it.
    assert_eq!(written[5].iter().map(|w| w.speed).collect::<Vec<_>>(), vec![60_000, 60_000]);
}

#[test]
fn the_critical_state_is_left_ten_degrees_below() {
    let mut manager = running(1);
    assert!(manager.critical);
    manager.update_temp(60);
    assert!(manager.critical);
    manager.update_temp(59);
    assert!(!manager.critical);
    manager.update_temp(69);
    assert!(!manager.critical);
    manager.update_temp(70);
    assert!(manager.critical);
    manager.update_temp(255);
    assert!(manager.critical);
    manager.update_temp(0);
    assert!(!manager.critical);
    assert_eq!(manager.current_temperature, 0);
    // Parts of a degree do not count.
    manager.event_handler(temp(69.999));
    assert!(!manager.critical);
    assert_eq!(manager.current_temperature, 69);
    manager.event_handler(temp(70.0));
    assert!(manager.critical);
    manager.event_handler(temp(59.999));
    assert!(!manager.critical);
    manager.event_handler(temp(-5.0));
    assert_eq!(manager.current_temperature, 0);
    manager.event_handler(temp(300.0));
    assert_eq!(manager.current_temperature, 255);
}

#[test]
fn while_critical_every_write_is_full_speed() {
    for auto in [true, false] {
        let mut manager = running(3);
        manager.set_target_fans_speeds(&vec![0, 42_500, 100_000]).unwrap();
        manager.set_auto(auto);
        assert!(manager.critical);
        for _ in 0..3 {
            let writes = writes_of(manager.event_handler(None));
            assert_eq!(writes.len(), 3);
            for (i, write) in writes.iter().enumerate() {
                assert_eq!(write.fan_index, i);
                assert_eq!(write.speed, 100_000);
                assert_eq!(write.writes.last().unwrap().low, 200);
            }
        }
        let one = manager.write_fan_speed(1).unwrap();
        assert_eq!(one.speed, 100_000);
        let asked = manager.event_handler(Some(Event::Manager(ManagerEvent::TargetSpeed(1, 5))));
        assert_eq!(asked, Step::Wait);
        assert!(writes_of(manager.event_handler(None)).iter().all(|w| w.speed == 100_000));
        let hot = manager.tick(&sensors(95.0), TempComputeMethod::CPUOnly);
        assert!(writes_of(hot).iter().all(|w| w.speed == 100_000));
        assert_eq!(manager.fans[2].last_written_speed, Some(100_000));
    }
}

// A client switches the automatic mode off and asks for 42.5 % of fan 0. The
// next round writes 42.5 % to fan 0. The client switches the automatic mode
// on; the curves drive the writes from the next round on.
#[test]
fn manual_override_then_auto() {
    let mut manager = cool(2);
    assert_eq!(manager.event_handler(Some(Event::Manager(ManagerEvent::Auto(false)))), Step::Wait);
    let asked = manager.event_handler(Some(Event::Manager(ManagerEvent::TargetSpeed(0, pct(42.5)))));
    assert_eq!(asked, Step::Wait);
    assert!(!manager.auto);
    assert!(manager.manual_target_dirty);
    assert_eq!(manager.target_speeds(), vec![Some(42_500), None]);

    // The next round: fan 0 gets its target, fan 1 follows its curve, which does not move.
    let writes = writes_of(manager.event_handler(None));
    assert_eq!(
        writes,
        vec![SpeedWrite { fan_index: 0, speed: 42_500, writes: vec![byte(146, 1), byte(148, 85)] }]
    );
    // The temperature rises: the target stays, the curve of fan 1 moves.
    let writes = writes_of(manager.tick(&sensors(50.0), TempComputeMethod::CPUOnly));
    assert_eq!(writes.iter().map(|w| (w.fan_index, w.speed)).collect::<Vec<_>>(), vec![
        (0, 42_500),
        (1, 30_000)
    ]);
    assert_eq!(manager.fans[0].current_threshold, 0);
    assert_eq!(manager.fans[1].current_threshold, 1);

    // Automatic again: from the next round on the curve of fan 0 moves; that of fan 1 is
    // where it was.
    assert_eq!(manager.event_handler(Some(Event::Manager(ManagerEvent::Auto(true)))), Step::Wait);
    assert!(manager.auto);
    assert_eq!(manager.target_speeds(), vec![Some(42_500), None]);
    let writes = writes_of(manager.event_handler(None));
    assert_eq!(writes.iter().map(|w| (w.fan_index, w.speed)).collect::<Vec<_>>(), vec![(0, 30_000)]);
    let writes = writes_of(manager.event_handler(None));
    assert!(writes.is_empty());
    let writes = writes_of(manager.tick(&sensors(61.0), TempComputeMethod::CPUOnly));
    assert_eq!(writes.iter().map(|w| (w.fan_index, w.speed)).collect::<Vec<_>>(), vec![
        (0, 60_000),
        (1, 60_000)
    ]);
}

#[test]
fn a_tick_takes_the_mean_of_the_sensors_that_count() {
    let mut manager = cool(1);
    // The processor alone: 80 degrees, which is critical.
    manager.tick(&sensors(80.0), TempComputeMethod::CPUOnly);
    assert_eq!(manager.current_temperature, 80);
    assert!(manager.critical);
    // All sensors: the mean of 80 and 20 degrees.
    manager.tick(&sensors(80.0), TempComputeMethod::AllSensors);
    assert_eq!(manager.current_temperature, 50);
    assert!(!manager.critical);
    // No sensor: the temperature stays, and a round is made all the same.
    let step = manager.tick(&vec![], TempComputeMethod::CPUOnly);
    assert_eq!(manager.current_temperature, 50);
    assert!(matches!(step, Step::Round { .. }));
    // Before a configuration and after the end a tick does nothing.
    assert_eq!(ECManager::new().tick(&sensors(80.0), TempComputeMethod::CPUOnly), Step::Wait);
    manager.event_handler(Some(Event::External(ExternalEvent::Shutdown)));
    assert_eq!(manager.tick(&sensors(80.0), TempComputeMethod::CPUOnly), Step::Wait);
    assert_eq!(manager.round(), Step::Wait);
    assert_eq!(manager.current_temperature, 50);
}

#[test]
fn a_target_is_limited_to_the_range_of_speeds() {
    let mut manager = cool(1);
    manager.auto = false;
    manager.targets[0] = Some(250_000);
    assert_eq!(manager.write_fan_speed(0).unwrap().speed, 100_000);
    manager.targets[0] = Some(-1);
    assert_eq!(manager.write_fan_speed(0).unwrap().speed, 0);
}

#[test]
fn requests_of_clients_are_checked() {
    let mut manager = cool(2);
    let before = manager.clone();
    assert_eq!(manager.set_target_fan_speed(2, 50_000), Err(ErrorKind::InvalidArgument));
    assert_eq!(manager.set_target_fan_speed(255, 50_000), Err(ErrorKind::InvalidArgument));
    assert_eq!(manager.set_target_fan_speed(0, 100_001), Err(ErrorKind::InvalidArgument));
    assert_eq!(manager.set_target_fan_speed(0, -1), Err(ErrorKind::InvalidArgument));
    assert_eq!(manager.set_target_fans_speeds(&vec![0]), Err(ErrorKind::InvalidArgument));
    assert_eq!(manager.set_target_fans_speeds(&vec![0, 1, 2]), Err(ErrorKind::InvalidArgument));
    assert_eq!(manager.set_target_fans_speeds(&vec![0, 100_001]), Err(ErrorKind::InvalidArgument));
    assert_eq!(manager.set_target_fans_speeds(&vec![-1, 0]), Err(ErrorKind::InvalidArgument));
    assert_eq!(
        manager.event_handler(Some(Event::Manager(ManagerEvent::TargetSpeed(2, 0)))),
        Step::Reject(ErrorKind::InvalidArgument)
    );
    assert_eq!(
        manager.event_handler(Some(Event::Manager(ManagerEvent::TargetSpeed(0, 100_001)))),
        Step::Reject(ErrorKind::InvalidArgument)
    );
    assert_eq!(
        manager.event_handler(Some(Event::Manager(ManagerEvent::QuerySpeed(2)))),
        Step::Reject(ErrorKind::InvalidArgument)
    );
    assert_eq!(manager, before);
    assert_eq!(manager.set_target_fans_speeds(&vec![0, 100_000]), Ok(()));
    assert_eq!(manager.target_speeds(), vec![Some(0), Some(100_000)]);
    assert!(manager.auto);
    assert_eq!(manager.set_target_fan_speed(1, 0), Ok(()));
    assert_eq!(manager.target_speeds(), vec![Some(0), Some(0)]);
    assert!(!manager.auto);
}

#[test]
fn a_query_reads_one_fan() {
    let mut manager = cool(2);
    let before = manager.clone();
    assert_eq!(
        manager.event_handler(Some(Event::Manager(ManagerEvent::QuerySpeed(1)))),
        Step::Round {
            reads: vec![FanRead { fan_index: 1, request: EcRead { offset: 151, word: false } }],
            writes: vec![],
        }
    );
    assert_eq!(manager, before);
    assert_eq!(manager.read_fan_speed(1, &[200]), 100_000);
    assert_eq!(manager.fans[1].fan_speed, 100_000);
    assert_eq!(manager.fans[0].fan_speed, 0);
    assert_eq!(
        manager.read_speeds(),
        vec![
            FanRead { fan_index: 0, request: EcRead { offset: 149, word: false } },
            FanRead { fan_index: 1, request: EcRead { offset: 151, word: false } },
        ]
    );
}

#[test]
fn hot_swap_keeps_the_targets() {
    let mut manager = cool(3);
    manager.set_target_fans_speeds(&vec![10_000, 20_000, 30_000]).unwrap();
    manager.set_target_fan_speed(1, 42_500).unwrap();
    manager.fans[0].current_threshold = 2;
    // Fewer fans.
    let (fewer, plan) = manager.refresh_control_config(&model(2));
    assert_eq!(fewer.target_speeds(), vec![Some(10_000), Some(42_500)]);
    assert_eq!(plan, vec![byte(147, 20), byte(148, 255), byte(150, 255)]);
    assert!(!fewer.auto);
    assert!(fewer.critical);
    assert!(fewer.manual_target_dirty);
    assert_eq!(fewer.fans[0].current_threshold, 0);
    assert_eq!(fewer.current_temperature, 20);
    // More fans.
    let (more, _) = manager.refresh_control_config(&model(5));
    assert_eq!(
        more.target_speeds(),
        vec![Some(10_000), Some(42_500), Some(30_000), None, None]
    );
    // As many.
    let mut other = model(3);
    other.ec_poll_interval = 1000;
    other.critical_temperature = 90;
    other.read_write_words = true;
    other.register_write_configurations = None;
    let (same, plan) = manager.refresh_control_config(&other);
    assert_eq!(same.target_speeds(), manager.target_speeds());
    assert_eq!(same.poll_interval, 1000);
    assert_eq!(same.critical_temperature, 90);
    assert!(same.reader.read_words && same.writer.write_words);
    assert_eq!(plan.len(), 3);
    assert_eq!(plan[0], EcWrite { offset: 148, low: 255, high: Some(0) });
    // The loop at hand is as it was: it stays in charge if a write of the plan fails.
    assert_eq!(manager.fans.len(), 3);
    assert_eq!(manager.poll_interval, 250);
    let step = manager.event_handler(Some(Event::External(ExternalEvent::RefreshConfig(other))));
    assert_eq!(step, Step::Install { next: same, plan });
    assert_eq!(manager.fans[0].current_threshold, 2);
}

#[test]
fn a_configuration_without_fans_can_be_installed() {
    let mut manager = cool(2);
    let (next, plan) = manager.refresh_control_config(&model(0));
    assert_eq!(plan, vec![byte(147, 20)]);
    assert!(next.fans.is_empty());
    assert!(next.target_speeds().is_empty());
    let mut next = next;
    assert_eq!(next.event_handler(None), Step::Round { reads: vec![], writes: vec![] });
    assert_eq!(manager.write_speeds(), vec![]);
}

#[test]
fn a_fan_without_curve_is_written_when_critical_or_asked_only() {
    let mut config = model(1);
    config.fan_configurations[0].temperature_thresholds.clear();
    let (mut manager, _) = ECManager::new().refresh_control_config(&config);
    assert_eq!(manager.write_fan_speed(0).unwrap().speed, 100_000);
    manager.update_temp(20);
    assert_eq!(manager.write_fan_speed(0), None);
    manager.set_target_fan_speed(0, 7_000).unwrap();
    assert_eq!(manager.write_fan_speed(0).unwrap().speed, 7_000);
}

#[test]
fn shutdown_resets_every_register_once() {
    let mut manager = cool(2);
    let step = manager.event_handler(Some(Event::External(ExternalEvent::Shutdown)));
    let plan = match step {
        Step::Stop { plan } => plan,
        other => panic!("unexpected {:?}", other),
    };
    assert_eq!(plan, vec![byte(147, 4), byte(146, 0), byte(148, 255), byte(150, 255)]);
    assert_eq!(manager.phase, Phase::Stopping);
    // Nothing is written after that.
    assert_eq!(manager.event_handler(None), Step::Wait);
    assert_eq!(manager.event_handler(temp(99.0)), Step::Wait);
    assert_eq!(
        manager.event_handler(Some(Event::External(ExternalEvent::Shutdown))),
        Step::Wait
    );
    assert_eq!(
        manager.event_handler(Some(Event::External(ExternalEvent::RefreshConfig(model(1))))),
        Step::Wait
    );
    // On request, only what asks for a reset.
    assert_eq!(cool(2).reset_ec(false), vec![byte(147, 4), byte(148, 255), byte(150, 255)]);
    assert_eq!(cool(2).reset_ec(true), plan);
}

#[test]
fn shutdown_before_a_configuration_writes_nothing() {
    let mut manager = ECManager::new();
    assert_eq!(
        manager.event_handler(Some(Event::External(ExternalEvent::Shutdown))),
        Step::Stop { plan: vec![] }
    );
    assert_eq!(manager.phase, Phase::Stopping);
    assert_eq!(
        manager.event_handler(Some(Event::External(ExternalEvent::RefreshConfig(model(1))))),
        Step::Wait
    );
}

#[test]
fn signals_end_the_daemon_or_do_nothing() {
    assert_eq!(on_signal(SIGTERM), Some(ExternalEvent::Shutdown));
    assert_eq!(on_signal(SIGINT), Some(ExternalEvent::Shutdown));
    assert_eq!(on_signal(SIGQUIT), Some(ExternalEvent::Shutdown));
    assert_eq!(on_signal(SIGHUP), None);
    assert_eq!(on_signal(10), None);
    assert_eq!((SIGHUP, SIGINT, SIGQUIT, SIGTERM), (1, 2, 3, 15));
}

#[test]
fn overrides_reach_the_registers_through_the_loop() {
    let mut config = model(1);
    config.fan_configurations[0].min_speed_value = 175;
    config.fan_configurations[0].max_speed_value = 70;
    config.fan_configurations[0].fan_speed_percentage_overrides =
        Some(vec![FanSpeedPercentageOverride {
            fan_speed_percentage: 0,
            fan_speed_value: 255,
            target_operation: Some(OverrideTargetOperation::Write),
        }]);
    let (mut manager, _) = ECManager::new().refresh_control_config(&config);
    manager.update_temp(20);
    manager.set_target_fan_speed(0, 0).unwrap();
    assert_eq!(manager.write_fan_speed(0).unwrap().writes, vec![byte(146, 1), byte(148, 255)]);
    manager.set_target_fan_speed(0, 50_000).unwrap();
    assert_eq!(manager.write_fan_speed(0).unwrap().writes, vec![byte(146, 1), byte(148, 123)]);
}

#[test]
fn the_clients_see_what_the_loop_knows() {
    let mut manager = cool(2);
    manager.set_target_fan_speed(1, 12_345).unwrap();
    manager.read_fan_speed(0, &[20]);
    let mut state = State::default();
    state.config = "ModelA".to_string();
    state.check_control_config = true;
    let changed = state.refresh_from(&manager);
    assert_eq!(
        changed,
        vec![
            Property::FansSpeeds,
            Property::FansNames,
            Property::TargetFansSpeeds,
            Property::PollInterval,
        ]
    );
    manager.update_temp(80);
    assert_eq!(state.refresh_from(&manager), vec![Property::Critical]);
    manager.update_temp(20);
    manager.set_auto(true);
    assert_eq!(state.refresh_from(&manager), vec![Property::Auto, Property::Critical]);
    manager.set_auto(false);
    state.refresh_from(&manager);
    assert_eq!(state.fans_speeds(), vec![10_000, 0]);
    assert_eq!(state.target_fans_speeds(), vec![100_000, 12_345]);
    assert!(!state.auto());
    assert!(!state.critical());
    assert!(state.manual_set_target_speeds);
    assert_eq!(state.poll_interval(), 250);
    assert_eq!(state.config(), "ModelA");
    assert!(state.check_control_config);
}
