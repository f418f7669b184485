use fancy_core::config::service::{
    DevicePresence, ECAccessMode, ServiceConfig, SettingsSource, TempComputeMethod,
};
use fancy_core::config::{Config, Core, FanConfig, NamedFilter, SensorFilter, Sensors};
use fancy_core::ec_control::ec_rw::EcAccessMode;
use fancy_core::check::CheckControlConfigError;
use fancy_core::error::{
    generate_proxy_err, ConfigFormat, DeviceFault, ErrorEvent, ErrorKind, JsError, ProxyState,
    Recovery,
};
use fancy_core::temp::{
    driving_temperature, is_cpu_sensor, is_temp_input, parse_sample, SensorReading,
};
use fancy_core::text::{make_default_fan_name, push_decimal};
use fancy_core::units::{
    clamp_speed, is_speed_in_bounds, whole_degrees, DEGREE_SCALE, FULL_SPEED, PERCENT_SCALE,
};

fn reading(name: &str, millidegrees: i32) -> SensorReading {
    SensorReading { name: name.to_string(), millidegrees }
}

#[test]
fn units_have_their_scale() {
    assert_eq!(PERCENT_SCALE, 1000);
    assert_eq!(FULL_SPEED, 100 * PERCENT_SCALE);
    assert_eq!(DEGREE_SCALE, 1000);
    assert_eq!(clamp_speed(-1), 0);
    assert_eq!(clamp_speed(0), 0);
    assert_eq!(clamp_speed(42_500), 42_500);
    assert_eq!(clamp_speed(100_000), 100_000);
    assert_eq!(clamp_speed(100_001), 100_000);
    assert_eq!(clamp_speed(i32::MIN), 0);
    assert_eq!(clamp_speed(i32::MAX), 100_000);
    assert!(is_speed_in_bounds(0) && is_speed_in_bounds(100_000));
    assert!(!is_speed_in_bounds(-1) && !is_speed_in_bounds(100_001));
}

#[test]
fn samples_become_whole_degrees() {
    assert_eq!(whole_degrees(0), 0);
    assert_eq!(whole_degrees(999), 0);
    assert_eq!(whole_degrees(1000), 1);
    assert_eq!(whole_degrees(59_999), 59);
    assert_eq!(whole_degrees(70_000), 70);
    assert_eq!(whole_degrees(254_999), 254);
    assert_eq!(whole_degrees(255_000), 255);
    assert_eq!(whole_degrees(1_000_000), 255);
    assert_eq!(whole_degrees(i32::MAX), 255);
    assert_eq!(whole_degrees(-1), 0);
    assert_eq!(whole_degrees(-1000), 0);
    assert_eq!(whole_degrees(i32::MIN), 0);
}

#[test]
fn the_driving_temperature_is_a_mean() {
    let samples = vec![
        reading("coretemp", 50_000),
        reading("acpitz", 30_000),
        reading("k10temp", 61_000),
        reading("nvme", 40_001),
    ];
    assert_eq!(driving_temperature(&samples, TempComputeMethod::CPUOnly), Some(55_500));
    assert_eq!(driving_temperature(&samples, TempComputeMethod::AllSensors), Some(45_250));
    let odd = vec![reading("coretemp", 1), reading("coretemp", 2)];
    assert_eq!(driving_temperature(&odd, TempComputeMethod::CPUOnly), Some(1));
    let cold = vec![reading("a", -1), reading("b", -2)];
    assert_eq!(driving_temperature(&cold, TempComputeMethod::AllSensors), Some(-1));
    let extremes = vec![reading("a", i32::MAX), reading("b", i32::MAX), reading("c", i32::MAX)];
    assert_eq!(driving_temperature(&extremes, TempComputeMethod::AllSensors), Some(i32::MAX));
    let low = vec![reading("a", i32::MIN), reading("b", i32::MIN)];
    assert_eq!(driving_temperature(&low, TempComputeMethod::AllSensors), Some(i32::MIN));
}

#[test]
fn without_a_sample_there_is_no_temperature() {
    assert_eq!(driving_temperature(&vec![], TempComputeMethod::AllSensors), None);
    assert_eq!(driving_temperature(&vec![], TempComputeMethod::CPUOnly), None);
    let others = vec![reading("acpitz", 30_000), reading("nvme", 40_000)];
    assert_eq!(driving_temperature(&others, TempComputeMethod::CPUOnly), None);
    assert_eq!(driving_temperature(&others, TempComputeMethod::AllSensors), Some(35_000));
    assert!(is_cpu_sensor("coretemp"));
    assert!(is_cpu_sensor("k10temp"));
    assert!(!is_cpu_sensor("coretemp\n"));
    assert!(!is_cpu_sensor("amdgpu"));
    assert_eq!(TempComputeMethod::default(), TempComputeMethod::CPUOnly);
}

#[test]
fn samples_are_read_from_the_text_of_sensor_files() {
    assert_eq!(parse_sample("45000\n"), Some(45_000));
    assert_eq!(parse_sample("45000"), Some(45_000));
    assert_eq!(parse_sample("0\n"), Some(0));
    assert_eq!(parse_sample("007"), Some(7));
    assert_eq!(parse_sample("-1500\n"), Some(-1_500));
    assert_eq!(parse_sample("-0"), Some(0));
    assert_eq!(parse_sample("2147483647"), Some(i32::MAX));
    assert_eq!(parse_sample("-2147483648\n"), Some(i32::MIN));
    assert_eq!(parse_sample("2147483648"), None);
    assert_eq!(parse_sample("-2147483649"), None);
    assert_eq!(parse_sample("99999999999999999999999999"), None);
    assert_eq!(parse_sample(""), None);
    assert_eq!(parse_sample("\n"), None);
    assert_eq!(parse_sample("-"), None);
    assert_eq!(parse_sample("-\n"), None);
    assert_eq!(parse_sample("+5"), None);
    assert_eq!(parse_sample("45 000"), None);
    assert_eq!(parse_sample("45000\n\n"), None);
    assert_eq!(parse_sample(" 45000"), None);
    assert_eq!(parse_sample("45.5"), None);
    assert_eq!(parse_sample("4x"), None);
    assert_eq!(parse_sample("--4"), None);
}

#[test]
fn temperature_files_are_known_by_their_names() {
    assert!(is_temp_input("temp1_input"));
    assert!(is_temp_input("temp12_input"));
    assert!(is_temp_input("temp_input"));
    assert!(!is_temp_input("temp1_label"));
    assert!(!is_temp_input("fan1_input"));
    assert!(!is_temp_input("temp1_input_old"));
    assert!(!is_temp_input("_input"));
    assert!(!is_temp_input("temp"));
    assert!(!is_temp_input(""));
    assert!(!is_temp_input("tempinput"));
    assert!(!is_temp_input("Temp1_input"));
}

#[test]
fn the_settings_of_the_service_come_first() {
    assert_eq!(SettingsSource::pick(true, true), Some(SettingsSource::Own));
    assert_eq!(SettingsSource::pick(true, false), Some(SettingsSource::Own));
    assert_eq!(SettingsSource::pick(false, true), Some(SettingsSource::Nbfc));
    assert_eq!(SettingsSource::pick(false, false), None);
}

#[test]
fn the_way_to_the_controller_is_resolved() {
    let all = DevicePresence { port: true, acpi_ec: true, ec_sys: true };
    let none = DevicePresence { port: false, acpi_ec: false, ec_sys: false };
    let port_only = DevicePresence { port: true, acpi_ec: false, ec_sys: false };
    let sys_and_port = DevicePresence { port: true, acpi_ec: false, ec_sys: true };
    assert_eq!(ECAccessMode::Either.resolve(&all), Some(EcAccessMode::AcpiEC));
    assert_eq!(ECAccessMode::Either.resolve(&sys_and_port), Some(EcAccessMode::ECSys));
    assert_eq!(ECAccessMode::Either.resolve(&port_only), Some(EcAccessMode::RawPort));
    assert_eq!(ECAccessMode::Either.resolve(&none), None);
    assert_eq!(ECAccessMode::RawPort.resolve(&none), Some(EcAccessMode::RawPort));
    assert_eq!(ECAccessMode::AcpiEC.resolve(&port_only), Some(EcAccessMode::AcpiEC));
    assert_eq!(ECAccessMode::ECSys.resolve(&all), Some(EcAccessMode::ECSys));
    assert_eq!(ECAccessMode::Either.to_path(&all), "/dev/ec");
    assert_eq!(ECAccessMode::Either.to_path(&sys_and_port), "/sys/kernel/debug/ec/ec0/io");
    assert_eq!(ECAccessMode::Either.to_path(&port_only), "/dev/port");
    assert_eq!(ECAccessMode::RawPort.to_path(&none), "/dev/port");
    assert_eq!(ECAccessMode::AcpiEC.to_path(&none), "/dev/ec");
    assert_eq!(ECAccessMode::ECSys.to_path(&none), "/sys/kernel/debug/ec/ec0/io");
    assert_eq!(ECAccessMode::from_path("/dev/port"), Some(ECAccessMode::RawPort));
    assert_eq!(ECAccessMode::from_path("/dev/ec"), Some(ECAccessMode::AcpiEC));
    assert_eq!(
        ECAccessMode::from_path("/sys/kernel/debug/ec/ec0/io"),
        Some(ECAccessMode::ECSys)
    );
    assert_eq!(ECAccessMode::from_path("/dev/null"), None);
    assert_eq!(ECAccessMode::default(), ECAccessMode::Either);
}

#[test]
fn settings_start_empty() {
    let service = ServiceConfig::default();
    assert_eq!(service.ec_access_mode, ECAccessMode::Either);
    assert_eq!(service.selected_fan_config, "");
    assert!(!service.auto);
    assert!(service.target_fans_speeds.is_empty());
    let config = Config::default();
    assert_eq!(config.core, Core::default());
    assert_eq!(config.core.ec_access_mode, EcAccessMode::AcpiEC);
    assert_eq!(config.fan_config, FanConfig::default());
    assert_eq!(config.sensors, Sensors::default());
    assert_eq!(SensorFilter::default().inputs_filter.len(), 0);
}

#[test]
fn settings_remember_what_the_daemon_knew() {
    let mut config = Config::default();
    config.remember(None, vec![]);
    assert_eq!(config, Config::default());
    config.remember(Some("ModelA".to_string()), vec![10_000, 20_000]);
    assert_eq!(config.fan_config.selected_fan_configuration, "ModelA");
    assert_eq!(config.fan_config.target_speeds, vec![10_000, 20_000]);
    config.remember(None, vec![]);
    assert_eq!(config.fan_config.selected_fan_configuration, "ModelA");
    assert_eq!(config.fan_config.target_speeds, vec![10_000, 20_000]);
    config.remember(Some("".to_string()), vec![5]);
    assert_eq!(config.fan_config.selected_fan_configuration, "");
    assert_eq!(config.fan_config.target_speeds, vec![5]);
}

#[test]
fn sensors_are_read_when_listed_or_when_none_is() {
    let mut sensors = Sensors::default();
    assert!(sensors.allows("coretemp"));
    assert!(sensors.allows(""));
    sensors.only.push(NamedFilter { name: "coretemp".to_string(), filter: SensorFilter::default() });
    sensors.only.push(NamedFilter {
        name: "nvme".to_string(),
        filter: SensorFilter { inputs_filter: vec!["Composite".to_string()] },
    });
    assert!(sensors.allows("coretemp"));
    assert!(sensors.allows("nvme"));
    assert!(!sensors.allows("acpitz"));
    assert!(!sensors.allows("core"));
}

#[test]
fn failures_are_shown_to_clients() {
    let error = JsError::new("a message", "AName", true);
    assert_eq!(error.message, "a message");
    assert_eq!(error.name, "AName");
    assert!(error.critical);
    assert_eq!(
        generate_proxy_err(&ProxyState::Uninitialized),
        JsError {
            message: "connection has not been established yet".to_string(),
            name: "UninitializedConnection".to_string(),
            critical: false,
        }
    );
    assert_eq!(
        generate_proxy_err(&ProxyState::Error("no bus".to_string())),
        JsError {
            message: "connection to d-bus service has been refused: no bus".to_string(),
            name: "ConnectionRefused".to_string(),
            critical: true,
        }
    );
    assert_eq!(ErrorEvent::ConnectionError.as_ref(), "connection_error");
    assert_eq!(ErrorEvent::ProxyError.as_ref(), "proxy_error");
    assert_eq!(ErrorEvent::DeserializeError.as_ref(), "deserialize_error");
}

#[test]
fn only_a_fatal_failure_ends_the_loop() {
    assert!(!ErrorKind::Fatal.is_recoverable());
    for kind in [
        ErrorKind::DeviceOpen,
        ErrorKind::DeviceIo(DeviceFault::Timeout),
        ErrorKind::DeviceIo(DeviceFault::Transfer),
        ErrorKind::ConfigNotFound,
        ErrorKind::ConfigInvalidName,
        ErrorKind::SensorUnavailable,
        ErrorKind::IpcError,
        ErrorKind::InvalidArgument,
    ] {
        assert!(kind.is_recoverable());
    }
}

#[test]
fn every_kind_of_failure_has_its_recovery() {
    assert_eq!(ErrorKind::DeviceIo(DeviceFault::Timeout).recovery(), Recovery::SkipFan);
    assert_eq!(ErrorKind::DeviceIo(DeviceFault::Transfer).recovery(), Recovery::SkipFan);
    assert_eq!(ErrorKind::ConfigNotFound.recovery(), Recovery::KeepConfig);
    assert_eq!(ErrorKind::ConfigInvalidName.recovery(), Recovery::KeepConfig);
    assert_eq!(ErrorKind::ConfigParse(ConfigFormat::Xml).recovery(), Recovery::KeepConfig);
    assert_eq!(
        ErrorKind::ConfigValidation(CheckControlConfigError::FanConfigurationsNotEmpty).recovery(),
        Recovery::KeepConfig
    );
    assert_eq!(ErrorKind::SensorUnavailable.recovery(), Recovery::RetryLater);
    assert_eq!(ErrorKind::DeviceOpen.recovery(), Recovery::WaitForConfig);
    assert_eq!(ErrorKind::IpcError.recovery(), Recovery::TellClient);
    assert_eq!(ErrorKind::InvalidArgument.recovery(), Recovery::TellClient);
    assert_eq!(ErrorKind::Fatal.recovery(), Recovery::ResetAndExit);
}

#[test]
fn fans_without_a_name_are_numbered() {
    assert_eq!(make_default_fan_name(1), "Fan #1");
    assert_eq!(make_default_fan_name(2), "Fan #2");
    assert_eq!(make_default_fan_name(10), "Fan #10");
    assert_eq!(make_default_fan_name(0), "Fan #0");
    assert_eq!(make_default_fan_name(1234567890), "Fan #1234567890");
    let mut text = "x".to_string();
    push_decimal(&mut text, 907);
    assert_eq!(text, "x907");
    push_decimal(&mut text, usize::MAX);
    assert_eq!(text, format!("x907{}", usize::MAX));
}
