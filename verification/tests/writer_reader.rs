use fancy_core::ec_control::ec_rw::{EcRead, EcWrite};
use fancy_core::ec_control::read::{compute_linear_percent, ECReader, FanReadConfig};
use fancy_core::ec_control::write::{compute_linear_raw, ECWriter, FanWriteConfig, RegisterWrite};
use fancy_core::nbfc::{
    FanConfiguration, FanSpeedPercentageOverride, OverrideTargetOperation,
    RegisterWriteConfiguration, RegisterWriteMode, RegisterWriteOccasion, TemperatureThreshold,
};

fn pct(percent: f64) -> i32 {
    (percent * 1000.0).round() as i32
}

fn fan(min: u16, max: u16) -> FanConfiguration {
    FanConfiguration {
        read_register: 149,
        write_register: 148,
        min_speed_value: min,
        max_speed_value: max,
        independent_read_min_max_values: false,
        min_speed_value_read: 0,
        max_speed_value_read: 0,
        reset_required: false,
        fan_speed_reset_value: None,
        fan_display_name: None,
        temperature_thresholds: vec![
            TemperatureThreshold { up_threshold: 0, down_threshold: 0, fan_speed: 0 },
            TemperatureThreshold { up_threshold: 50, down_threshold: 40, fan_speed: 100_000 },
        ],
        fan_speed_percentage_overrides: None,
    }
}

fn over(percent: f64, value: u16, op: Option<OverrideTargetOperation>) -> FanSpeedPercentageOverride {
    FanSpeedPercentageOverride {
        fan_speed_percentage: pct(percent),
        fan_speed_value: value,
        target_operation: op,
    }
}

fn register(
    occasion: Option<RegisterWriteOccasion>,
    register: u8,
    value: u8,
    reset_required: bool,
    reset_value: Option<u8>,
) -> RegisterWriteConfiguration {
    RegisterWriteConfiguration {
        write_mode: RegisterWriteMode::Assign,
        write_occasion: occasion,
        register,
        value,
        reset_required,
        reset_value,
        reset_write_mode: None,
        description: None,
    }
}

fn byte(offset: u8, value: u8) -> EcWrite {
    EcWrite { offset, low: value, high: None }
}

fn word(offset: u8, low: u8, high: u8) -> EcWrite {
    EcWrite { offset, low, high: Some(high) }
}

fn sample_registers() -> Vec<RegisterWriteConfiguration> {
    vec![
        register(Some(RegisterWriteOccasion::OnInitialization), 147, 20, true, Some(4)),
        register(Some(RegisterWriteOccasion::OnWriteFanSpeed), 10, 1, false, Some(0)),
        register(None, 11, 2, true, Some(9)),
        register(Some(RegisterWriteOccasion::OnInitialization), 12, 3, false, Some(7)),
        register(Some(RegisterWriteOccasion::OnWriteFanSpeed), 13, 5, true, None),
        register(Some(RegisterWriteOccasion::OnWriteFanSpeed), 14, 6, true, Some(8)),
    ]
}

fn sample_fans() -> Vec<FanConfiguration> {
    let mut first = fan(175, 70);
    first.fan_speed_reset_value = Some(255);
    first.fan_speed_percentage_overrides = Some(vec![
        over(0.0, 255, Some(OverrideTargetOperation::Write)),
        over(100.0, 60, Some(OverrideTargetOperation::Read)),
        over(50.0, 0x1234, None),
    ]);
    let mut second = fan(0, 0x03e8);
    second.write_register = 150;
    second.read_register = 151;
    second.reset_required = true;
    second.fan_speed_reset_value = Some(0x0201);
    let mut third = fan(0, 255);
    third.write_register = 152;
    third.reset_required = true;
    vec![first, second, third]
}

fn sample_writer(words: bool) -> (ECWriter, Vec<EcWrite>) {
    let mut writer = ECWriter::new();
    let plan = writer.refresh_config(words, Some(sample_registers()), &sample_fans());
    (writer, plan)
}

#[test]
fn refresh_parts_registers_by_occasion() {
    let (writer, _) = sample_writer(true);
    assert!(writer.write_words);
    assert_eq!(
        writer.init_reg_confs,
        vec![
            RegisterWrite { register: 147, value: 20, reset_required: true, reset_value: Some(4) },
            RegisterWrite { register: 12, value: 3, reset_required: false, reset_value: Some(7) },
        ]
    );
    assert_eq!(
        writer.on_write_reg_confs,
        vec![
            RegisterWrite { register: 10, value: 1, reset_required: false, reset_value: Some(0) },
            RegisterWrite { register: 13, value: 5, reset_required: true, reset_value: None },
            RegisterWrite { register: 14, value: 6, reset_required: true, reset_value: Some(8) },
        ]
    );
    assert_eq!(writer.fans_write_config.len(), 3);
    let first = &writer.fans_write_config[0];
    assert_eq!(first.write_register, 148);
    assert_eq!(first.min_speed, 175);
    assert_eq!(first.max_speed, 70);
    assert_eq!(first.reset_value, Some(255));
    assert!(!first.reset_required);
    // The override for reads only is left out; the one without an operation stays.
    assert_eq!(
        first.write_percent_overrides,
        vec![
            over(0.0, 255, Some(OverrideTargetOperation::Write)),
            over(50.0, 0x1234, None),
        ]
    );
    assert!(writer.fans_write_config[2].write_percent_overrides.is_empty());
}

#[test]
fn refresh_without_registers_forgets_the_old_ones() {
    let (mut writer, _) = sample_writer(true);
    let plan = writer.refresh_config(false, None, &sample_fans());
    assert!(writer.init_reg_confs.is_empty());
    assert!(writer.on_write_reg_confs.is_empty());
    assert!(!writer.write_words);
    assert_eq!(plan, vec![byte(148, 255), byte(150, 0x01)]);
}

#[test]
fn init_write_sets_registers_then_fans() {
    let (writer, plan) = sample_writer(true);
    let expected = vec![byte(147, 20), byte(12, 3), word(148, 255, 0), word(150, 0x01, 0x02)];
    assert_eq!(plan, expected);
    assert_eq!(writer.init_write(), expected);
    let (_, bytes_plan) = sample_writer(false);
    assert_eq!(bytes_plan, vec![byte(147, 20), byte(12, 3), byte(148, 255), byte(150, 0x01)]);
}

#[test]
fn reset_only_required() {
    let (writer, _) = sample_writer(true);
    assert_eq!(
        writer.reset(false),
        vec![byte(147, 4), byte(14, 8), word(150, 0x01, 0x02)]
    );
}

#[test]
fn reset_all() {
    let (writer, _) = sample_writer(true);
    let plan = writer.reset(true);
    assert_eq!(
        plan,
        vec![
            byte(147, 4),
            byte(12, 7),
            byte(10, 0),
            byte(14, 8),
            word(148, 255, 0),
            word(150, 0x01, 0x02),
        ]
    );
    // Each register with a reset value is written once.
    for offset in [147u8, 12, 10, 14, 148, 150] {
        assert_eq!(plan.iter().filter(|w| w.offset == offset).count(), 1);
    }
    // Registers without a reset value are left alone.
    assert!(plan.iter().all(|w| w.offset != 13 && w.offset != 152 && w.offset != 11));
}

#[test]
fn reset_of_an_empty_writer_writes_nothing() {
    let writer = ECWriter::new();
    assert!(writer.reset(true).is_empty());
    assert!(writer.reset(false).is_empty());
    assert!(writer.init_write().is_empty());
}

#[test]
fn on_write_confs() {
    let (writer, _) = sample_writer(false);
    let plan = writer.write_speed_percent(2, pct(0.0));
    assert_eq!(plan, vec![byte(10, 1), byte(13, 5), byte(14, 6), byte(152, 0)]);
}

#[test]
fn write_overrides() {
    let (writer, _) = sample_writer(true);
    // The override for writes is taken as it is.
    assert_eq!(writer.write_speed_percent(0, pct(0.0)).last(), Some(&word(148, 255, 0)));
    // So is the one without an operation, with both of its bytes.
    assert_eq!(writer.write_speed_percent(0, pct(50.0)).last(), Some(&word(148, 0x34, 0x12)));
    // The one for reads is not.
    assert_eq!(writer.write_speed_percent(0, pct(100.0)).last(), Some(&word(148, 70, 0)));
    // A speed next to that of an override is computed.
    assert_eq!(writer.write_speed_percent(0, 1).last(), Some(&word(148, 175, 0)));
}

#[test]
fn override_match_writes_the_value_verbatim() {
    let mut config = fan(175, 70);
    config.fan_speed_percentage_overrides =
        Some(vec![over(0.0, 255, Some(OverrideTargetOperation::Write))]);
    let mut writer = ECWriter::new();
    writer.refresh_config(false, None, &vec![config]);
    let plan = writer.write_speed_percent(0, pct(0.0));
    assert_eq!(plan, vec![byte(148, 255)]);
    assert_ne!(plan, vec![byte(148, 175)]);
}

#[test]
fn inverse_polarity_is_linear() {
    let mut writer = ECWriter::new();
    writer.refresh_config(false, None, &vec![fan(175, 70)]);
    assert_eq!(writer.write_speed_percent(0, pct(50.0)), vec![byte(148, 123)]);
    assert_eq!(writer.write_speed_percent(0, pct(0.0)), vec![byte(148, 175)]);
    assert_eq!(writer.write_speed_percent(0, pct(100.0)), vec![byte(148, 70)]);
    assert_eq!(compute_linear_raw(175, 70, pct(50.0)), 123);
}

#[test]
fn linear_values_are_rounded_to_the_nearest() {
    assert_eq!(compute_linear_raw(0, 255, pct(50.0)), 128);
    assert_eq!(compute_linear_raw(0, 255, pct(25.0)), 64);
    assert_eq!(compute_linear_raw(0, 255, pct(75.0)), 191);
    assert_eq!(compute_linear_raw(0, 100, 499), 0);
    assert_eq!(compute_linear_raw(0, 100, 500), 1);
    assert_eq!(compute_linear_raw(0, 100, 1499), 1);
    assert_eq!(compute_linear_raw(100, 0, 500), 100);
    assert_eq!(compute_linear_raw(100, 0, 501), 99);
    assert_eq!(compute_linear_raw(0, 1000, pct(42.5)), 425);
    assert_eq!(compute_linear_raw(7, 7, pct(33.0)), 7);
}

#[test]
fn speeds_beyond_the_range_stay_within_a_word() {
    assert_eq!(compute_linear_raw(0, 65535, pct(200.0)), 65535);
    assert_eq!(compute_linear_raw(0, 255, pct(200.0)), 510);
    assert_eq!(compute_linear_raw(0, 255, pct(-50.0)), 0);
    assert_eq!(compute_linear_raw(255, 0, pct(200.0)), 0);
    assert_eq!(compute_linear_raw(100, 200, pct(-50.0)), 50);
    assert_eq!(compute_linear_raw(0, 65535, i32::MAX), 65535);
    assert_eq!(compute_linear_raw(0, 65535, i32::MIN), 0);
    assert_eq!(compute_linear_raw(65535, 0, i32::MIN), 65535);
}

#[test]
fn a_byte_write_keeps_the_low_byte_only() {
    let writer = ECWriter::new();
    assert_eq!(writer.write_value(false, 5, 0x1234), byte(5, 0x34));
    assert_eq!(writer.write_value(true, 5, 0x1234), word(5, 0x34, 0x12));
    assert_eq!(EcWrite::value(5, 0x1234, true).bytes(), vec![0x34, 0x12]);
    assert_eq!(EcWrite::value(5, 0x1234, false).bytes(), vec![0x34]);
    assert_eq!(EcWrite::byte(9, 200).bytes(), vec![200]);
}

#[test]
fn raw_speed_of_a_single_fan() {
    let mut config = fan(175, 70);
    config.fan_speed_percentage_overrides = Some(vec![
        over(10.0, 1, Some(OverrideTargetOperation::ReadWrite)),
        over(10.0, 2, Some(OverrideTargetOperation::Write)),
    ]);
    let kept = FanWriteConfig::new(&config);
    // The first of two overrides for one speed wins.
    assert_eq!(kept.raw_speed(pct(10.0)), 1);
    assert_eq!(kept.raw_speed(pct(20.0)), 154);
}

fn sample_reader(words: bool) -> ECReader {
    let mut reader = ECReader::new();
    reader.refresh_config(words, &sample_fans());
    reader
}

#[test]
fn refresh() {
    let reader = sample_reader(true);
    assert!(reader.read_words);
    assert_eq!(reader.fans_read_config.len(), 3);
    let first = &reader.fans_read_config[0];
    assert_eq!(first.read_register, 149);
    assert_eq!(first.min_speed_read, 175);
    assert_eq!(first.max_speed_read, 70);
    assert_eq!(
        first.read_percent_overrides,
        vec![
            over(100.0, 60, Some(OverrideTargetOperation::Read)),
            over(50.0, 0x1234, None),
        ]
    );
}

#[test]
fn read_bounds_of_their_own_are_used() {
    let mut config = fan(0, 255);
    config.independent_read_min_max_values = true;
    config.min_speed_value_read = 10;
    config.max_speed_value_read = 110;
    let kept = FanReadConfig::new(&config);
    assert_eq!(kept.min_speed_read, 10);
    assert_eq!(kept.max_speed_read, 110);
    assert_eq!(kept.speed_percent(60), pct(50.0));
    config.independent_read_min_max_values = false;
    let kept = FanReadConfig::new(&config);
    assert_eq!(kept.min_speed_read, 0);
    assert_eq!(kept.max_speed_read, 255);
}

#[test]
fn read_register_value() {
    let reader = sample_reader(true);
    assert_eq!(reader.read_request(0), EcRead { offset: 149, word: true });
    assert_eq!(reader.read_request(1), EcRead { offset: 151, word: true });
    assert_eq!(reader.read_request(0).len(), 2);
    assert_eq!(sample_reader(false).read_request(1), EcRead { offset: 151, word: false });
    assert_eq!(sample_reader(false).read_request(1).len(), 1);
    // Bounds, and a value between them.
    assert_eq!(reader.read_speed_percent(0, 175), pct(0.0));
    assert_eq!(reader.read_speed_percent(0, 70), pct(100.0));
    assert_eq!(reader.read_speed_percent(0, 123), 49_524);
    assert_eq!(reader.read_speed_percent(1, 500), pct(50.0));
    assert_eq!(reader.read_speed_percent(1, 425), pct(42.5));
    assert_eq!(reader.read_speed_percent(1, 1), 100);
    // Values beyond the bounds give the nearest bound.
    assert_eq!(reader.read_speed_percent(0, 200), pct(0.0));
    assert_eq!(reader.read_speed_percent(0, 0), pct(100.0));
    assert_eq!(reader.read_speed_percent(1, 2000), pct(100.0));
}

#[test]
fn read_overrides() {
    let reader = sample_reader(true);
    assert_eq!(reader.read_speed_percent(0, 60), pct(100.0));
    assert_eq!(reader.read_speed_percent(0, 0x1234), pct(50.0));
    // The override for writes does not count for reads.
    assert_eq!(reader.read_speed_percent(0, 255), pct(0.0));
    let mut config = fan(0, 255);
    config.fan_speed_percentage_overrides =
        Some(vec![over(250.0, 7, None), over(-3.0, 8, None)]);
    let kept = FanReadConfig::new(&config);
    // A speed of an override is limited to the range of speeds.
    assert_eq!(kept.speed_percent(7), pct(100.0));
    assert_eq!(kept.speed_percent(8), pct(0.0));
}

#[test]
fn raw_values_are_read_from_bytes() {
    let words = sample_reader(true);
    let bytes = sample_reader(false);
    assert_eq!(words.read_value(&[0x34, 0x12]), 0x1234);
    assert_eq!(bytes.read_value(&[0x34, 0x12]), 0x34);
    assert_eq!(bytes.read_value(&[200]), 200);
    assert_eq!(words.read_value(&[200]), 0);
    assert_eq!(bytes.read_value(&[]), 0);
    assert_eq!(EcRead::decode(&[0x34, 0x12]), 0x1234);
    assert_eq!(EcRead::decode(&[0x34]), 0x34);
    assert_eq!(EcRead::decode(&[]), 0);
}

#[test]
fn equal_bounds_read_as_one_end_or_the_other() {
    assert_eq!(compute_linear_percent(7, 7, 7), 0);
    assert_eq!(compute_linear_percent(7, 7, 6), 0);
    assert_eq!(compute_linear_percent(7, 7, 8), 100_000);
}

#[test]
fn linear_speeds_are_rounded_to_the_nearest() {
    assert_eq!(compute_linear_percent(0, 3, 1), 33_333);
    assert_eq!(compute_linear_percent(0, 3, 2), 66_667);
    assert_eq!(compute_linear_percent(3, 0, 1), 66_667);
    assert_eq!(compute_linear_percent(0, 200_u16, 1), 500);
    assert_eq!(compute_linear_percent(0, 65535, 65535), 100_000);
    assert_eq!(compute_linear_percent(0, 65535, 1), 2);
}

/// What a fan reads after `speed` was written, where the register gives back
/// what it was given.
fn there_and_back(config: &FanConfiguration, words: bool, speed: i32) -> i32 {
    let mut writer = ECWriter::new();
    writer.refresh_config(words, None, &vec![config.clone()]);
    let mut reader = ECReader::new();
    reader.refresh_config(words, &vec![config.clone()]);
    let write = *writer.write_speed_percent(0, speed).last().unwrap();
    let raw = reader.read_value(&write.bytes());
    reader.read_speed_percent(0, raw)
}

#[test]
fn what_is_written_is_read_back_within_one_step() {
    let fans = [(175u16, 70u16, false), (0, 255, false), (0, 1000, true), (65535, 0, true), (3, 4, false)];
    for (min, max, words) in fans {
        let config = fan(min, max);
        let span = (max as i64 - min as i64).abs();
        for percent in [0.0, 25.0, 50.0, 75.0, 100.0, 33.333, 99.999, 0.001] {
            let speed = pct(percent);
            let back = there_and_back(&config, words, speed);
            assert!(
                (back as i64 - speed as i64).abs() * span <= 100_000,
                "{} to {}: {} came back as {}",
                min,
                max,
                speed,
                back
            );
        }
    }
    assert_eq!(there_and_back(&fan(175, 70), false, pct(50.0)), 49_524);
    assert_eq!(there_and_back(&fan(0, 1000), true, pct(42.5)), pct(42.5));
}

#[test]
fn a_byte_register_loses_what_does_not_fit() {
    // The bounds need a word, the register holds a byte: 50 % is written as
    // 500, of which the low byte alone arrives.
    let back = there_and_back(&fan(0, 1000), false, pct(50.0));
    assert_eq!(back, pct(24.4));
}
