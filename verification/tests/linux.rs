use multimeter_engine::monitor::linux::{
    handle_fan, next_chip_kind, package_temperature_reading, read_energy_consume, remove_unit, ChipKind,
    PowerCalculator, SensorReading,
};
use multimeter_engine::monitor::model::Fans;
use multimeter_engine::EngineError;

#[test]
fn test_unit_remove() {
    assert_eq!("2400", remove_unit("2400 RPM"));
    assert_eq!("65", remove_unit("65 C"));
}

#[test]
fn remove_unit_keeps_text_without_space() {
    assert_eq!("1200", remove_unit("1200"));
    assert_eq!("", remove_unit(""));
    assert_eq!("", remove_unit(" RPM"));
    assert_eq!("12", remove_unit("12 V extra"));
}

#[test]
fn remove_unit_twice_is_once() {
    let once = remove_unit("2400 RPM");
    assert_eq!(remove_unit(once), once);
}

#[test]
fn coretemp_chip_holds_temperatures() {
    assert_eq!(next_chip_kind(None, "coretemp-isa-0000", Some("fan1")), Some(ChipKind::Temperature));
}

#[test]
fn fan_feature_marks_a_fan_chip() {
    assert_eq!(next_chip_kind(None, "asus-isa-0000", Some("cpu_fan")), Some(ChipKind::Fan));
}

#[test]
fn other_chip_keeps_previous_kind() {
    assert_eq!(next_chip_kind(Some(ChipKind::Fan), "acpitz-acpi-0", Some("temp1")), Some(ChipKind::Fan));
    assert_eq!(next_chip_kind(None, "acpitz-acpi-0", None), None);
}

fn reading(feature: &str, sub: &str, value: Option<&str>) -> SensorReading {
    SensorReading {
        feature: feature.to_string(),
        sub_feature: sub.to_string(),
        value: value.map(|v| v.to_string()),
    }
}

#[test]
fn fan_inputs_are_recorded_by_name() {
    let mut fans = Fans { cpu_speed: None, gpu_speed: None, mid_speed: None };
    let readings = vec![
        reading("cpu_fan", "fan1_input", Some("2400 RPM")),
        reading("cpu_fan", "fan1_min", Some("0 RPM")),
        reading("gpu_fan", "fan2_input", Some("1800 RPM")),
        reading("mid_fan", "fan3_input", Some("900 RPM")),
        reading("other_fan", "fan4_input", Some("100 RPM")),
    ];
    assert_eq!(handle_fan(&mut fans, &readings), Ok(()));
    assert_eq!(fans.cpu_speed, Some(2400));
    assert_eq!(fans.gpu_speed, Some(1800));
    assert_eq!(fans.mid_speed, Some(900));
}

#[test]
fn unreadable_fan_input_stops_reading() {
    let mut fans = Fans { cpu_speed: None, gpu_speed: None, mid_speed: None };
    let readings = vec![
        reading("cpu_fan", "fan1_input", Some("2400 RPM")),
        reading("gpu_fan", "fan2_input", Some("fast RPM")),
        reading("mid_fan", "fan3_input", Some("900 RPM")),
    ];
    assert_eq!(handle_fan(&mut fans, &readings), Err(EngineError::InvalidNumber));
    assert_eq!(fans.cpu_speed, Some(2400));
    assert_eq!(fans.gpu_speed, None);
    assert_eq!(fans.mid_speed, None);
}

#[test]
fn missing_fan_value_is_an_error() {
    let mut fans = Fans { cpu_speed: None, gpu_speed: None, mid_speed: None };
    let readings = vec![reading("cpu_fan", "fan1_input", None)];
    assert_eq!(handle_fan(&mut fans, &readings), Err(EngineError::InvalidNumber));
}

#[test]
fn package_input_is_found_first() {
    let readings = vec![
        reading("Core 0", "temp2_input", Some("50.0 C")),
        reading("Package id 0", "temp1_max", Some("100.0 C")),
        reading("Package id 0", "temp1_input", Some("65.0 C")),
        reading("Package id 1", "temp3_input", Some("60.0 C")),
    ];
    assert_eq!(package_temperature_reading(&readings), Some(2));
    assert_eq!(package_temperature_reading(&readings[..1].to_vec()), None);
}

#[test]
fn energy_counter_reads_trimmed_text() {
    assert_eq!(read_energy_consume("123456789\n"), Ok(123456789));
    assert_eq!(read_energy_consume("  -42 "), Ok(-42));
    assert_eq!(read_energy_consume("12a"), Err(EngineError::InvalidNumber));
    assert_eq!(read_energy_consume(""), Err(EngineError::InvalidNumber));
}

#[test]
fn power_calculator_measures_energy_and_time() {
    let mut calc = PowerCalculator::build("1000000\n", 5_000).unwrap();
    assert_eq!(calc, PowerCalculator { at_nanos: 5_000, energy: 1_000_000 });
    let sample = calc.calculate("3000000\n", 1_000_005_000).unwrap();
    assert_eq!(sample.energy_delta, 2_000_000);
    assert_eq!(sample.elapsed_nanos, 1_000_000_000);
    assert_eq!(calc, PowerCalculator { at_nanos: 1_000_005_000, energy: 3_000_000 });
}

#[test]
fn power_calculator_keeps_state_on_bad_reading() {
    let mut calc = PowerCalculator::build("10", 1).unwrap();
    assert_eq!(calc.calculate("oops", 2), Err(EngineError::InvalidNumber));
    assert_eq!(calc, PowerCalculator { at_nanos: 1, energy: 10 });
}

#[test]
fn power_calculator_reports_counter_overflow() {
    let mut calc = PowerCalculator::build("-170141183460469231731687303715884105728", 1).unwrap();
    assert_eq!(
        calc.calculate("170141183460469231731687303715884105727", 2),
        Err(EngineError::CounterOverflow)
    );
}

#[test]
fn clock_going_back_counts_as_no_time() {
    let mut calc = PowerCalculator::build("5", 100).unwrap();
    let sample = calc.calculate("7", 50).unwrap();
    assert_eq!(sample.elapsed_nanos, 0);
    assert_eq!(sample.energy_delta, 2);
}

#[test]
fn bad_first_reading_refuses_calculator() {
    assert_eq!(PowerCalculator::build("x", 0), Err(EngineError::InvalidNumber));
}
