use multimeter_engine::monitor::windows::{
    activation_from_first_read, activation_from_second_read, build_index_map, sensor_patterns, sensor_to_read,
    Sensor, SensorIndexMap,
};
use multimeter_engine::monitor::query_statements;

fn sensor(name: &str, kind: &str, info: &str, index: i32) -> Sensor {
    Sensor {
        id: format!("/sensor/{index}"),
        name: name.to_string(),
        index,
        kind: kind.to_string(),
        info: info.to_string(),
    }
}

fn sample_sensors() -> Vec<Sensor> {
    vec![
        sensor("CPU Core #1", "Load", "Load", 0),
        sensor("CPU Core #2", "Load", "Load", 1),
        sensor("CPU Core #16", "Load", "Load", 2),
        sensor("CPU Total", "Load", "Load", 3),
        sensor("CPU Package", "Temperature", "Temperature", 4),
        sensor("CPU Core #1", "Temperature", "Temperature", 5),
        sensor("CPU Core #2", "Temperature", "Temperature", 6),
        sensor("CPU Core #1 Distance to TjMax", "Temperature", "Temperature", 7),
        sensor("CPU Core #2 Distance to TjMax", "Temperature", "Temperature", 8),
        sensor("CPU Package", "Power", "Power", 9),
        sensor("Core #1", "Clock", "Clock", 10),
        sensor("Core #2", "Clock", "Clock", 11),
        sensor("GPU Core", "Temperature", "Temperature", 12),
        sensor("Memory Used", "Data", "Data", 13),
        sensor("Memory Available", "Data", "Data", 14),
        sensor("Designed Capacity", "Energy", "Energy", 15),
        sensor("Charge Rate", "Power", "Power", 16),
        sensor("Temperature 1", "Temperature", "Temperature", 17),
        sensor("Temperature 2", "Temperature", "Temperature", 18),
        sensor("Fan #1", "Fan", "Fan", 19),
    ]
}

fn built() -> SensorIndexMap {
    let patterns = sensor_patterns().expect("the rules' patterns compile");
    build_index_map(&sample_sensors(), &patterns)
}

#[test]
fn test_match() {
    let index_map = built();
    assert_ne!(index_map.get("cpu_usage_first").unwrap(), index_map.get("cpu_usage_last").unwrap());
    assert_ne!(
        index_map.get("cpu_temperature_first").unwrap(),
        index_map.get("cpu_temperature_last").unwrap()
    );
}

#[test]
fn sensors_are_indexed_by_rule() {
    let m = built();
    assert_eq!(m.get("cpu_usage_first"), Some(0));
    assert_eq!(m.get("cpu_usage_last"), Some(2));
    assert_eq!(m.get("cpu_usage"), Some(3));
    assert_eq!(m.get("cpu_temperature"), Some(4));
    assert_eq!(m.get("cpu_temperature_first"), Some(5));
    assert_eq!(m.get("cpu_temperature_last"), Some(6));
    assert_eq!(m.get("cpu_tjmax_first"), Some(7));
    assert_eq!(m.get("cpu_tjmax_last"), Some(8));
    assert_eq!(m.get("cpu_power"), Some(9));
    assert_eq!(m.get("cpu_clock_first"), Some(10));
    assert_eq!(m.get("cpu_clock_last"), Some(11));
    assert_eq!(m.get("gpu_temperature"), Some(12));
    assert_eq!(m.get("mem_used"), Some(13));
    assert_eq!(m.get("mem_available"), Some(14));
    assert_eq!(m.get("bat_capacity_designed"), Some(15));
    assert_eq!(m.get("bat_rate"), Some(16));
    assert_eq!(m.get("disk_temperature_first"), Some(17));
    assert_eq!(m.get("disk_temperature_last"), Some(18));
}

#[test]
fn unanswered_keys_hold_minus_one() {
    let m = built();
    assert_eq!(m.get("gpu_power"), Some(-1));
    assert_eq!(m.get("os_name"), Some(-1));
    assert_eq!(m.get("fan_speed"), None);
    for key in query_statements() {
        assert!(m.get(&key).is_some(), "{key}");
    }
}

#[test]
fn only_assigned_sensors_are_read() {
    let m = built();
    assert_eq!(sensor_to_read(&m, "cpu_power"), Some(9));
    assert_eq!(sensor_to_read(&m, "gpu_power"), None);
    assert_eq!(sensor_to_read(&m, "no_such_key"), None);
}

#[test]
fn three_digit_core_is_not_a_numbered_core() {
    let patterns = sensor_patterns().unwrap();
    let m = build_index_map(&vec![sensor("CPU Core #100", "Load", "Load", 5)], &patterns);
    assert_eq!(m.get("cpu_usage_last"), Some(-1));
}

#[test]
fn set_replaces_the_first_entry() {
    let mut m = SensorIndexMap::unassigned();
    m.set("cpu_power", 3);
    assert_eq!(m.get("cpu_power"), Some(3));
    m.set("extra_key", 4);
    assert_eq!(m.get("extra_key"), Some(4));
}

#[test]
fn activation_is_read_from_two_outputs() {
    assert_eq!(activation_from_first_read("The machine is permanently activated."), Some(true));
    assert_eq!(activation_from_first_read("Windows is in Notification mode"), None);
    assert!(activation_from_second_read("计算机已永久激活。"));
    assert!(!activation_from_second_read("Windows is in Notification mode"));
}
