use multimeter_engine::monitor::hardware_model::Device;
use multimeter_engine::monitor::hardware_manager::HardwareManager;
use multimeter_engine::util::data_container::{DataContainer, Float64, InfoMap};

fn f(v: f64) -> Option<Float64> {
    Some(Float64 { bits: v.to_bits() })
}

#[test]
fn commit_moves_staged_values() {
    let mut manager = HardwareManager::new();
    let mut published = InfoMap::new();
    manager.temp_model.battery.voltage = f(12.5);
    manager.temp_model.cpu.name = Some("cpu-x".to_string());
    manager.temp_model.cpu.clock_begin_index = Some(3);
    manager.temp_model.fans.fan_speed = Some(vec![1200, 900]);
    manager.commit(&mut published);

    let committed = manager.real_model();
    assert_eq!(committed.battery.voltage, f(12.5));
    assert_eq!(committed.cpu.name.as_deref(), Some("cpu-x"));
    assert_eq!(committed.fans.fan_speed, Some(vec![1200, 900]));
    assert_eq!(manager.temp_model.battery.voltage, None);
    assert_eq!(manager.temp_model.cpu.name, None);

    assert_eq!(published.get("bat_voltage"), Some(&DataContainer::Float(Float64 { bits: 12.5f64.to_bits() })));
    assert_eq!(published.get("cpu_name"), Some(&DataContainer::Text("cpu-x".to_string())));
    assert_eq!(published.get("cpu_clock_first"), Some(&DataContainer::Int(3)));
    assert_eq!(published.get("gpu_name"), None);
}

#[test]
fn unstaged_values_stay() {
    let mut manager = HardwareManager::new();
    let mut published = InfoMap::new();
    manager.temp_model.ram.total_size = f(16.0);
    manager.commit(&mut published);
    manager.temp_model.ram.used_size = f(8.0);
    manager.commit(&mut published);
    assert_eq!(manager.real_model().ram.total_size, f(16.0));
    assert_eq!(manager.real_model().ram.used_size, f(8.0));
}

#[test]
fn second_commit_changes_nothing() {
    let mut manager = HardwareManager::new();
    let mut published = InfoMap::new();
    manager.temp_model.gpu.temperature = f(55.0);
    manager.temp_model.battery.is_charging = Some(true);
    manager.commit(&mut published);
    let before = published.entries.len();
    manager.commit(&mut published);
    assert_eq!(manager.real_model().gpu.temperature, f(55.0));
    assert_eq!(manager.real_model().battery.is_charging, Some(true));
    assert_eq!(published.entries.len(), before);
    assert_eq!(published.get("bat_state"), Some(&DataContainer::Boolean(true)));
}

#[test]
fn current_is_not_published() {
    let mut manager = HardwareManager::new();
    let mut published = InfoMap::new();
    manager.temp_model.battery.current = f(1.5);
    manager.commit(&mut published);
    assert_eq!(manager.real_model().battery.current, f(1.5));
    assert!(published.is_empty());
}

#[test]
fn staging_a_device_then_committing() {
    let mut manager = HardwareManager::new();
    let mut published = InfoMap::new();
    let mut staged = Device::default();
    staged.cpu.usage = f(42.0);
    manager.stage(staged);
    assert_eq!(manager.real_model().cpu.usage, None);
    manager.commit(&mut published);
    assert_eq!(manager.real_model().cpu.usage, f(42.0));
    assert_eq!(published.get("cpu_usage"), Some(&DataContainer::Float(Float64 { bits: 42.0f64.to_bits() })));
}
