use multimeter_engine::monitor::model::{Model, SystemPackageManager};
use multimeter_engine::monitor::query::{QueryField, QueryResult};
use multimeter_engine::util::data_container::{DataContainer, Float64};

fn found(r: QueryResult) -> Option<DataContainer> {
    match r {
        QueryResult::Found(v) => v,
        QueryResult::NotFound => panic!("key not found"),
    }
}

#[test]
fn nested_parts_answer_their_keys() {
    let mut m = Model::default();
    m.fans.cpu_speed = Some(2400);
    m.ram.total_swap = Some(Float64 { bits: 2.0f64.to_bits() });
    m.system.package_manager = Some(SystemPackageManager::Pacman);
    m.gpu.clock = Some(1500);
    m.disk.disk_list = Some(vec!["sda".to_string()]);
    assert_eq!(found(m.query("fan_rpm_cpu", None, None)), Some(DataContainer::Int(2400)));
    assert_eq!(
        found(m.query("mem_swap_total", None, None)),
        Some(DataContainer::Float(Float64 { bits: 2.0f64.to_bits() }))
    );
    assert_eq!(found(m.query("os_package_manager", None, None)), Some(DataContainer::Text("pacman".to_string())));
    assert_eq!(found(m.query("gpu_clock", None, None)), Some(DataContainer::Int(1500)));
    assert_eq!(
        found(m.query("disk_disk", None, None)),
        Some(DataContainer::Array(vec![DataContainer::Text("sda".to_string())]))
    );
}

#[test]
fn unknown_values_are_found_empty() {
    let m = Model::default();
    assert_eq!(found(m.query("bat_rate", None, None)), None);
    assert_eq!(found(m.query("motherboard_name", None, None)), None);
}

#[test]
fn unknown_keys_are_not_found() {
    let m = Model::default();
    assert!(matches!(m.query("no_such_key", None, None), QueryResult::NotFound));
}

#[test]
fn package_manager_names() {
    assert_eq!(SystemPackageManager::try_from_name("dnf"), Some(SystemPackageManager::Dnf));
    assert_eq!(SystemPackageManager::try_from_name("yum"), None);
    assert_eq!(SystemPackageManager::Apt.to_data_container(), DataContainer::Text("apt".to_string()));
}
