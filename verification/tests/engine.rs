use multimeter_engine::cli::{parse_cli_command, CliCommand, MigrationCommand};
use multimeter_engine::config::{startup_plan, Config, StartupPlan};
use multimeter_engine::monitor::fake::Fake;
use multimeter_engine::monitor::model::Model;
use multimeter_engine::request::RequestKind;
use multimeter_engine::util::data_container::Float64;
use multimeter_engine::{get_running_flag, shutdown, RunState};

#[test]
fn running_flag_drops_on_stop() {
    let mut state = RunState::new();
    assert!(get_running_flag(&state));
    state.stop();
    assert!(!get_running_flag(&state));
    state.stop();
    assert!(!get_running_flag(&state));
}

#[test]
fn shutdown_succeeds() {
    assert!(shutdown().is_ok());
}

#[test]
fn default_configuration() {
    let c = Config::default();
    assert!(!c.tcp.enable);
    assert_eq!(c.tcp.port, 5000);
    assert_eq!(c.http.port, 5100);
    assert!(c.tui.enable);
    assert!(c.system_migration.user_package);
    assert!(c.system_migration.home_file.is_empty());
    assert_eq!(
        startup_plan(&c),
        StartupPlan { tcp_port: None, http_requested: false, tui_requested: true }
    );
}

#[test]
fn enabled_tcp_is_served_on_its_port() {
    let mut c = Config::default();
    c.tcp.enable = true;
    c.tcp.port = 6000;
    assert_eq!(startup_plan(&c).tcp_port, Some(6000));
}

#[test]
fn config_file_sits_in_its_directory() {
    assert_eq!(Config::config_path("/home/u/.multimeter-engine"), "/home/u/.multimeter-engine/multimeter-engine.toml");
}

#[test]
fn cli_migration_commands() {
    let args = |v: &[&str]| v.iter().map(|s| s.to_string()).collect::<Vec<_>>();
    assert_eq!(
        parse_cli_command(&args(&["engine", "--cli", "migration", "backup"])),
        Some(CliCommand::Migration(MigrationCommand::Backup))
    );
    assert_eq!(parse_cli_command(&args(&["engine", "--cli", "migration", "nope"])), None);
    assert_eq!(parse_cli_command(&args(&["engine"])), None);
}

#[test]
fn fake_machine_is_filled_in() {
    let mut fake = Fake::build().unwrap();
    let mut model = Model::default();
    fake.update_once(&mut model).unwrap();
    assert_eq!(model.system.os_name.as_deref(), Some("fake-os"));
    assert_eq!(model.battery.designed_capacity, Some(Float64 { bits: 100.0f64.to_bits() }));
    assert_eq!(model.cpu.clock, Some(Float64 { bits: 3.2f64.to_bits() }));
    assert_eq!(model.cpu.voltage, Some(Float64 { bits: 1.1f64.to_bits() }));
    assert_eq!(model.ram.free_swap, Some(Float64 { bits: 7.0f64.to_bits() }));
    assert_eq!(model.fans.mid_speed, Some(900));
    assert_eq!(model.gpu.mem_clock, Some(1600));
    assert_eq!(model.cpu.clock_begin_index, None);
    assert!(fake.update(&mut model).is_ok());
    assert!(fake.shutdown().is_ok());
}

#[test]
fn request_kind_names() {
    assert_eq!(RequestKind::GetInfo.name(), "get_info");
    assert_eq!(RequestKind::ExecuteTool.name(), "execute_tool");
}
