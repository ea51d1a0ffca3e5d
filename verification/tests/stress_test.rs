use multimeter_engine::external_program::stress_test_manager::TestKind as ToolKind;
use multimeter_engine::stress_test::stress_test_manager::{
    select_kinds, test_program, test_tool, StressTestError, TestKind, TestMode, TestSession, TestState, ALL_TEST,
    CPU_GPU_TEST, CPU_TEST, GPU_TEST, RAM_TEST,
};

#[test]
fn new_session_is_idle() {
    let s = TestSession::new();
    assert_eq!(s.get_state(), [TestState::NotWorking; 4]);
    assert_eq!(s.combine, 0);
    assert_eq!(s.mode, None);
    assert!(s.kinds_to_close().is_none());
}

#[test]
fn combinations_select_tests_in_order() {
    assert_eq!(select_kinds(ALL_TEST), vec![TestKind::Cpu, TestKind::Gpu, TestKind::Ram]);
    assert_eq!(select_kinds(CPU_GPU_TEST), vec![TestKind::Cpu, TestKind::Gpu]);
    assert_eq!(select_kinds(RAM_TEST), vec![TestKind::Ram]);
    assert_eq!(select_kinds(GPU_TEST | RAM_TEST), vec![TestKind::Gpu, TestKind::Ram]);
    assert_eq!(select_kinds(0), vec![]);
    assert_eq!(CPU_TEST, 0b100);
}

#[test]
fn starting_a_session_starts_the_selected_tests() {
    let mut s = TestSession::new();
    let kinds = s.begin(CPU_GPU_TEST, TestMode::TimeLimit(60)).unwrap();
    assert_eq!(kinds, vec![TestKind::Cpu, TestKind::Gpu]);
    assert_eq!(s.get_state(), [TestState::Waiting, TestState::Well, TestState::Well, TestState::Well]);
    s.mark_started();
    assert_eq!(s.get_state(), [TestState::Well; 4]);
    assert_eq!(s.mode, Some(TestMode::TimeLimit(60)));
}

#[test]
fn automatic_mode_starts_nothing_itself() {
    let mut s = TestSession::new();
    assert_eq!(s.begin(ALL_TEST, TestMode::AutoJudge), Ok(vec![]));
    assert_eq!(s.kinds_to_close(), Some(vec![TestKind::Cpu, TestKind::Gpu, TestKind::Ram]));
}

#[test]
fn running_session_refuses_a_second_start() {
    let mut s = TestSession::new();
    s.begin(RAM_TEST, TestMode::Infinity).unwrap();
    let before = s;
    assert_eq!(s.begin(CPU_TEST, TestMode::Infinity), Err(StressTestError::AlreadyStarted));
    assert_eq!(s.combine, before.combine);
    assert_eq!(s.mode, before.mode);
}

#[test]
fn stopping_closes_what_was_started_and_resets() {
    let mut s = TestSession::new();
    let started = s.begin(GPU_TEST | RAM_TEST, TestMode::Infinity).unwrap();
    assert_eq!(s.kinds_to_close(), Some(started));
    s.reset();
    assert_eq!(s.get_state(), [TestState::NotWorking; 4]);
    assert_eq!(s.combine, 0);
    assert!(s.kinds_to_close().is_none());
}

#[test]
fn tools_exist_on_linux_only() {
    assert_eq!(test_tool(TestKind::Cpu, true), Some("stress"));
    assert_eq!(test_tool(TestKind::Gpu, true), Some("gpu_burn"));
    assert_eq!(test_tool(TestKind::Ram, true), Some("stress"));
    assert_eq!(test_tool(TestKind::Cpu, false), None);
}

#[test]
fn tools_are_launched_with_their_presets() {
    let cpu = test_program(TestKind::Cpu, "/opt/externals/stress".to_string());
    assert_eq!(cpu.program, "/opt/externals/stress");
    assert_eq!(cpu.args_set, Some(vec![vec!["--quiet".to_string(), "--cpu".to_string(), "16".to_string()]]));
    assert!(!cpu.preserve_working_dir);
    let ram = test_program(TestKind::Ram, "stress".to_string());
    assert_eq!(ram.args_set, Some(vec![vec!["--quiet".to_string(), "--vm".to_string(), "16".to_string()]]));
    let gpu = test_program(TestKind::Gpu, "/opt/externals/gpu_burn".to_string());
    assert_eq!(gpu.args_set, None);
    assert!(gpu.preserve_working_dir);
}

#[test]
fn unavailable_test_messages() {
    assert_eq!(ToolKind::Cpu.unavailable(), "CPU stress test not available");
    assert_eq!(ToolKind::Gpu.unavailable(), "GPU stress test not available");
    assert_eq!(ToolKind::Ram.unavailable(), "RAM stress test not available");
}
