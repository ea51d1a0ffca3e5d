use multimeter_engine::external::interact_executor::{command_line, input_text, reached, EOF};
use multimeter_engine::external_program::lhm_helper::{
    candidate_ports, check, check_response_len, command_bytes, int_bytes, is_check_response, Command,
    DEFAULT_PORT, IP, PORT_FIND_RANGE,
};
use multimeter_engine::external_program::program::{bytes_as_text, LaunchSpec, ProgramError};

#[test]
fn command_codes_follow_the_protocol() {
    let codes: Vec<i32> = [
        Command::QueryHardware,
        Command::SetAuto,
        Command::SetValue,
        Command::GetValue,
        Command::Shutdown,
        Command::Update,
        Command::GetStringValue,
    ]
    .iter()
    .map(|c| c.code())
    .collect();
    assert_eq!(codes, vec![0, 1, 2, 3, 4, 5, 6]);
}

#[test]
fn integers_go_out_little_endian() {
    for v in [0i32, 1, 3, 258, -1, i32::MIN, i32::MAX, 123456789] {
        assert_eq!(int_bytes(v), v.to_le_bytes().to_vec());
    }
    assert_eq!(command_bytes(Command::GetValue), vec![3, 0, 0, 0]);
}

#[test]
fn greeting_and_answer() {
    assert_eq!(check(), b"fan-control-check".to_vec());
    assert!(is_check_response(b"fan-control-ok"));
    assert!(!is_check_response(b"fan-control-no"));
    assert!(!is_check_response(b"fan-control-ok!"));
    assert_eq!(check_response_len(), b"fan-control-ok".len());
}

#[test]
fn ports_are_tried_from_the_default() {
    let ports = candidate_ports();
    assert_eq!(ports.len(), PORT_FIND_RANGE as usize);
    assert_eq!(ports[0], DEFAULT_PORT);
    assert_eq!(ports[49], 49249);
    assert_eq!(IP, "127.0.0.1");
}

#[test]
fn test_command() {
    let p = LaunchSpec::new_command("head", false).args(vec!["-c".to_string(), "2".to_string()]);
    assert_eq!(p.launch_args(false, Some(0)), Ok(vec!["-c".to_string(), "2".to_string()]));
    assert_eq!(bytes_as_text(b"hi"), "hi");
}

#[test]
fn test_fail_command() {
    // The launch itself fails when the process is spawned; the library's part
    // is to hand over the program with no arguments.
    let p = LaunchSpec::new_command("asdfghjklzxcvbnm", false);
    assert_eq!(p.program, "asdfghjklzxcvbnm");
    assert_eq!(p.launch_args(false, None), Ok(vec![]));
}

#[test]
fn refused_starts() {
    let p = LaunchSpec::new_command("asdfghjklzxcvbnm", false);
    assert_eq!(p.launch_args(true, None), Err(ProgramError::AlreadyRunning));
    assert_eq!(p.launch_args(false, Some(0)), Err(ProgramError::NoPresetArguments));
    assert_eq!(ProgramError::NotRunning.message(), "Program is not running");
}

#[test]
fn windows_commands_run_through_cmd() {
    let p = LaunchSpec::new_command("diskpart", true).args(vec!["/s".to_string()]);
    assert_eq!(
        p.launch_args(false, Some(0)),
        Ok(vec!["cmd".to_string(), "/C".to_string(), "/s".to_string()])
    );
    assert_eq!(p.launch_args(false, None), Ok(vec!["cmd".to_string(), "/C".to_string()]));
}

#[test]
fn preset_index_must_exist() {
    let p = LaunchSpec::new_external_tool("stress".to_string()).args(vec!["--cpu".to_string()]);
    assert_eq!(p.launch_args(false, Some(1)), Err(ProgramError::IndexOutOfBounds));
    assert_eq!(ProgramError::IndexOutOfBounds.message(), "Index out of bounds of arguments set");
    assert!(p.has_args());
}

#[test]
fn working_directory_is_the_tools_own() {
    let p = LaunchSpec::new_external_tool("/opt/tools/gpu_burn".to_string()).preserve_working_dir();
    assert_eq!(p.working_dir(), Some("/opt/tools".to_string()));
    let q = LaunchSpec::new_external_tool("/".to_string()).preserve_working_dir();
    assert_eq!(q.working_dir(), Some(".".to_string()));
    let r = LaunchSpec::new_external_tool("/opt/tools/stress".to_string());
    assert_eq!(r.working_dir(), None);
    assert!(LaunchSpec::new_external_tool("x".to_string()).standalone().standalone);
}

#[test]
fn output_bytes_become_characters() {
    assert_eq!(bytes_as_text(&[0x41, 0xe9]), "A\u{e9}");
}

#[test]
fn command_lines_split_like_a_shell() {
    let c = command_line("stress --cpu 'two words'").unwrap();
    assert_eq!(c.program, "stress");
    assert_eq!(c.args, vec!["--cpu".to_string(), "two words".to_string()]);
    assert_eq!(command_line("echo 'open").err(), Some("missing closing quote".to_string()));
    assert_eq!(command_line("   ").err(), Some("empty command".to_string()));
}

#[test]
fn inputs_end_with_a_line_break() {
    assert_eq!(input_text(Some("list disk")), "list disk\n");
    assert_eq!(input_text(None), "");
}

#[test]
fn answers_end_at_the_marker() {
    assert!(reached("DISKPART> ", "DISKPART> "));
    assert!(reached("abc\0", EOF));
    assert!(!reached("abc", EOF));
    assert!(!reached("", "x"));
}
