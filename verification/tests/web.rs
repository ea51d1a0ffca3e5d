use multimeter_engine::monitor::model::Model;
use multimeter_engine::monitor::process::{query_process, ConditionQueryStrategy, ProcessSnapshot, ProcessSortKey};
use multimeter_engine::monitor::{query_info, QueryError, QueryRequest};
use multimeter_engine::util::data_container::{DataContainer, Float64, InfoMap};
use multimeter_engine::web::model::{JsonNumber, JsonValue, PayloadItem, Request, Response, ResponseError};
use multimeter_engine::web::request_executor::{
    execute_v2_request, json_map_to_info_map, json_value_to_data_container, v2_request_error,
};
use multimeter_engine::web::{parse_error_response, Command, INTERNAL_ERROR_STATE, NOT_FOUND_STATE, PARTIAL_SUCCESS_STATE, SUCCESS_STATE};

fn model() -> Model {
    let mut m = Model::default();
    m.cpu.name = Some("test-cpu".to_string());
    m.battery.voltage = Some(Float64 { bits: 12.0f64.to_bits() });
    m.system.is_activated = Some(true);
    m
}

fn request(command: Command, targets: &[&str]) -> Request {
    Request {
        version: 2,
        id: "req-1".to_string(),
        command,
        payload: targets.iter().map(|t| (t.to_string(), None)).collect(),
    }
}

fn error_of(item: &PayloadItem) -> Option<(&str, &str)> {
    match item {
        PayloadItem::Error { error } => Some((error.code.as_str(), error.message.as_str())),
        _ => None,
    }
}

fn unwrap_either(r: Result<Response, Response>) -> Response {
    match r {
        Ok(x) | Err(x) => x,
    }
}

#[test]
fn every_target_answered_is_a_success() {
    let r = execute_v2_request(request(Command::GetInfo, &["cpu_name", "bat_voltage"]), &model(), None);
    let resp = r.expect("all targets answered");
    assert_eq!(resp.state, SUCCESS_STATE);
    assert_eq!(resp.id, "req-1");
    assert_eq!(resp.version, 2);
    assert_eq!(resp.payload.len(), 2);
    assert_eq!(resp.payload[0].0, "cpu_name");
    match &resp.payload[0].1 {
        PayloadItem::Success { result, addition } => {
            assert_eq!(result, &DataContainer::Text("test-cpu".to_string()));
            assert!(addition.is_empty());
        },
        other => panic!("unexpected {:?}", other),
    }
}

#[test]
fn some_targets_answered_is_partial() {
    let r = execute_v2_request(request(Command::GetInfo, &["cpu_name", "cpu_pooower"]), &model(), None);
    let resp = r.expect("partial success is accepted");
    assert_eq!(resp.state, PARTIAL_SUCCESS_STATE);
    assert_eq!(error_of(&resp.payload[1].1), Some(("query_failed", "Unknown query target: cpu_pooower")));
}

#[test]
fn no_target_answered_is_refused() {
    let r = execute_v2_request(request(Command::GetInfo, &["cpu_pooower", "gpu_name"]), &model(), None);
    let resp = r.expect_err("nothing answered");
    assert_eq!(resp.state, INTERNAL_ERROR_STATE);
    assert_eq!(error_of(&resp.payload[1].1), Some(("query_failed", "No data available for target: gpu_name")));
}

#[test]
fn empty_request_is_a_success() {
    let resp = execute_v2_request(request(Command::GetInfo, &[]), &model(), None).unwrap();
    assert_eq!(resp.state, SUCCESS_STATE);
    assert!(resp.payload.is_empty());
}

#[test]
fn tools_and_shutdown_are_not_implemented() {
    let resp = execute_v2_request(request(Command::ExecuteTool, &["x"]), &model(), None).unwrap_err();
    assert_eq!(resp.state, NOT_FOUND_STATE);
    assert_eq!(resp.id, "req-1");
    assert_eq!(error_of(&resp.payload[0].1), Some(("not_implemented", "execute_tool is not implemented")));
    let resp = execute_v2_request(request(Command::Shutdown, &[]), &model(), None).unwrap_err();
    assert_eq!(error_of(&resp.payload[0].1), Some(("not_implemented", "shutdown is not implemented")));
}

#[test]
fn unreadable_parameters_refuse_the_target() {
    let mut req = request(Command::GetInfo, &["process"]);
    req.payload[0].1 = Some(vec![("limit".to_string(), JsonValue::Number(JsonNumber::NegInt(-5_000_000_000)))]);
    let resp = unwrap_either(execute_v2_request(req, &model(), None));
    assert_eq!(resp.state, INTERNAL_ERROR_STATE);
    assert_eq!(
        error_of(&resp.payload[0].1),
        Some(("invalid_parameter", "integer parameter out of range: -5000000000"))
    );
}

#[test]
fn unparsable_line_is_answered_with_default_id() {
    let resp = parse_error_response("{\"version\": 1".to_string());
    assert_eq!(resp.id, "__default_id__");
    assert_eq!(resp.state, NOT_FOUND_STATE);
    assert_eq!(resp.version, 1);
    assert_eq!(
        resp.payload.value,
        DataContainer::Text("Failed to parse request: \"{\\\"version\\\": 1\"".to_string())
    );
    assert!(resp.payload.addition.is_none());
}

#[test]
fn unparsable_short_line() {
    let resp = parse_error_response("x".to_string());
    assert_eq!((resp.version, resp.id.as_str(), resp.state), (1, "__default_id__", 404));
    assert_eq!(resp.payload.value, DataContainer::Text("Failed to parse request: \"x\"".to_string()));
    assert_eq!(resp.payload.addition, None);
}

#[test]
fn request_error_shape() {
    let resp = v2_request_error("abc".to_string(), "code", "message");
    assert_eq!(resp.version, 2);
    assert_eq!(resp.id, "abc");
    assert_eq!(resp.state, NOT_FOUND_STATE);
    assert_eq!(resp.payload[0].1, PayloadItem::Error {
        error: ResponseError { code: "code".to_string(), message: "message".to_string() }
    });
}

#[test]
fn json_values_convert() {
    assert_eq!(json_value_to_data_container(&JsonValue::Null), Ok(DataContainer::Null));
    assert_eq!(json_value_to_data_container(&JsonValue::Bool(true)), Ok(DataContainer::Boolean(true)));
    assert_eq!(json_value_to_data_container(&JsonValue::Number(JsonNumber::PosInt(5))), Ok(DataContainer::Int(5)));
    assert_eq!(
        json_value_to_data_container(&JsonValue::Number(JsonNumber::PosInt(3_000_000_000))),
        Err("integer parameter out of range: 3000000000".to_string())
    );
    assert_eq!(
        json_value_to_data_container(&JsonValue::Number(JsonNumber::PosInt(10_000_000_000_000_000_000))),
        Ok(DataContainer::UnsignedLong(10_000_000_000_000_000_000))
    );
    assert_eq!(json_value_to_data_container(&JsonValue::Number(JsonNumber::NegInt(-5))), Ok(DataContainer::Int(-5)));
    assert_eq!(
        json_value_to_data_container(&JsonValue::Array(vec![JsonValue::String("a".to_string()), JsonValue::Null])),
        Ok(DataContainer::Array(vec![DataContainer::Text("a".to_string()), DataContainer::Null]))
    );
    let map = json_map_to_info_map(&vec![("k".to_string(), JsonValue::Bool(false))]).unwrap();
    assert_eq!(map.get("k"), Some(&DataContainer::Boolean(false)));
}

#[test]
fn queries_read_the_model() {
    let m = model();
    let ok = query_info(&QueryRequest { target: "os_activated".to_string(), parameter: None }, &m, None).unwrap();
    assert_eq!(ok.value, DataContainer::Boolean(true));
    let err = query_info(&QueryRequest { target: "gpu_name".to_string(), parameter: None }, &m, None).unwrap_err();
    assert_eq!(err, QueryError::NoData("gpu_name".to_string()));
    assert_eq!(err.message(), "No data available for target: gpu_name");
    let err = query_info(&QueryRequest { target: "nope".to_string(), parameter: None }, &m, None).unwrap_err();
    assert_eq!(err, QueryError::UnknownTarget("nope".to_string()));
}

fn process(pid: u32, name: &str, memory: u64, cpu: f64) -> ProcessSnapshot {
    ProcessSnapshot {
        pid,
        parent: None,
        name: name.to_string(),
        cmd: vec![],
        exe: None,
        cwd: None,
        root: None,
        environ: vec![],
        status: "Run".to_string(),
        start_time: 0,
        run_time: 0,
        cpu_usage: Float64 { bits: cpu.to_bits() },
        memory,
        virtual_memory: memory * 2,
        total_read_bytes: 0,
        read_bytes: 0,
        total_written_bytes: 0,
        written_bytes: 0,
    }
}

#[test]
fn processes_are_ordered_stably_and_limited() {
    let ps = vec![process(3, "c", 10, 1.0), process(1, "a", 30, 5.0), process(2, "b", 10, 0.5)];
    let by_memory = query_process(&ps, &ConditionQueryStrategy { sort_by: ProcessSortKey::Memory, descending: false, limit: None });
    assert_eq!(by_memory.iter().map(|p| p.pid).collect::<Vec<_>>(), vec![3, 2, 1]);
    let by_cpu_desc = query_process(&ps, &ConditionQueryStrategy { sort_by: ProcessSortKey::CpuUsage, descending: true, limit: Some(2) });
    assert_eq!(by_cpu_desc.iter().map(|p| p.pid).collect::<Vec<_>>(), vec![1, 3]);
    let default = query_process(&ps, &ConditionQueryStrategy::default());
    assert_eq!(default.iter().map(|p| p.pid).collect::<Vec<_>>(), vec![2, 3, 1]);
}

#[test]
fn process_target_lists_processes() {
    let ps = vec![process(7, "x", 1, 0.0)];
    let mut params = InfoMap::new();
    params.insert("sort_by".to_string(), DataContainer::Text("pid".to_string()));
    let ok = query_info(&QueryRequest { target: "process".to_string(), parameter: Some(params) }, &model(), Some(&ps)).unwrap();
    match ok.value {
        DataContainer::Array(items) => assert_eq!(items.len(), 1),
        other => panic!("unexpected {:?}", other),
    }
    let err = query_info(&QueryRequest { target: "process".to_string(), parameter: None }, &model(), None).unwrap_err();
    assert_eq!(err, QueryError::NoData("process".to_string()));
}
