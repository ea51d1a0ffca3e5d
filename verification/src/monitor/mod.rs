//! The model of the machine and the queries that read it.

use vstd::prelude::*;
use crate::monitor::model::{Model, os_process_answer, os_process_query};
use crate::monitor::process::ProcessSnapshot;
use crate::monitor::query::{QueryField, QueryResult, answer};
use crate::util::data_container::{DataValue, InfoMap};
use crate::util::payload::PayLoad;
use crate::util::text::str_eq;

pub mod fake;
pub mod hardware_manager;
pub mod hardware_model;
pub mod linux;
pub mod model;
pub mod package_manager;
pub mod process;
pub mod query;
pub mod query_laws;
pub mod windows;

verus! {

/// The keys a client may query, in order.
pub open spec fn spec_query_statements() -> Seq<Seq<char>> {
    seq![
        "bat_capacity_designed"@,
        "bat_capacity_max"@,
        "bat_capacity_remain"@,
        "bat_count"@,
        "bat_rate"@,
        "bat_state"@,
        "bat_voltage"@,
        "cpu_clock_avg"@,
        "cpu_clock_first"@,
        "cpu_clock_last"@,
        "cpu_clock_max"@,
        "cpu_clock_rms"@,
        "cpu_name"@,
        "cpu_power"@,
        "cpu_temperature"@,
        "cpu_temperature_first"@,
        "cpu_temperature_last"@,
        "cpu_tjmax_first"@,
        "cpu_tjmax_last"@,
        "cpu_usage"@,
        "cpu_usage_first"@,
        "cpu_usage_last"@,
        "cpu_voltage"@,
        "cpu_voltage_first"@,
        "cpu_voltage_last"@,
        "disk_disk"@,
        "disk_disk_size"@,
        "disk_partition"@,
        "disk_temperature_first"@,
        "disk_temperature_last"@,
        "fan_rpm_cpu"@,
        "fan_rpm_gpu"@,
        "fan_rpm_mid"@,
        "gpu_clock_rms"@,
        "gpu_mem_clock_rms"@,
        "gpu_name"@,
        "gpu_power"@,
        "gpu_temperature"@,
        "gpu_usage"@,
        "mem_available"@,
        "mem_percentage"@,
        "mem_swap_total"@,
        "mem_swap_used"@,
        "mem_total"@,
        "mem_used"@,
        "os_activated"@,
        "os_host_name"@,
        "os_kernel_version"@,
        "os_name"@,
        "os_version"@,
        "process"@,
    ]
}

/// The keys a client may query, in order.
pub fn query_statements() -> (v: Vec<String>)
    ensures
        v@.map_values(|s: String| s@) == spec_query_statements(),
{
    let mut v: Vec<String> = Vec::new();
    v.push(String::from_str("bat_capacity_designed"));
    v.push(String::from_str("bat_capacity_max"));
    v.push(String::from_str("bat_capacity_remain"));
    v.push(String::from_str("bat_count"));
    v.push(String::from_str("bat_rate"));
    v.push(String::from_str("bat_state"));
    v.push(String::from_str("bat_voltage"));
    v.push(String::from_str("cpu_clock_avg"));
    v.push(String::from_str("cpu_clock_first"));
    v.push(String::from_str("cpu_clock_last"));
    v.push(String::from_str("cpu_clock_max"));
    v.push(String::from_str("cpu_clock_rms"));
    v.push(String::from_str("cpu_name"));
    v.push(String::from_str("cpu_power"));
    v.push(String::from_str("cpu_temperature"));
    v.push(String::from_str("cpu_temperature_first"));
    v.push(String::from_str("cpu_temperature_last"));
    v.push(String::from_str("cpu_tjmax_first"));
    v.push(String::from_str("cpu_tjmax_last"));
    v.push(String::from_str("cpu_usage"));
    v.push(String::from_str("cpu_usage_first"));
    v.push(String::from_str("cpu_usage_last"));
    v.push(String::from_str("cpu_voltage"));
    v.push(String::from_str("cpu_voltage_first"));
    v.push(String::from_str("cpu_voltage_last"));
    v.push(String::from_str("disk_disk"));
    v.push(String::from_str("disk_disk_size"));
    v.push(String::from_str("disk_partition"));
    v.push(String::from_str("disk_temperature_first"));
    v.push(String::from_str("disk_temperature_last"));
    v.push(String::from_str("fan_rpm_cpu"));
    v.push(String::from_str("fan_rpm_gpu"));
    v.push(String::from_str("fan_rpm_mid"));
    v.push(String::from_str("gpu_clock_rms"));
    v.push(String::from_str("gpu_mem_clock_rms"));
    v.push(String::from_str("gpu_name"));
    v.push(String::from_str("gpu_power"));
    v.push(String::from_str("gpu_temperature"));
    v.push(String::from_str("gpu_usage"));
    v.push(String::from_str("mem_available"));
    v.push(String::from_str("mem_percentage"));
    v.push(String::from_str("mem_swap_total"));
    v.push(String::from_str("mem_swap_used"));
    v.push(String::from_str("mem_total"));
    v.push(String::from_str("mem_used"));
    v.push(String::from_str("os_activated"));
    v.push(String::from_str("os_host_name"));
    v.push(String::from_str("os_kernel_version"));
    v.push(String::from_str("os_name"));
    v.push(String::from_str("os_version"));
    v.push(String::from_str("process"));
    assert(v@.map_values(|s: String| s@) =~= spec_query_statements());
    v
}

/// Whether a client may query `key`.
pub fn is_query_statement(key: &str) -> (r: bool)
    ensures
        r == spec_query_statements().contains(key@),
{
    let statements = query_statements();
    let ghost views = statements@.map_values(|s: String| s@);
    let mut i: usize = 0;
    while i < statements.len()
        invariant
            i <= statements@.len(),
            views == statements@.map_values(|s: String| s@),
            views == spec_query_statements(),
            forall|j: int| 0 <= j < i ==> views[j] != key@,
        decreases statements@.len() - i,
    {
        if str_eq(statements[i].as_str(), key) {
            assert(views[i as int] == key@);
            return true;
        }
        i = i + 1;
    }
    false
}

/// A query: the key of the value asked for, and the query's parameters.
#[derive(Debug)]
pub struct QueryRequest {
    pub target: String,
    pub parameter: Option<InfoMap>,
}

/// Why a query has no value to answer with.
#[derive(Debug, Clone, PartialEq)]
pub enum QueryError {
    /// The key names a value that is not known yet.
    NoData(String),
    /// The key names nothing a client may query.
    UnknownTarget(String),
}

impl QueryError {
    /// The error as a client reads it.
    pub open spec fn spec_message(&self) -> Seq<char> {
        match self {
            QueryError::NoData(t) => "No data available for target: "@ + t@,
            QueryError::UnknownTarget(t) => "Unknown query target: "@ + t@,
        }
    }

    /// The error as a client reads it.
    pub fn message(&self) -> (m: String)
        ensures
            m@ == self.spec_message(),
    {
        match self {
            QueryError::NoData(t) => {
                let mut m = String::from_str("No data available for target: ");
                m.append(t.as_str());
                m
            },
            QueryError::UnknownTarget(t) => {
                let mut m = String::from_str("Unknown query target: ");
                m.append(t.as_str());
                m
            },
        }
    }
}

/// The parameters of a query, as values.
pub open spec fn request_params(request: QueryRequest) -> Option<Seq<(Seq<char>, DataValue)>> {
    match request.parameter {
        Some(m) => Some(m@),
        None => None,
    }
}

/// What a query for `target` answers: `None` when the target names nothing
/// a client may query, `Some(None)` when its value is not known. The
/// running processes are listed as the parameters ask; every other key is
/// read from the model, without the parameters.
pub open spec fn spec_query_info(
    target: Seq<char>,
    parameter: Option<Seq<(Seq<char>, DataValue)>>,
    model: Model,
    processes: Option<&Vec<ProcessSnapshot>>,
) -> Option<Option<DataValue>> {
    if target == "process"@ {
        os_process_answer(parameter, processes)
    } else if spec_query_statements().contains(target) {
        model.spec_query(target, None, processes)
    } else {
        None
    }
}

/// The answer to a query, taken from the model of the machine and, for the
/// target `process`, from the running processes (`None` when they could not
/// be read).
pub fn query_info(request: &QueryRequest, model: &Model, processes: Option<&Vec<ProcessSnapshot>>) -> (r: Result<PayLoad, QueryError>)
    ensures
        match r {
            Ok(p) => spec_query_info(request.target@, request_params(*request), *model, processes)
                == Some(Some(p.value@)) && p.addition is None,
            Err(QueryError::NoData(t)) => spec_query_info(request.target@, request_params(*request), *model, processes)
                == Some(None::<DataValue>) && t@ == request.target@,
            Err(QueryError::UnknownTarget(t)) => spec_query_info(request.target@, request_params(*request), *model, processes)
                is None && t@ == request.target@,
        },
{
    let target = request.target.as_str();
    let result = if str_eq(target, "process") {
        os_process_query(request.parameter.as_ref(), processes)
    } else if is_query_statement(target) {
        model.query(target, None, processes)
    } else {
        QueryResult::NotFound
    };
    match result {
        QueryResult::Found(Some(value)) => Ok(PayLoad { value, addition: None }),
        QueryResult::Found(None) => Err(QueryError::NoData(request.target.clone())),
        QueryResult::NotFound => Err(QueryError::UnknownTarget(request.target.clone())),
    }
}

} // verus!
