//! What each query key of the model answers: the field the key names, from
//! a fixed table of keys and fields.

use vstd::prelude::*;
use crate::monitor::{spec_query_info, spec_query_statements};
use crate::monitor::model::{Model, SystemPackageManager};
use crate::monitor::process::ProcessSnapshot;
use crate::monitor::query::QueryField;
use crate::util::data_container::{DataValue, InfoMap};

verus! {

proof fn lemma_key_os_name(m: Model, attach: Option<&InfoMap>, processes: Option<&Vec<ProcessSnapshot>>)
    ensures
        m.spec_query("os_name"@, attach, processes) == (match m.system.os_name { Some(s) => Some(Some(DataValue::Text(s@))), None => Some(None) }),
{
    reveal_strlit("os_name");
}

proof fn lemma_key_os_version(m: Model, attach: Option<&InfoMap>, processes: Option<&Vec<ProcessSnapshot>>)
    ensures
        m.spec_query("os_version"@, attach, processes) == (match m.system.os_version { Some(s) => Some(Some(DataValue::Text(s@))), None => Some(None) }),
{
    reveal_strlit("os_version");
    reveal_strlit("os_name");
    assert("os_version"@.len() != "os_name"@.len());
}

proof fn lemma_key_os_kernel_version(m: Model, attach: Option<&InfoMap>, processes: Option<&Vec<ProcessSnapshot>>)
    ensures
        m.spec_query("os_kernel_version"@, attach, processes) == (match m.system.kernel_version { Some(s) => Some(Some(DataValue::Text(s@))), None => Some(None) }),
{
    reveal_strlit("os_kernel_version");
    reveal_strlit("os_name");
    assert("os_kernel_version"@.len() != "os_name"@.len());
    reveal_strlit("os_version");
    assert("os_kernel_version"@.len() != "os_version"@.len());
}

proof fn lemma_key_os_host_name(m: Model, attach: Option<&InfoMap>, processes: Option<&Vec<ProcessSnapshot>>)
    ensures
        m.spec_query("os_host_name"@, attach, processes) == (match m.system.host_name { Some(s) => Some(Some(DataValue::Text(s@))), None => Some(None) }),
{
    reveal_strlit("os_host_name");
    reveal_strlit("os_name");
    assert("os_host_name"@.len() != "os_name"@.len());
    reveal_strlit("os_version");
    assert("os_host_name"@.len() != "os_version"@.len());
    reveal_strlit("os_kernel_version");
    assert("os_host_name"@.len() != "os_kernel_version"@.len());
}

proof fn lemma_key_os_package_manager(m: Model, attach: Option<&InfoMap>, processes: Option<&Vec<ProcessSnapshot>>)
    ensures
        m.spec_query("os_package_manager"@, attach, processes) == (match m.system.package_manager { Some(SystemPackageManager::Apt) => Some(Some(DataValue::Text("apt"@))), Some(SystemPackageManager::Dnf) => Some(Some(DataValue::Text("dnf"@))), Some(SystemPackageManager::Pacman) => Some(Some(DataValue::Text("pacman"@))), None => Some(None) }),
{
    reveal_strlit("os_package_manager");
    reveal_strlit("os_name");
    assert("os_package_manager"@.len() != "os_name"@.len());
    reveal_strlit("os_version");
    assert("os_package_manager"@.len() != "os_version"@.len());
    reveal_strlit("os_kernel_version");
    assert("os_package_manager"@.len() != "os_kernel_version"@.len());
    reveal_strlit("os_host_name");
    assert("os_package_manager"@.len() != "os_host_name"@.len());
}

proof fn lemma_key_os_activated(m: Model, attach: Option<&InfoMap>, processes: Option<&Vec<ProcessSnapshot>>)
    ensures
        m.spec_query("os_activated"@, attach, processes) == (match m.system.is_activated { Some(b) => Some(Some(DataValue::Boolean(b))), None => Some(None) }),
{
    reveal_strlit("os_activated");
    reveal_strlit("os_name");
    assert("os_activated"@.len() != "os_name"@.len());
    reveal_strlit("os_version");
    assert("os_activated"@.len() != "os_version"@.len());
    reveal_strlit("os_kernel_version");
    assert("os_activated"@.len() != "os_kernel_version"@.len());
    reveal_strlit("os_host_name");
    assert("os_activated"@[3] != "os_host_name"@[3]);
    reveal_strlit("os_package_manager");
    assert("os_activated"@.len() != "os_package_manager"@.len());
}

proof fn lemma_key_bat_capacity_designed(m: Model, attach: Option<&InfoMap>, processes: Option<&Vec<ProcessSnapshot>>)
    ensures
        m.spec_query("bat_capacity_designed"@, attach, processes) == (match m.battery.designed_capacity { Some(x) => Some(Some(DataValue::Float(x.bits))), None => Some(None) }),
{
    reveal_strlit("bat_capacity_designed");
    reveal_strlit("os_name");
    assert("bat_capacity_designed"@.len() != "os_name"@.len());
    reveal_strlit("os_version");
    assert("bat_capacity_designed"@.len() != "os_version"@.len());
    reveal_strlit("os_kernel_version");
    assert("bat_capacity_designed"@.len() != "os_kernel_version"@.len());
    reveal_strlit("os_host_name");
    assert("bat_capacity_designed"@.len() != "os_host_name"@.len());
    reveal_strlit("os_package_manager");
    assert("bat_capacity_designed"@.len() != "os_package_manager"@.len());
    reveal_strlit("os_activated");
    assert("bat_capacity_designed"@.len() != "os_activated"@.len());
    reveal_strlit("os_process");
    assert("bat_capacity_designed"@.len() != "os_process"@.len());
}

proof fn lemma_key_bat_capacity_max(m: Model, attach: Option<&InfoMap>, processes: Option<&Vec<ProcessSnapshot>>)
    ensures
        m.spec_query("bat_capacity_max"@, attach, processes) == (match m.battery.actually_capacity { Some(x) => Some(Some(DataValue::Float(x.bits))), None => Some(None) }),
{
    reveal_strlit("bat_capacity_max");
    reveal_strlit("os_name");
    assert("bat_capacity_max"@.len() != "os_name"@.len());
    reveal_strlit("os_version");
    assert("bat_capacity_max"@.len() != "os_version"@.len());
    reveal_strlit("os_kernel_version");
    assert("bat_capacity_max"@.len() != "os_kernel_version"@.len());
    reveal_strlit("os_host_name");
    assert("bat_capacity_max"@.len() != "os_host_name"@.len());
    reveal_strlit("os_package_manager");
    assert("bat_capacity_max"@.len() != "os_package_manager"@.len());
    reveal_strlit("os_activated");
    assert("bat_capacity_max"@.len() != "os_activated"@.len());
    reveal_strlit("os_process");
    assert("bat_capacity_max"@.len() != "os_process"@.len());
    reveal_strlit("bat_capacity_designed");
    assert("bat_capacity_max"@.len() != "bat_capacity_designed"@.len());
}

proof fn lemma_key_bat_capacity_remain(m: Model, attach: Option<&InfoMap>, processes: Option<&Vec<ProcessSnapshot>>)
    ensures
        m.spec_query("bat_capacity_remain"@, attach, processes) == (match m.battery.remain_capacity { Some(x) => Some(Some(DataValue::Float(x.bits))), None => Some(None) }),
{
    reveal_strlit("bat_capacity_remain");
    reveal_strlit("os_name");
    assert("bat_capacity_remain"@.len() != "os_name"@.len());
    reveal_strlit("os_version");
    assert("bat_capacity_remain"@.len() != "os_version"@.len());
    reveal_strlit("os_kernel_version");
    assert("bat_capacity_remain"@.len() != "os_kernel_version"@.len());
    reveal_strlit("os_host_name");
    assert("bat_capacity_remain"@.len() != "os_host_name"@.len());
    reveal_strlit("os_package_manager");
    assert("bat_capacity_remain"@.len() != "os_package_manager"@.len());
    reveal_strlit("os_activated");
    assert("bat_capacity_remain"@.len() != "os_activated"@.len());
    reveal_strlit("os_process");
    assert("bat_capacity_remain"@.len() != "os_process"@.len());
    reveal_strlit("bat_capacity_designed");
    assert("bat_capacity_remain"@.len() != "bat_capacity_designed"@.len());
    reveal_strlit("bat_capacity_max");
    assert("bat_capacity_remain"@.len() != "bat_capacity_max"@.len());
}

proof fn lemma_key_bat_voltage(m: Model, attach: Option<&InfoMap>, processes: Option<&Vec<ProcessSnapshot>>)
    ensures
        m.spec_query("bat_voltage"@, attach, processes) == (match m.battery.voltage { Some(x) => Some(Some(DataValue::Float(x.bits))), None => Some(None) }),
{
    reveal_strlit("bat_voltage");
    reveal_strlit("os_name");
    assert("bat_voltage"@.len() != "os_name"@.len());
    reveal_strlit("os_version");
    assert("bat_voltage"@.len() != "os_version"@.len());
    reveal_strlit("os_kernel_version");
    assert("bat_voltage"@.len() != "os_kernel_version"@.len());
    reveal_strlit("os_host_name");
    assert("bat_voltage"@.len() != "os_host_name"@.len());
    reveal_strlit("os_package_manager");
    assert("bat_voltage"@.len() != "os_package_manager"@.len());
    reveal_strlit("os_activated");
    assert("bat_voltage"@.len() != "os_activated"@.len());
    reveal_strlit("os_process");
    assert("bat_voltage"@.len() != "os_process"@.len());
    reveal_strlit("bat_capacity_designed");
    assert("bat_voltage"@.len() != "bat_capacity_designed"@.len());
    reveal_strlit("bat_capacity_max");
    assert("bat_voltage"@.len() != "bat_capacity_max"@.len());
    reveal_strlit("bat_capacity_remain");
    assert("bat_voltage"@.len() != "bat_capacity_remain"@.len());
}

proof fn lemma_key_bat_current(m: Model, attach: Option<&InfoMap>, processes: Option<&Vec<ProcessSnapshot>>)
    ensures
        m.spec_query("bat_current"@, attach, processes) == (match m.battery.current { Some(x) => Some(Some(DataValue::Float(x.bits))), None => Some(None) }),
{
    reveal_strlit("bat_current");
    reveal_strlit("os_name");
    assert("bat_current"@.len() != "os_name"@.len());
    reveal_strlit("os_version");
    assert("bat_current"@.len() != "os_version"@.len());
    reveal_strlit("os_kernel_version");
    assert("bat_current"@.len() != "os_kernel_version"@.len());
    reveal_strlit("os_host_name");
    assert("bat_current"@.len() != "os_host_name"@.len());
    reveal_strlit("os_package_manager");
    assert("bat_current"@.len() != "os_package_manager"@.len());
    reveal_strlit("os_activated");
    assert("bat_current"@.len() != "os_activated"@.len());
    reveal_strlit("os_process");
    assert("bat_current"@.len() != "os_process"@.len());
    reveal_strlit("bat_capacity_designed");
    assert("bat_current"@.len() != "bat_capacity_designed"@.len());
    reveal_strlit("bat_capacity_max");
    assert("bat_current"@.len() != "bat_capacity_max"@.len());
    reveal_strlit("bat_capacity_remain");
    assert("bat_current"@.len() != "bat_capacity_remain"@.len());
    reveal_strlit("bat_voltage");
    assert("bat_current"@[4] != "bat_voltage"@[4]);
}

proof fn lemma_key_bat_rate(m: Model, attach: Option<&InfoMap>, processes: Option<&Vec<ProcessSnapshot>>)
    ensures
        m.spec_query("bat_rate"@, attach, processes) == (match m.battery.rate { Some(x) => Some(Some(DataValue::Float(x.bits))), None => Some(None) }),
{
    reveal_strlit("bat_rate");
    reveal_strlit("os_name");
    assert("bat_rate"@.len() != "os_name"@.len());
    reveal_strlit("os_version");
    assert("bat_rate"@.len() != "os_version"@.len());
    reveal_strlit("os_kernel_version");
    assert("bat_rate"@.len() != "os_kernel_version"@.len());
    reveal_strlit("os_host_name");
    assert("bat_rate"@.len() != "os_host_name"@.len());
    reveal_strlit("os_package_manager");
    assert("bat_rate"@.len() != "os_package_manager"@.len());
    reveal_strlit("os_activated");
    assert("bat_rate"@.len() != "os_activated"@.len());
    reveal_strlit("os_process");
    assert("bat_rate"@.len() != "os_process"@.len());
    reveal_strlit("bat_capacity_designed");
    assert("bat_rate"@.len() != "bat_capacity_designed"@.len());
    reveal_strlit("bat_capacity_max");
    assert("bat_rate"@.len() != "bat_capacity_max"@.len());
    reveal_strlit("bat_capacity_remain");
    assert("bat_rate"@.len() != "bat_capacity_remain"@.len());
    reveal_strlit("bat_voltage");
    assert("bat_rate"@.len() != "bat_voltage"@.len());
    reveal_strlit("bat_current");
    assert("bat_rate"@.len() != "bat_current"@.len());
}

proof fn lemma_key_bat_state(m: Model, attach: Option<&InfoMap>, processes: Option<&Vec<ProcessSnapshot>>)
    ensures
        m.spec_query("bat_state"@, attach, processes) == (match m.battery.is_charging { Some(b) => Some(Some(DataValue::Boolean(b))), None => Some(None) }),
{
    reveal_strlit("bat_state");
    reveal_strlit("os_name");
    assert("bat_state"@.len() != "os_name"@.len());
    reveal_strlit("os_version");
    assert("bat_state"@.len() != "os_version"@.len());
    reveal_strlit("os_kernel_version");
    assert("bat_state"@.len() != "os_kernel_version"@.len());
    reveal_strlit("os_host_name");
    assert("bat_state"@.len() != "os_host_name"@.len());
    reveal_strlit("os_package_manager");
    assert("bat_state"@.len() != "os_package_manager"@.len());
    reveal_strlit("os_activated");
    assert("bat_state"@.len() != "os_activated"@.len());
    reveal_strlit("os_process");
    assert("bat_state"@.len() != "os_process"@.len());
    reveal_strlit("bat_capacity_designed");
    assert("bat_state"@.len() != "bat_capacity_designed"@.len());
    reveal_strlit("bat_capacity_max");
    assert("bat_state"@.len() != "bat_capacity_max"@.len());
    reveal_strlit("bat_capacity_remain");
    assert("bat_state"@.len() != "bat_capacity_remain"@.len());
    reveal_strlit("bat_voltage");
    assert("bat_state"@.len() != "bat_voltage"@.len());
    reveal_strlit("bat_current");
    assert("bat_state"@.len() != "bat_current"@.len());
    reveal_strlit("bat_rate");
    assert("bat_state"@.len() != "bat_rate"@.len());
}

proof fn lemma_key_cpu_name(m: Model, attach: Option<&InfoMap>, processes: Option<&Vec<ProcessSnapshot>>)
    ensures
        m.spec_query("cpu_name"@, attach, processes) == (match m.cpu.name { Some(s) => Some(Some(DataValue::Text(s@))), None => Some(None) }),
{
    reveal_strlit("cpu_name");
    reveal_strlit("os_name");
    assert("cpu_name"@.len() != "os_name"@.len());
    reveal_strlit("os_version");
    assert("cpu_name"@.len() != "os_version"@.len());
    reveal_strlit("os_kernel_version");
    assert("cpu_name"@.len() != "os_kernel_version"@.len());
    reveal_strlit("os_host_name");
    assert("cpu_name"@.len() != "os_host_name"@.len());
    reveal_strlit("os_package_manager");
    assert("cpu_name"@.len() != "os_package_manager"@.len());
    reveal_strlit("os_activated");
    assert("cpu_name"@.len() != "os_activated"@.len());
    reveal_strlit("os_process");
    assert("cpu_name"@.len() != "os_process"@.len());
    reveal_strlit("bat_capacity_designed");
    assert("cpu_name"@.len() != "bat_capacity_designed"@.len());
    reveal_strlit("bat_capacity_max");
    assert("cpu_name"@.len() != "bat_capacity_max"@.len());
    reveal_strlit("bat_capacity_remain");
    assert("cpu_name"@.len() != "bat_capacity_remain"@.len());
    reveal_strlit("bat_voltage");
    assert("cpu_name"@.len() != "bat_voltage"@.len());
    reveal_strlit("bat_current");
    assert("cpu_name"@.len() != "bat_current"@.len());
    reveal_strlit("bat_rate");
    assert("cpu_name"@[0] != "bat_rate"@[0]);
    reveal_strlit("bat_state");
    assert("cpu_name"@.len() != "bat_state"@.len());
}

proof fn lemma_key_cpu_usage(m: Model, attach: Option<&InfoMap>, processes: Option<&Vec<ProcessSnapshot>>)
    ensures
        m.spec_query("cpu_usage"@, attach, processes) == (match m.cpu.usage { Some(x) => Some(Some(DataValue::Float(x.bits))), None => Some(None) }),
{
    reveal_strlit("cpu_usage");
    reveal_strlit("os_name");
    assert("cpu_usage"@.len() != "os_name"@.len());
    reveal_strlit("os_version");
    assert("cpu_usage"@.len() != "os_version"@.len());
    reveal_strlit("os_kernel_version");
    assert("cpu_usage"@.len() != "os_kernel_version"@.len());
    reveal_strlit("os_host_name");
    assert("cpu_usage"@.len() != "os_host_name"@.len());
    reveal_strlit("os_package_manager");
    assert("cpu_usage"@.len() != "os_package_manager"@.len());
    reveal_strlit("os_activated");
    assert("cpu_usage"@.len() != "os_activated"@.len());
    reveal_strlit("os_process");
    assert("cpu_usage"@.len() != "os_process"@.len());
    reveal_strlit("bat_capacity_designed");
    assert("cpu_usage"@.len() != "bat_capacity_designed"@.len());
    reveal_strlit("bat_capacity_max");
    assert("cpu_usage"@.len() != "bat_capacity_max"@.len());
    reveal_strlit("bat_capacity_remain");
    assert("cpu_usage"@.len() != "bat_capacity_remain"@.len());
    reveal_strlit("bat_voltage");
    assert("cpu_usage"@.len() != "bat_voltage"@.len());
    reveal_strlit("bat_current");
    assert("cpu_usage"@.len() != "bat_current"@.len());
    reveal_strlit("bat_rate");
    assert("cpu_usage"@.len() != "bat_rate"@.len());
    reveal_strlit("bat_state");
    assert("cpu_usage"@[0] != "bat_state"@[0]);
    reveal_strlit("cpu_name");
    assert("cpu_usage"@.len() != "cpu_name"@.len());
}

proof fn lemma_key_cpu_temperature(m: Model, attach: Option<&InfoMap>, processes: Option<&Vec<ProcessSnapshot>>)
    ensures
        m.spec_query("cpu_temperature"@, attach, processes) == (match m.cpu.package_temperature { Some(x) => Some(Some(DataValue::Float(x.bits))), None => Some(None) }),
{
    reveal_strlit("cpu_temperature");
    reveal_strlit("os_name");
    assert("cpu_temperature"@.len() != "os_name"@.len());
    reveal_strlit("os_version");
    assert("cpu_temperature"@.len() != "os_version"@.len());
    reveal_strlit("os_kernel_version");
    assert("cpu_temperature"@.len() != "os_kernel_version"@.len());
    reveal_strlit("os_host_name");
    assert("cpu_temperature"@.len() != "os_host_name"@.len());
    reveal_strlit("os_package_manager");
    assert("cpu_temperature"@.len() != "os_package_manager"@.len());
    reveal_strlit("os_activated");
    assert("cpu_temperature"@.len() != "os_activated"@.len());
    reveal_strlit("os_process");
    assert("cpu_temperature"@.len() != "os_process"@.len());
    reveal_strlit("bat_capacity_designed");
    assert("cpu_temperature"@.len() != "bat_capacity_designed"@.len());
    reveal_strlit("bat_capacity_max");
    assert("cpu_temperature"@.len() != "bat_capacity_max"@.len());
    reveal_strlit("bat_capacity_remain");
    assert("cpu_temperature"@.len() != "bat_capacity_remain"@.len());
    reveal_strlit("bat_voltage");
    assert("cpu_temperature"@.len() != "bat_voltage"@.len());
    reveal_strlit("bat_current");
    assert("cpu_temperature"@.len() != "bat_current"@.len());
    reveal_strlit("bat_rate");
    assert("cpu_temperature"@.len() != "bat_rate"@.len());
    reveal_strlit("bat_state");
    assert("cpu_temperature"@.len() != "bat_state"@.len());
    reveal_strlit("cpu_name");
    assert("cpu_temperature"@.len() != "cpu_name"@.len());
    reveal_strlit("cpu_usage");
    assert("cpu_temperature"@.len() != "cpu_usage"@.len());
}

proof fn lemma_key_cpu_temperature_avg(m: Model, attach: Option<&InfoMap>, processes: Option<&Vec<ProcessSnapshot>>)
    ensures
        m.spec_query("cpu_temperature_avg"@, attach, processes) == (match m.cpu.average_temperature { Some(x) => Some(Some(DataValue::Float(x.bits))), None => Some(None) }),
{
    reveal_strlit("cpu_temperature_avg");
    reveal_strlit("os_name");
    assert("cpu_temperature_avg"@.len() != "os_name"@.len());
    reveal_strlit("os_version");
    assert("cpu_temperature_avg"@.len() != "os_version"@.len());
    reveal_strlit("os_kernel_version");
    assert("cpu_temperature_avg"@.len() != "os_kernel_version"@.len());
    reveal_strlit("os_host_name");
    assert("cpu_temperature_avg"@.len() != "os_host_name"@.len());
    reveal_strlit("os_package_manager");
    assert("cpu_temperature_avg"@.len() != "os_package_manager"@.len());
    reveal_strlit("os_activated");
    assert("cpu_temperature_avg"@.len() != "os_activated"@.len());
    reveal_strlit("os_process");
    assert("cpu_temperature_avg"@.len() != "os_process"@.len());
    reveal_strlit("bat_capacity_designed");
    assert("cpu_temperature_avg"@.len() != "bat_capacity_designed"@.len());
    reveal_strlit("bat_capacity_max");
    assert("cpu_temperature_avg"@.len() != "bat_capacity_max"@.len());
    reveal_strlit("bat_capacity_remain");
    assert("cpu_temperature_avg"@[0] != "bat_capacity_remain"@[0]);
    reveal_strlit("bat_voltage");
    assert("cpu_temperature_avg"@.len() != "bat_voltage"@.len());
    reveal_strlit("bat_current");
    assert("cpu_temperature_avg"@.len() != "bat_current"@.len());
    reveal_strlit("bat_rate");
    assert("cpu_temperature_avg"@.len() != "bat_rate"@.len());
    reveal_strlit("bat_state");
    assert("cpu_temperature_avg"@.len() != "bat_state"@.len());
    reveal_strlit("cpu_name");
    assert("cpu_temperature_avg"@.len() != "cpu_name"@.len());
    reveal_strlit("cpu_usage");
    assert("cpu_temperature_avg"@.len() != "cpu_usage"@.len());
    reveal_strlit("cpu_temperature");
    assert("cpu_temperature_avg"@.len() != "cpu_temperature"@.len());
}

proof fn lemma_key_cpu_power(m: Model, attach: Option<&InfoMap>, processes: Option<&Vec<ProcessSnapshot>>)
    ensures
        m.spec_query("cpu_power"@, attach, processes) == (match m.cpu.power { Some(x) => Some(Some(DataValue::Float(x.bits))), None => Some(None) }),
{
    reveal_strlit("cpu_power");
    reveal_strlit("os_name");
    assert("cpu_power"@.len() != "os_name"@.len());
    reveal_strlit("os_version");
    assert("cpu_power"@.len() != "os_version"@.len());
    reveal_strlit("os_kernel_version");
    assert("cpu_power"@.len() != "os_kernel_version"@.len());
    reveal_strlit("os_host_name");
    assert("cpu_power"@.len() != "os_host_name"@.len());
    reveal_strlit("os_package_manager");
    assert("cpu_power"@.len() != "os_package_manager"@.len());
    reveal_strlit("os_activated");
    assert("cpu_power"@.len() != "os_activated"@.len());
    reveal_strlit("os_process");
    assert("cpu_power"@.len() != "os_process"@.len());
    reveal_strlit("bat_capacity_designed");
    assert("cpu_power"@.len() != "bat_capacity_designed"@.len());
    reveal_strlit("bat_capacity_max");
    assert("cpu_power"@.len() != "bat_capacity_max"@.len());
    reveal_strlit("bat_capacity_remain");
    assert("cpu_power"@.len() != "bat_capacity_remain"@.len());
    reveal_strlit("bat_voltage");
    assert("cpu_power"@.len() != "bat_voltage"@.len());
    reveal_strlit("bat_current");
    assert("cpu_power"@.len() != "bat_current"@.len());
    reveal_strlit("bat_rate");
    assert("cpu_power"@.len() != "bat_rate"@.len());
    reveal_strlit("bat_state");
    assert("cpu_power"@[0] != "bat_state"@[0]);
    reveal_strlit("cpu_name");
    assert("cpu_power"@.len() != "cpu_name"@.len());
    reveal_strlit("cpu_usage");
    assert("cpu_power"@[4] != "cpu_usage"@[4]);
    reveal_strlit("cpu_temperature");
    assert("cpu_power"@.len() != "cpu_temperature"@.len());
    reveal_strlit("cpu_temperature_avg");
    assert("cpu_power"@.len() != "cpu_temperature_avg"@.len());
}

proof fn lemma_key_cpu_clock_begin_index(m: Model, attach: Option<&InfoMap>, processes: Option<&Vec<ProcessSnapshot>>)
    ensures
        m.spec_query("cpu_clock_begin_index"@, attach, processes) == (match m.cpu.clock_begin_index { Some(i) => Some(Some(DataValue::Int(i))), None => Some(None) }),
{
    reveal_strlit("cpu_clock_begin_index");
    reveal_strlit("os_name");
    assert("cpu_clock_begin_index"@.len() != "os_name"@.len());
    reveal_strlit("os_version");
    assert("cpu_clock_begin_index"@.len() != "os_version"@.len());
    reveal_strlit("os_kernel_version");
    assert("cpu_clock_begin_index"@.len() != "os_kernel_version"@.len());
    reveal_strlit("os_host_name");
    assert("cpu_clock_begin_index"@.len() != "os_host_name"@.len());
    reveal_strlit("os_package_manager");
    assert("cpu_clock_begin_index"@.len() != "os_package_manager"@.len());
    reveal_strlit("os_activated");
    assert("cpu_clock_begin_index"@.len() != "os_activated"@.len());
    reveal_strlit("os_process");
    assert("cpu_clock_begin_index"@.len() != "os_process"@.len());
    reveal_strlit("bat_capacity_designed");
    assert("cpu_clock_begin_index"@[0] != "bat_capacity_designed"@[0]);
    reveal_strlit("bat_capacity_max");
    assert("cpu_clock_begin_index"@.len() != "bat_capacity_max"@.len());
    reveal_strlit("bat_capacity_remain");
    assert("cpu_clock_begin_index"@.len() != "bat_capacity_remain"@.len());
    reveal_strlit("bat_voltage");
    assert("cpu_clock_begin_index"@.len() != "bat_voltage"@.len());
    reveal_strlit("bat_current");
    assert("cpu_clock_begin_index"@.len() != "bat_current"@.len());
    reveal_strlit("bat_rate");
    assert("cpu_clock_begin_index"@.len() != "bat_rate"@.len());
    reveal_strlit("bat_state");
    assert("cpu_clock_begin_index"@.len() != "bat_state"@.len());
    reveal_strlit("cpu_name");
    assert("cpu_clock_begin_index"@.len() != "cpu_name"@.len());
    reveal_strlit("cpu_usage");
    assert("cpu_clock_begin_index"@.len() != "cpu_usage"@.len());
    reveal_strlit("cpu_temperature");
    assert("cpu_clock_begin_index"@.len() != "cpu_temperature"@.len());
    reveal_strlit("cpu_temperature_avg");
    assert("cpu_clock_begin_index"@.len() != "cpu_temperature_avg"@.len());
    reveal_strlit("cpu_power");
    assert("cpu_clock_begin_index"@.len() != "cpu_power"@.len());
}

proof fn lemma_key_cpu_clock_end_index(m: Model, attach: Option<&InfoMap>, processes: Option<&Vec<ProcessSnapshot>>)
    ensures
        m.spec_query("cpu_clock_end_index"@, attach, processes) == (match m.cpu.clock_end_index { Some(i) => Some(Some(DataValue::Int(i))), None => Some(None) }),
{
    reveal_strlit("cpu_clock_end_index");
    reveal_strlit("os_name");
    assert("cpu_clock_end_index"@.len() != "os_name"@.len());
    reveal_strlit("os_version");
    assert("cpu_clock_end_index"@.len() != "os_version"@.len());
    reveal_strlit("os_kernel_version");
    assert("cpu_clock_end_index"@.len() != "os_kernel_version"@.len());
    reveal_strlit("os_host_name");
    assert("cpu_clock_end_index"@.len() != "os_host_name"@.len());
    reveal_strlit("os_package_manager");
    assert("cpu_clock_end_index"@.len() != "os_package_manager"@.len());
    reveal_strlit("os_activated");
    assert("cpu_clock_end_index"@.len() != "os_activated"@.len());
    reveal_strlit("os_process");
    assert("cpu_clock_end_index"@.len() != "os_process"@.len());
    reveal_strlit("bat_capacity_designed");
    assert("cpu_clock_end_index"@.len() != "bat_capacity_designed"@.len());
    reveal_strlit("bat_capacity_max");
    assert("cpu_clock_end_index"@.len() != "bat_capacity_max"@.len());
    reveal_strlit("bat_capacity_remain");
    assert("cpu_clock_end_index"@[0] != "bat_capacity_remain"@[0]);
    reveal_strlit("bat_voltage");
    assert("cpu_clock_end_index"@.len() != "bat_voltage"@.len());
    reveal_strlit("bat_current");
    assert("cpu_clock_end_index"@.len() != "bat_current"@.len());
    reveal_strlit("bat_rate");
    assert("cpu_clock_end_index"@.len() != "bat_rate"@.len());
    reveal_strlit("bat_state");
    assert("cpu_clock_end_index"@.len() != "bat_state"@.len());
    reveal_strlit("cpu_name");
    assert("cpu_clock_end_index"@.len() != "cpu_name"@.len());
    reveal_strlit("cpu_usage");
    assert("cpu_clock_end_index"@.len() != "cpu_usage"@.len());
    reveal_strlit("cpu_temperature");
    assert("cpu_clock_end_index"@.len() != "cpu_temperature"@.len());
    reveal_strlit("cpu_temperature_avg");
    assert("cpu_clock_end_index"@[4] != "cpu_temperature_avg"@[4]);
    reveal_strlit("cpu_power");
    assert("cpu_clock_end_index"@.len() != "cpu_power"@.len());
    reveal_strlit("cpu_clock_begin_index");
    assert("cpu_clock_end_index"@.len() != "cpu_clock_begin_index"@.len());
}

proof fn lemma_key_cpu_clock_avg(m: Model, attach: Option<&InfoMap>, processes: Option<&Vec<ProcessSnapshot>>)
    ensures
        m.spec_query("cpu_clock_avg"@, attach, processes) == (match m.cpu.clock { Some(x) => Some(Some(DataValue::Float(x.bits))), None => Some(None) }),
{
    reveal_strlit("cpu_clock_avg");
    reveal_strlit("os_name");
    assert("cpu_clock_avg"@.len() != "os_name"@.len());
    reveal_strlit("os_version");
    assert("cpu_clock_avg"@.len() != "os_version"@.len());
    reveal_strlit("os_kernel_version");
    assert("cpu_clock_avg"@.len() != "os_kernel_version"@.len());
    reveal_strlit("os_host_name");
    assert("cpu_clock_avg"@.len() != "os_host_name"@.len());
    reveal_strlit("os_package_manager");
    assert("cpu_clock_avg"@.len() != "os_package_manager"@.len());
    reveal_strlit("os_activated");
    assert("cpu_clock_avg"@.len() != "os_activated"@.len());
    reveal_strlit("os_process");
    assert("cpu_clock_avg"@.len() != "os_process"@.len());
    reveal_strlit("bat_capacity_designed");
    assert("cpu_clock_avg"@.len() != "bat_capacity_designed"@.len());
    reveal_strlit("bat_capacity_max");
    assert("cpu_clock_avg"@.len() != "bat_capacity_max"@.len());
    reveal_strlit("bat_capacity_remain");
    assert("cpu_clock_avg"@.len() != "bat_capacity_remain"@.len());
    reveal_strlit("bat_voltage");
    assert("cpu_clock_avg"@.len() != "bat_voltage"@.len());
    reveal_strlit("bat_current");
    assert("cpu_clock_avg"@.len() != "bat_current"@.len());
    reveal_strlit("bat_rate");
    assert("cpu_clock_avg"@.len() != "bat_rate"@.len());
    reveal_strlit("bat_state");
    assert("cpu_clock_avg"@.len() != "bat_state"@.len());
    reveal_strlit("cpu_name");
    assert("cpu_clock_avg"@.len() != "cpu_name"@.len());
    reveal_strlit("cpu_usage");
    assert("cpu_clock_avg"@.len() != "cpu_usage"@.len());
    reveal_strlit("cpu_temperature");
    assert("cpu_clock_avg"@.len() != "cpu_temperature"@.len());
    reveal_strlit("cpu_temperature_avg");
    assert("cpu_clock_avg"@.len() != "cpu_temperature_avg"@.len());
    reveal_strlit("cpu_power");
    assert("cpu_clock_avg"@.len() != "cpu_power"@.len());
    reveal_strlit("cpu_clock_begin_index");
    assert("cpu_clock_avg"@.len() != "cpu_clock_begin_index"@.len());
    reveal_strlit("cpu_clock_end_index");
    assert("cpu_clock_avg"@.len() != "cpu_clock_end_index"@.len());
}

proof fn lemma_key_cpu_load(m: Model, attach: Option<&InfoMap>, processes: Option<&Vec<ProcessSnapshot>>)
    ensures
        m.spec_query("cpu_load"@, attach, processes) == (match m.cpu.load { Some(x) => Some(Some(DataValue::Float(x.bits))), None => Some(None) }),
{
    reveal_strlit("cpu_load");
    reveal_strlit("os_name");
    assert("cpu_load"@.len() != "os_name"@.len());
    reveal_strlit("os_version");
    assert("cpu_load"@.len() != "os_version"@.len());
    reveal_strlit("os_kernel_version");
    assert("cpu_load"@.len() != "os_kernel_version"@.len());
    reveal_strlit("os_host_name");
    assert("cpu_load"@.len() != "os_host_name"@.len());
    reveal_strlit("os_package_manager");
    assert("cpu_load"@.len() != "os_package_manager"@.len());
    reveal_strlit("os_activated");
    assert("cpu_load"@.len() != "os_activated"@.len());
    reveal_strlit("os_process");
    assert("cpu_load"@.len() != "os_process"@.len());
    reveal_strlit("bat_capacity_designed");
    assert("cpu_load"@.len() != "bat_capacity_designed"@.len());
    reveal_strlit("bat_capacity_max");
    assert("cpu_load"@.len() != "bat_capacity_max"@.len());
    reveal_strlit("bat_capacity_remain");
    assert("cpu_load"@.len() != "bat_capacity_remain"@.len());
    reveal_strlit("bat_voltage");
    assert("cpu_load"@.len() != "bat_voltage"@.len());
    reveal_strlit("bat_current");
    assert("cpu_load"@.len() != "bat_current"@.len());
    reveal_strlit("bat_rate");
    assert("cpu_load"@[0] != "bat_rate"@[0]);
    reveal_strlit("bat_state");
    assert("cpu_load"@.len() != "bat_state"@.len());
    reveal_strlit("cpu_name");
    assert("cpu_load"@[4] != "cpu_name"@[4]);
    reveal_strlit("cpu_usage");
    assert("cpu_load"@.len() != "cpu_usage"@.len());
    reveal_strlit("cpu_temperature");
    assert("cpu_load"@.len() != "cpu_temperature"@.len());
    reveal_strlit("cpu_temperature_avg");
    assert("cpu_load"@.len() != "cpu_temperature_avg"@.len());
    reveal_strlit("cpu_power");
    assert("cpu_load"@.len() != "cpu_power"@.len());
    reveal_strlit("cpu_clock_begin_index");
    assert("cpu_load"@.len() != "cpu_clock_begin_index"@.len());
    reveal_strlit("cpu_clock_end_index");
    assert("cpu_load"@.len() != "cpu_clock_end_index"@.len());
    reveal_strlit("cpu_clock_avg");
    assert("cpu_load"@.len() != "cpu_clock_avg"@.len());
}

proof fn lemma_key_cpu_voltage(m: Model, attach: Option<&InfoMap>, processes: Option<&Vec<ProcessSnapshot>>)
    ensures
        m.spec_query("cpu_voltage"@, attach, processes) == (match m.cpu.voltage { Some(x) => Some(Some(DataValue::Float(x.bits))), None => Some(None) }),
{
    reveal_strlit("cpu_voltage");
    reveal_strlit("os_name");
    assert("cpu_voltage"@.len() != "os_name"@.len());
    reveal_strlit("os_version");
    assert("cpu_voltage"@.len() != "os_version"@.len());
    reveal_strlit("os_kernel_version");
    assert("cpu_voltage"@.len() != "os_kernel_version"@.len());
    reveal_strlit("os_host_name");
    assert("cpu_voltage"@.len() != "os_host_name"@.len());
    reveal_strlit("os_package_manager");
    assert("cpu_voltage"@.len() != "os_package_manager"@.len());
    reveal_strlit("os_activated");
    assert("cpu_voltage"@.len() != "os_activated"@.len());
    reveal_strlit("os_process");
    assert("cpu_voltage"@.len() != "os_process"@.len());
    reveal_strlit("bat_capacity_designed");
    assert("cpu_voltage"@.len() != "bat_capacity_designed"@.len());
    reveal_strlit("bat_capacity_max");
    assert("cpu_voltage"@.len() != "bat_capacity_max"@.len());
    reveal_strlit("bat_capacity_remain");
    assert("cpu_voltage"@.len() != "bat_capacity_remain"@.len());
    reveal_strlit("bat_voltage");
    assert("cpu_voltage"@[0] != "bat_voltage"@[0]);
    reveal_strlit("bat_current");
    assert("cpu_voltage"@[0] != "bat_current"@[0]);
    reveal_strlit("bat_rate");
    assert("cpu_voltage"@.len() != "bat_rate"@.len());
    reveal_strlit("bat_state");
    assert("cpu_voltage"@.len() != "bat_state"@.len());
    reveal_strlit("cpu_name");
    assert("cpu_voltage"@.len() != "cpu_name"@.len());
    reveal_strlit("cpu_usage");
    assert("cpu_voltage"@.len() != "cpu_usage"@.len());
    reveal_strlit("cpu_temperature");
    assert("cpu_voltage"@.len() != "cpu_temperature"@.len());
    reveal_strlit("cpu_temperature_avg");
    assert("cpu_voltage"@.len() != "cpu_temperature_avg"@.len());
    reveal_strlit("cpu_power");
    assert("cpu_voltage"@.len() != "cpu_power"@.len());
    reveal_strlit("cpu_clock_begin_index");
    assert("cpu_voltage"@.len() != "cpu_clock_begin_index"@.len());
    reveal_strlit("cpu_clock_end_index");
    assert("cpu_voltage"@.len() != "cpu_clock_end_index"@.len());
    reveal_strlit("cpu_clock_avg");
    assert("cpu_voltage"@.len() != "cpu_clock_avg"@.len());
    reveal_strlit("cpu_load");
    assert("cpu_voltage"@.len() != "cpu_load"@.len());
}

proof fn lemma_key_gpu_name(m: Model, attach: Option<&InfoMap>, processes: Option<&Vec<ProcessSnapshot>>)
    ensures
        m.spec_query("gpu_name"@, attach, processes) == (match m.gpu.name { Some(s) => Some(Some(DataValue::Text(s@))), None => Some(None) }),
{
    reveal_strlit("gpu_name");
    reveal_strlit("os_name");
    assert("gpu_name"@.len() != "os_name"@.len());
    reveal_strlit("os_version");
    assert("gpu_name"@.len() != "os_version"@.len());
    reveal_strlit("os_kernel_version");
    assert("gpu_name"@.len() != "os_kernel_version"@.len());
    reveal_strlit("os_host_name");
    assert("gpu_name"@.len() != "os_host_name"@.len());
    reveal_strlit("os_package_manager");
    assert("gpu_name"@.len() != "os_package_manager"@.len());
    reveal_strlit("os_activated");
    assert("gpu_name"@.len() != "os_activated"@.len());
    reveal_strlit("os_process");
    assert("gpu_name"@.len() != "os_process"@.len());
    reveal_strlit("bat_capacity_designed");
    assert("gpu_name"@.len() != "bat_capacity_designed"@.len());
    reveal_strlit("bat_capacity_max");
    assert("gpu_name"@.len() != "bat_capacity_max"@.len());
    reveal_strlit("bat_capacity_remain");
    assert("gpu_name"@.len() != "bat_capacity_remain"@.len());
    reveal_strlit("bat_voltage");
    assert("gpu_name"@.len() != "bat_voltage"@.len());
    reveal_strlit("bat_current");
    assert("gpu_name"@.len() != "bat_current"@.len());
    reveal_strlit("bat_rate");
    assert("gpu_name"@[0] != "bat_rate"@[0]);
    reveal_strlit("bat_state");
    assert("gpu_name"@.len() != "bat_state"@.len());
    reveal_strlit("cpu_name");
    assert("gpu_name"@[0] != "cpu_name"@[0]);
    reveal_strlit("cpu_usage");
    assert("gpu_name"@.len() != "cpu_usage"@.len());
    reveal_strlit("cpu_temperature");
    assert("gpu_name"@.len() != "cpu_temperature"@.len());
    reveal_strlit("cpu_temperature_avg");
    assert("gpu_name"@.len() != "cpu_temperature_avg"@.len());
    reveal_strlit("cpu_power");
    assert("gpu_name"@.len() != "cpu_power"@.len());
    reveal_strlit("cpu_clock_begin_index");
    assert("gpu_name"@.len() != "cpu_clock_begin_index"@.len());
    reveal_strlit("cpu_clock_end_index");
    assert("gpu_name"@.len() != "cpu_clock_end_index"@.len());
    reveal_strlit("cpu_clock_avg");
    assert("gpu_name"@.len() != "cpu_clock_avg"@.len());
    reveal_strlit("cpu_load");
    assert("gpu_name"@[0] != "cpu_load"@[0]);
    reveal_strlit("cpu_voltage");
    assert("gpu_name"@.len() != "cpu_voltage"@.len());
}

proof fn lemma_key_gpu_power_usage(m: Model, attach: Option<&InfoMap>, processes: Option<&Vec<ProcessSnapshot>>)
    ensures
        m.spec_query("gpu_power_usage"@, attach, processes) == (match m.gpu.power_usage { Some(x) => Some(Some(DataValue::Float(x.bits))), None => Some(None) }),
{
    reveal_strlit("gpu_power_usage");
    reveal_strlit("os_name");
    assert("gpu_power_usage"@.len() != "os_name"@.len());
    reveal_strlit("os_version");
    assert("gpu_power_usage"@.len() != "os_version"@.len());
    reveal_strlit("os_kernel_version");
    assert("gpu_power_usage"@.len() != "os_kernel_version"@.len());
    reveal_strlit("os_host_name");
    assert("gpu_power_usage"@.len() != "os_host_name"@.len());
    reveal_strlit("os_package_manager");
    assert("gpu_power_usage"@.len() != "os_package_manager"@.len());
    reveal_strlit("os_activated");
    assert("gpu_power_usage"@.len() != "os_activated"@.len());
    reveal_strlit("os_process");
    assert("gpu_power_usage"@.len() != "os_process"@.len());
    reveal_strlit("bat_capacity_designed");
    assert("gpu_power_usage"@.len() != "bat_capacity_designed"@.len());
    reveal_strlit("bat_capacity_max");
    assert("gpu_power_usage"@.len() != "bat_capacity_max"@.len());
    reveal_strlit("bat_capacity_remain");
    assert("gpu_power_usage"@.len() != "bat_capacity_remain"@.len());
    reveal_strlit("bat_voltage");
    assert("gpu_power_usage"@.len() != "bat_voltage"@.len());
    reveal_strlit("bat_current");
    assert("gpu_power_usage"@.len() != "bat_current"@.len());
    reveal_strlit("bat_rate");
    assert("gpu_power_usage"@.len() != "bat_rate"@.len());
    reveal_strlit("bat_state");
    assert("gpu_power_usage"@.len() != "bat_state"@.len());
    reveal_strlit("cpu_name");
    assert("gpu_power_usage"@.len() != "cpu_name"@.len());
    reveal_strlit("cpu_usage");
    assert("gpu_power_usage"@.len() != "cpu_usage"@.len());
    reveal_strlit("cpu_temperature");
    assert("gpu_power_usage"@[0] != "cpu_temperature"@[0]);
    reveal_strlit("cpu_temperature_avg");
    assert("gpu_power_usage"@.len() != "cpu_temperature_avg"@.len());
    reveal_strlit("cpu_power");
    assert("gpu_power_usage"@.len() != "cpu_power"@.len());
    reveal_strlit("cpu_clock_begin_index");
    assert("gpu_power_usage"@.len() != "cpu_clock_begin_index"@.len());
    reveal_strlit("cpu_clock_end_index");
    assert("gpu_power_usage"@.len() != "cpu_clock_end_index"@.len());
    reveal_strlit("cpu_clock_avg");
    assert("gpu_power_usage"@.len() != "cpu_clock_avg"@.len());
    reveal_strlit("cpu_load");
    assert("gpu_power_usage"@.len() != "cpu_load"@.len());
    reveal_strlit("cpu_voltage");
    assert("gpu_power_usage"@.len() != "cpu_voltage"@.len());
    reveal_strlit("gpu_name");
    assert("gpu_power_usage"@.len() != "gpu_name"@.len());
}

proof fn lemma_key_gpu_temperature(m: Model, attach: Option<&InfoMap>, processes: Option<&Vec<ProcessSnapshot>>)
    ensures
        m.spec_query("gpu_temperature"@, attach, processes) == (match m.gpu.temperature { Some(x) => Some(Some(DataValue::Float(x.bits))), None => Some(None) }),
{
    reveal_strlit("gpu_temperature");
    reveal_strlit("os_name");
    assert("gpu_temperature"@.len() != "os_name"@.len());
    reveal_strlit("os_version");
    assert("gpu_temperature"@.len() != "os_version"@.len());
    reveal_strlit("os_kernel_version");
    assert("gpu_temperature"@.len() != "os_kernel_version"@.len());
    reveal_strlit("os_host_name");
    assert("gpu_temperature"@.len() != "os_host_name"@.len());
    reveal_strlit("os_package_manager");
    assert("gpu_temperature"@.len() != "os_package_manager"@.len());
    reveal_strlit("os_activated");
    assert("gpu_temperature"@.len() != "os_activated"@.len());
    reveal_strlit("os_process");
    assert("gpu_temperature"@.len() != "os_process"@.len());
    reveal_strlit("bat_capacity_designed");
    assert("gpu_temperature"@.len() != "bat_capacity_designed"@.len());
    reveal_strlit("bat_capacity_max");
    assert("gpu_temperature"@.len() != "bat_capacity_max"@.len());
    reveal_strlit("bat_capacity_remain");
    assert("gpu_temperature"@.len() != "bat_capacity_remain"@.len());
    reveal_strlit("bat_voltage");
    assert("gpu_temperature"@.len() != "bat_voltage"@.len());
    reveal_strlit("bat_current");
    assert("gpu_temperature"@.len() != "bat_current"@.len());
    reveal_strlit("bat_rate");
    assert("gpu_temperature"@.len() != "bat_rate"@.len());
    reveal_strlit("bat_state");
    assert("gpu_temperature"@.len() != "bat_state"@.len());
    reveal_strlit("cpu_name");
    assert("gpu_temperature"@.len() != "cpu_name"@.len());
    reveal_strlit("cpu_usage");
    assert("gpu_temperature"@.len() != "cpu_usage"@.len());
    reveal_strlit("cpu_temperature");
    assert("gpu_temperature"@[0] != "cpu_temperature"@[0]);
    reveal_strlit("cpu_temperature_avg");
    assert("gpu_temperature"@.len() != "cpu_temperature_avg"@.len());
    reveal_strlit("cpu_power");
    assert("gpu_temperature"@.len() != "cpu_power"@.len());
    reveal_strlit("cpu_clock_begin_index");
    assert("gpu_temperature"@.len() != "cpu_clock_begin_index"@.len());
    reveal_strlit("cpu_clock_end_index");
    assert("gpu_temperature"@.len() != "cpu_clock_end_index"@.len());
    reveal_strlit("cpu_clock_avg");
    assert("gpu_temperature"@.len() != "cpu_clock_avg"@.len());
    reveal_strlit("cpu_load");
    assert("gpu_temperature"@.len() != "cpu_load"@.len());
    reveal_strlit("cpu_voltage");
    assert("gpu_temperature"@.len() != "cpu_voltage"@.len());
    reveal_strlit("gpu_name");
    assert("gpu_temperature"@.len() != "gpu_name"@.len());
    reveal_strlit("gpu_power_usage");
    assert("gpu_temperature"@[4] != "gpu_power_usage"@[4]);
}

proof fn lemma_key_gpu_clock(m: Model, attach: Option<&InfoMap>, processes: Option<&Vec<ProcessSnapshot>>)
    ensures
        m.spec_query("gpu_clock"@, attach, processes) == (match m.gpu.clock { Some(i) => Some(Some(DataValue::Int(i))), None => Some(None) }),
{
    reveal_strlit("gpu_clock");
    reveal_strlit("os_name");
    assert("gpu_clock"@.len() != "os_name"@.len());
    reveal_strlit("os_version");
    assert("gpu_clock"@.len() != "os_version"@.len());
    reveal_strlit("os_kernel_version");
    assert("gpu_clock"@.len() != "os_kernel_version"@.len());
    reveal_strlit("os_host_name");
    assert("gpu_clock"@.len() != "os_host_name"@.len());
    reveal_strlit("os_package_manager");
    assert("gpu_clock"@.len() != "os_package_manager"@.len());
    reveal_strlit("os_activated");
    assert("gpu_clock"@.len() != "os_activated"@.len());
    reveal_strlit("os_process");
    assert("gpu_clock"@.len() != "os_process"@.len());
    reveal_strlit("bat_capacity_designed");
    assert("gpu_clock"@.len() != "bat_capacity_designed"@.len());
    reveal_strlit("bat_capacity_max");
    assert("gpu_clock"@.len() != "bat_capacity_max"@.len());
    reveal_strlit("bat_capacity_remain");
    assert("gpu_clock"@.len() != "bat_capacity_remain"@.len());
    reveal_strlit("bat_voltage");
    assert("gpu_clock"@.len() != "bat_voltage"@.len());
    reveal_strlit("bat_current");
    assert("gpu_clock"@.len() != "bat_current"@.len());
    reveal_strlit("bat_rate");
    assert("gpu_clock"@.len() != "bat_rate"@.len());
    reveal_strlit("bat_state");
    assert("gpu_clock"@[0] != "bat_state"@[0]);
    reveal_strlit("cpu_name");
    assert("gpu_clock"@.len() != "cpu_name"@.len());
    reveal_strlit("cpu_usage");
    assert("gpu_clock"@[0] != "cpu_usage"@[0]);
    reveal_strlit("cpu_temperature");
    assert("gpu_clock"@.len() != "cpu_temperature"@.len());
    reveal_strlit("cpu_temperature_avg");
    assert("gpu_clock"@.len() != "cpu_temperature_avg"@.len());
    reveal_strlit("cpu_power");
    assert("gpu_clock"@[0] != "cpu_power"@[0]);
    reveal_strlit("cpu_clock_begin_index");
    assert("gpu_clock"@.len() != "cpu_clock_begin_index"@.len());
    reveal_strlit("cpu_clock_end_index");
    assert("gpu_clock"@.len() != "cpu_clock_end_index"@.len());
    reveal_strlit("cpu_clock_avg");
    assert("gpu_clock"@.len() != "cpu_clock_avg"@.len());
    reveal_strlit("cpu_load");
    assert("gpu_clock"@.len() != "cpu_load"@.len());
    reveal_strlit("cpu_voltage");
    assert("gpu_clock"@.len() != "cpu_voltage"@.len());
    reveal_strlit("gpu_name");
    assert("gpu_clock"@.len() != "gpu_name"@.len());
    reveal_strlit("gpu_power_usage");
    assert("gpu_clock"@.len() != "gpu_power_usage"@.len());
    reveal_strlit("gpu_temperature");
    assert("gpu_clock"@.len() != "gpu_temperature"@.len());
}

proof fn lemma_key_gpu_max_temperature(m: Model, attach: Option<&InfoMap>, processes: Option<&Vec<ProcessSnapshot>>)
    ensures
        m.spec_query("gpu_max_temperature"@, attach, processes) == (match m.gpu.max_temperature { Some(x) => Some(Some(DataValue::Float(x.bits))), None => Some(None) }),
{
    reveal_strlit("gpu_max_temperature");
    reveal_strlit("os_name");
    assert("gpu_max_temperature"@.len() != "os_name"@.len());
    reveal_strlit("os_version");
    assert("gpu_max_temperature"@.len() != "os_version"@.len());
    reveal_strlit("os_kernel_version");
    assert("gpu_max_temperature"@.len() != "os_kernel_version"@.len());
    reveal_strlit("os_host_name");
    assert("gpu_max_temperature"@.len() != "os_host_name"@.len());
    reveal_strlit("os_package_manager");
    assert("gpu_max_temperature"@.len() != "os_package_manager"@.len());
    reveal_strlit("os_activated");
    assert("gpu_max_temperature"@.len() != "os_activated"@.len());
    reveal_strlit("os_process");
    assert("gpu_max_temperature"@.len() != "os_process"@.len());
    reveal_strlit("bat_capacity_designed");
    assert("gpu_max_temperature"@.len() != "bat_capacity_designed"@.len());
    reveal_strlit("bat_capacity_max");
    assert("gpu_max_temperature"@.len() != "bat_capacity_max"@.len());
    reveal_strlit("bat_capacity_remain");
    assert("gpu_max_temperature"@[0] != "bat_capacity_remain"@[0]);
    reveal_strlit("bat_voltage");
    assert("gpu_max_temperature"@.len() != "bat_voltage"@.len());
    reveal_strlit("bat_current");
    assert("gpu_max_temperature"@.len() != "bat_current"@.len());
    reveal_strlit("bat_rate");
    assert("gpu_max_temperature"@.len() != "bat_rate"@.len());
    reveal_strlit("bat_state");
    assert("gpu_max_temperature"@.len() != "bat_state"@.len());
    reveal_strlit("cpu_name");
    assert("gpu_max_temperature"@.len() != "cpu_name"@.len());
    reveal_strlit("cpu_usage");
    assert("gpu_max_temperature"@.len() != "cpu_usage"@.len());
    reveal_strlit("cpu_temperature");
    assert("gpu_max_temperature"@.len() != "cpu_temperature"@.len());
    reveal_strlit("cpu_temperature_avg");
    assert("gpu_max_temperature"@[0] != "cpu_temperature_avg"@[0]);
    reveal_strlit("cpu_power");
    assert("gpu_max_temperature"@.len() != "cpu_power"@.len());
    reveal_strlit("cpu_clock_begin_index");
    assert("gpu_max_temperature"@.len() != "cpu_clock_begin_index"@.len());
    reveal_strlit("cpu_clock_end_index");
    assert("gpu_max_temperature"@[0] != "cpu_clock_end_index"@[0]);
    reveal_strlit("cpu_clock_avg");
    assert("gpu_max_temperature"@.len() != "cpu_clock_avg"@.len());
    reveal_strlit("cpu_load");
    assert("gpu_max_temperature"@.len() != "cpu_load"@.len());
    reveal_strlit("cpu_voltage");
    assert("gpu_max_temperature"@.len() != "cpu_voltage"@.len());
    reveal_strlit("gpu_name");
    assert("gpu_max_temperature"@.len() != "gpu_name"@.len());
    reveal_strlit("gpu_power_usage");
    assert("gpu_max_temperature"@.len() != "gpu_power_usage"@.len());
    reveal_strlit("gpu_temperature");
    assert("gpu_max_temperature"@.len() != "gpu_temperature"@.len());
    reveal_strlit("gpu_clock");
    assert("gpu_max_temperature"@.len() != "gpu_clock"@.len());
}

proof fn lemma_key_gpu_power(m: Model, attach: Option<&InfoMap>, processes: Option<&Vec<ProcessSnapshot>>)
    ensures
        m.spec_query("gpu_power"@, attach, processes) == (match m.gpu.power { Some(x) => Some(Some(DataValue::Float(x.bits))), None => Some(None) }),
{
    reveal_strlit("gpu_power");
    reveal_strlit("os_name");
    assert("gpu_power"@.len() != "os_name"@.len());
    reveal_strlit("os_version");
    assert("gpu_power"@.len() != "os_version"@.len());
    reveal_strlit("os_kernel_version");
    assert("gpu_power"@.len() != "os_kernel_version"@.len());
    reveal_strlit("os_host_name");
    assert("gpu_power"@.len() != "os_host_name"@.len());
    reveal_strlit("os_package_manager");
    assert("gpu_power"@.len() != "os_package_manager"@.len());
    reveal_strlit("os_activated");
    assert("gpu_power"@.len() != "os_activated"@.len());
    reveal_strlit("os_process");
    assert("gpu_power"@.len() != "os_process"@.len());
    reveal_strlit("bat_capacity_designed");
    assert("gpu_power"@.len() != "bat_capacity_designed"@.len());
    reveal_strlit("bat_capacity_max");
    assert("gpu_power"@.len() != "bat_capacity_max"@.len());
    reveal_strlit("bat_capacity_remain");
    assert("gpu_power"@.len() != "bat_capacity_remain"@.len());
    reveal_strlit("bat_voltage");
    assert("gpu_power"@.len() != "bat_voltage"@.len());
    reveal_strlit("bat_current");
    assert("gpu_power"@.len() != "bat_current"@.len());
    reveal_strlit("bat_rate");
    assert("gpu_power"@.len() != "bat_rate"@.len());
    reveal_strlit("bat_state");
    assert("gpu_power"@[0] != "bat_state"@[0]);
    reveal_strlit("cpu_name");
    assert("gpu_power"@.len() != "cpu_name"@.len());
    reveal_strlit("cpu_usage");
    assert("gpu_power"@[0] != "cpu_usage"@[0]);
    reveal_strlit("cpu_temperature");
    assert("gpu_power"@.len() != "cpu_temperature"@.len());
    reveal_strlit("cpu_temperature_avg");
    assert("gpu_power"@.len() != "cpu_temperature_avg"@.len());
    reveal_strlit("cpu_power");
    assert("gpu_power"@[0] != "cpu_power"@[0]);
    reveal_strlit("cpu_clock_begin_index");
    assert("gpu_power"@.len() != "cpu_clock_begin_index"@.len());
    reveal_strlit("cpu_clock_end_index");
    assert("gpu_power"@.len() != "cpu_clock_end_index"@.len());
    reveal_strlit("cpu_clock_avg");
    assert("gpu_power"@.len() != "cpu_clock_avg"@.len());
    reveal_strlit("cpu_load");
    assert("gpu_power"@.len() != "cpu_load"@.len());
    reveal_strlit("cpu_voltage");
    assert("gpu_power"@.len() != "cpu_voltage"@.len());
    reveal_strlit("gpu_name");
    assert("gpu_power"@.len() != "gpu_name"@.len());
    reveal_strlit("gpu_power_usage");
    assert("gpu_power"@.len() != "gpu_power_usage"@.len());
    reveal_strlit("gpu_temperature");
    assert("gpu_power"@.len() != "gpu_temperature"@.len());
    reveal_strlit("gpu_clock");
    assert("gpu_power"@[4] != "gpu_clock"@[4]);
    reveal_strlit("gpu_max_temperature");
    assert("gpu_power"@.len() != "gpu_max_temperature"@.len());
}

proof fn lemma_key_gpu_clock_rms(m: Model, attach: Option<&InfoMap>, processes: Option<&Vec<ProcessSnapshot>>)
    ensures
        m.spec_query("gpu_clock_rms"@, attach, processes) == (match m.gpu.speed { Some(x) => Some(Some(DataValue::Float(x.bits))), None => Some(None) }),
{
    reveal_strlit("gpu_clock_rms");
    reveal_strlit("os_name");
    assert("gpu_clock_rms"@.len() != "os_name"@.len());
    reveal_strlit("os_version");
    assert("gpu_clock_rms"@.len() != "os_version"@.len());
    reveal_strlit("os_kernel_version");
    assert("gpu_clock_rms"@.len() != "os_kernel_version"@.len());
    reveal_strlit("os_host_name");
    assert("gpu_clock_rms"@.len() != "os_host_name"@.len());
    reveal_strlit("os_package_manager");
    assert("gpu_clock_rms"@.len() != "os_package_manager"@.len());
    reveal_strlit("os_activated");
    assert("gpu_clock_rms"@.len() != "os_activated"@.len());
    reveal_strlit("os_process");
    assert("gpu_clock_rms"@.len() != "os_process"@.len());
    reveal_strlit("bat_capacity_designed");
    assert("gpu_clock_rms"@.len() != "bat_capacity_designed"@.len());
    reveal_strlit("bat_capacity_max");
    assert("gpu_clock_rms"@.len() != "bat_capacity_max"@.len());
    reveal_strlit("bat_capacity_remain");
    assert("gpu_clock_rms"@.len() != "bat_capacity_remain"@.len());
    reveal_strlit("bat_voltage");
    assert("gpu_clock_rms"@.len() != "bat_voltage"@.len());
    reveal_strlit("bat_current");
    assert("gpu_clock_rms"@.len() != "bat_current"@.len());
    reveal_strlit("bat_rate");
    assert("gpu_clock_rms"@.len() != "bat_rate"@.len());
    reveal_strlit("bat_state");
    assert("gpu_clock_rms"@.len() != "bat_state"@.len());
    reveal_strlit("cpu_name");
    assert("gpu_clock_rms"@.len() != "cpu_name"@.len());
    reveal_strlit("cpu_usage");
    assert("gpu_clock_rms"@.len() != "cpu_usage"@.len());
    reveal_strlit("cpu_temperature");
    assert("gpu_clock_rms"@.len() != "cpu_temperature"@.len());
    reveal_strlit("cpu_temperature_avg");
    assert("gpu_clock_rms"@.len() != "cpu_temperature_avg"@.len());
    reveal_strlit("cpu_power");
    assert("gpu_clock_rms"@.len() != "cpu_power"@.len());
    reveal_strlit("cpu_clock_begin_index");
    assert("gpu_clock_rms"@.len() != "cpu_clock_begin_index"@.len());
    reveal_strlit("cpu_clock_end_index");
    assert("gpu_clock_rms"@.len() != "cpu_clock_end_index"@.len());
    reveal_strlit("cpu_clock_avg");
    assert("gpu_clock_rms"@[0] != "cpu_clock_avg"@[0]);
    reveal_strlit("cpu_load");
    assert("gpu_clock_rms"@.len() != "cpu_load"@.len());
    reveal_strlit("cpu_voltage");
    assert("gpu_clock_rms"@.len() != "cpu_voltage"@.len());
    reveal_strlit("gpu_name");
    assert("gpu_clock_rms"@.len() != "gpu_name"@.len());
    reveal_strlit("gpu_power_usage");
    assert("gpu_clock_rms"@.len() != "gpu_power_usage"@.len());
    reveal_strlit("gpu_temperature");
    assert("gpu_clock_rms"@.len() != "gpu_temperature"@.len());
    reveal_strlit("gpu_clock");
    assert("gpu_clock_rms"@.len() != "gpu_clock"@.len());
    reveal_strlit("gpu_max_temperature");
    assert("gpu_clock_rms"@.len() != "gpu_max_temperature"@.len());
    reveal_strlit("gpu_power");
    assert("gpu_clock_rms"@.len() != "gpu_power"@.len());
}

proof fn lemma_key_gpu_mem_clock_rms(m: Model, attach: Option<&InfoMap>, processes: Option<&Vec<ProcessSnapshot>>)
    ensures
        m.spec_query("gpu_mem_clock_rms"@, attach, processes) == (match m.gpu.mem_clock { Some(i) => Some(Some(DataValue::Int(i))), None => Some(None) }),
{
    reveal_strlit("gpu_mem_clock_rms");
    reveal_strlit("os_name");
    assert("gpu_mem_clock_rms"@.len() != "os_name"@.len());
    reveal_strlit("os_version");
    assert("gpu_mem_clock_rms"@.len() != "os_version"@.len());
    reveal_strlit("os_kernel_version");
    assert("gpu_mem_clock_rms"@[0] != "os_kernel_version"@[0]);
    reveal_strlit("os_host_name");
    assert("gpu_mem_clock_rms"@.len() != "os_host_name"@.len());
    reveal_strlit("os_package_manager");
    assert("gpu_mem_clock_rms"@.len() != "os_package_manager"@.len());
    reveal_strlit("os_activated");
    assert("gpu_mem_clock_rms"@.len() != "os_activated"@.len());
    reveal_strlit("os_process");
    assert("gpu_mem_clock_rms"@.len() != "os_process"@.len());
    reveal_strlit("bat_capacity_designed");
    assert("gpu_mem_clock_rms"@.len() != "bat_capacity_designed"@.len());
    reveal_strlit("bat_capacity_max");
    assert("gpu_mem_clock_rms"@.len() != "bat_capacity_max"@.len());
    reveal_strlit("bat_capacity_remain");
    assert("gpu_mem_clock_rms"@.len() != "bat_capacity_remain"@.len());
    reveal_strlit("bat_voltage");
    assert("gpu_mem_clock_rms"@.len() != "bat_voltage"@.len());
    reveal_strlit("bat_current");
    assert("gpu_mem_clock_rms"@.len() != "bat_current"@.len());
    reveal_strlit("bat_rate");
    assert("gpu_mem_clock_rms"@.len() != "bat_rate"@.len());
    reveal_strlit("bat_state");
    assert("gpu_mem_clock_rms"@.len() != "bat_state"@.len());
    reveal_strlit("cpu_name");
    assert("gpu_mem_clock_rms"@.len() != "cpu_name"@.len());
    reveal_strlit("cpu_usage");
    assert("gpu_mem_clock_rms"@.len() != "cpu_usage"@.len());
    reveal_strlit("cpu_temperature");
    assert("gpu_mem_clock_rms"@.len() != "cpu_temperature"@.len());
    reveal_strlit("cpu_temperature_avg");
    assert("gpu_mem_clock_rms"@.len() != "cpu_temperature_avg"@.len());
    reveal_strlit("cpu_power");
    assert("gpu_mem_clock_rms"@.len() != "cpu_power"@.len());
    reveal_strlit("cpu_clock_begin_index");
    assert("gpu_mem_clock_rms"@.len() != "cpu_clock_begin_index"@.len());
    reveal_strlit("cpu_clock_end_index");
    assert("gpu_mem_clock_rms"@.len() != "cpu_clock_end_index"@.len());
    reveal_strlit("cpu_clock_avg");
    assert("gpu_mem_clock_rms"@.len() != "cpu_clock_avg"@.len());
    reveal_strlit("cpu_load");
    assert("gpu_mem_clock_rms"@.len() != "cpu_load"@.len());
    reveal_strlit("cpu_voltage");
    assert("gpu_mem_clock_rms"@.len() != "cpu_voltage"@.len());
    reveal_strlit("gpu_name");
    assert("gpu_mem_clock_rms"@.len() != "gpu_name"@.len());
    reveal_strlit("gpu_power_usage");
    assert("gpu_mem_clock_rms"@.len() != "gpu_power_usage"@.len());
    reveal_strlit("gpu_temperature");
    assert("gpu_mem_clock_rms"@.len() != "gpu_temperature"@.len());
    reveal_strlit("gpu_clock");
    assert("gpu_mem_clock_rms"@.len() != "gpu_clock"@.len());
    reveal_strlit("gpu_max_temperature");
    assert("gpu_mem_clock_rms"@.len() != "gpu_max_temperature"@.len());
    reveal_strlit("gpu_power");
    assert("gpu_mem_clock_rms"@.len() != "gpu_power"@.len());
    reveal_strlit("gpu_clock_rms");
    assert("gpu_mem_clock_rms"@.len() != "gpu_clock_rms"@.len());
}

proof fn lemma_key_gpu_mem_total(m: Model, attach: Option<&InfoMap>, processes: Option<&Vec<ProcessSnapshot>>)
    ensures
        m.spec_query("gpu_mem_total"@, attach, processes) == (match m.gpu.mem_total { Some(x) => Some(Some(DataValue::Float(x.bits))), None => Some(None) }),
{
    reveal_strlit("gpu_mem_total");
    reveal_strlit("os_name");
    assert("gpu_mem_total"@.len() != "os_name"@.len());
    reveal_strlit("os_version");
    assert("gpu_mem_total"@.len() != "os_version"@.len());
    reveal_strlit("os_kernel_version");
    assert("gpu_mem_total"@.len() != "os_kernel_version"@.len());
    reveal_strlit("os_host_name");
    assert("gpu_mem_total"@.len() != "os_host_name"@.len());
    reveal_strlit("os_package_manager");
    assert("gpu_mem_total"@.len() != "os_package_manager"@.len());
    reveal_strlit("os_activated");
    assert("gpu_mem_total"@.len() != "os_activated"@.len());
    reveal_strlit("os_process");
    assert("gpu_mem_total"@.len() != "os_process"@.len());
    reveal_strlit("bat_capacity_designed");
    assert("gpu_mem_total"@.len() != "bat_capacity_designed"@.len());
    reveal_strlit("bat_capacity_max");
    assert("gpu_mem_total"@.len() != "bat_capacity_max"@.len());
    reveal_strlit("bat_capacity_remain");
    assert("gpu_mem_total"@.len() != "bat_capacity_remain"@.len());
    reveal_strlit("bat_voltage");
    assert("gpu_mem_total"@.len() != "bat_voltage"@.len());
    reveal_strlit("bat_current");
    assert("gpu_mem_total"@.len() != "bat_current"@.len());
    reveal_strlit("bat_rate");
    assert("gpu_mem_total"@.len() != "bat_rate"@.len());
    reveal_strlit("bat_state");
    assert("gpu_mem_total"@.len() != "bat_state"@.len());
    reveal_strlit("cpu_name");
    assert("gpu_mem_total"@.len() != "cpu_name"@.len());
    reveal_strlit("cpu_usage");
    assert("gpu_mem_total"@.len() != "cpu_usage"@.len());
    reveal_strlit("cpu_temperature");
    assert("gpu_mem_total"@.len() != "cpu_temperature"@.len());
    reveal_strlit("cpu_temperature_avg");
    assert("gpu_mem_total"@.len() != "cpu_temperature_avg"@.len());
    reveal_strlit("cpu_power");
    assert("gpu_mem_total"@.len() != "cpu_power"@.len());
    reveal_strlit("cpu_clock_begin_index");
    assert("gpu_mem_total"@.len() != "cpu_clock_begin_index"@.len());
    reveal_strlit("cpu_clock_end_index");
    assert("gpu_mem_total"@.len() != "cpu_clock_end_index"@.len());
    reveal_strlit("cpu_clock_avg");
    assert("gpu_mem_total"@[0] != "cpu_clock_avg"@[0]);
    reveal_strlit("cpu_load");
    assert("gpu_mem_total"@.len() != "cpu_load"@.len());
    reveal_strlit("cpu_voltage");
    assert("gpu_mem_total"@.len() != "cpu_voltage"@.len());
    reveal_strlit("gpu_name");
    assert("gpu_mem_total"@.len() != "gpu_name"@.len());
    reveal_strlit("gpu_power_usage");
    assert("gpu_mem_total"@.len() != "gpu_power_usage"@.len());
    reveal_strlit("gpu_temperature");
    assert("gpu_mem_total"@.len() != "gpu_temperature"@.len());
    reveal_strlit("gpu_clock");
    assert("gpu_mem_total"@.len() != "gpu_clock"@.len());
    reveal_strlit("gpu_max_temperature");
    assert("gpu_mem_total"@.len() != "gpu_max_temperature"@.len());
    reveal_strlit("gpu_power");
    assert("gpu_mem_total"@.len() != "gpu_power"@.len());
    reveal_strlit("gpu_clock_rms");
    assert("gpu_mem_total"@[4] != "gpu_clock_rms"@[4]);
    reveal_strlit("gpu_mem_clock_rms");
    assert("gpu_mem_total"@.len() != "gpu_mem_clock_rms"@.len());
}

proof fn lemma_key_gpu_mem_free(m: Model, attach: Option<&InfoMap>, processes: Option<&Vec<ProcessSnapshot>>)
    ensures
        m.spec_query("gpu_mem_free"@, attach, processes) == (match m.gpu.mem_free { Some(x) => Some(Some(DataValue::Float(x.bits))), None => Some(None) }),
{
    reveal_strlit("gpu_mem_free");
    reveal_strlit("os_name");
    assert("gpu_mem_free"@.len() != "os_name"@.len());
    reveal_strlit("os_version");
    assert("gpu_mem_free"@.len() != "os_version"@.len());
    reveal_strlit("os_kernel_version");
    assert("gpu_mem_free"@.len() != "os_kernel_version"@.len());
    reveal_strlit("os_host_name");
    assert("gpu_mem_free"@[0] != "os_host_name"@[0]);
    reveal_strlit("os_package_manager");
    assert("gpu_mem_free"@.len() != "os_package_manager"@.len());
    reveal_strlit("os_activated");
    assert("gpu_mem_free"@[0] != "os_activated"@[0]);
    reveal_strlit("os_process");
    assert("gpu_mem_free"@.len() != "os_process"@.len());
    reveal_strlit("bat_capacity_designed");
    assert("gpu_mem_free"@.len() != "bat_capacity_designed"@.len());
    reveal_strlit("bat_capacity_max");
    assert("gpu_mem_free"@.len() != "bat_capacity_max"@.len());
    reveal_strlit("bat_capacity_remain");
    assert("gpu_mem_free"@.len() != "bat_capacity_remain"@.len());
    reveal_strlit("bat_voltage");
    assert("gpu_mem_free"@.len() != "bat_voltage"@.len());
    reveal_strlit("bat_current");
    assert("gpu_mem_free"@.len() != "bat_current"@.len());
    reveal_strlit("bat_rate");
    assert("gpu_mem_free"@.len() != "bat_rate"@.len());
    reveal_strlit("bat_state");
    assert("gpu_mem_free"@.len() != "bat_state"@.len());
    reveal_strlit("cpu_name");
    assert("gpu_mem_free"@.len() != "cpu_name"@.len());
    reveal_strlit("cpu_usage");
    assert("gpu_mem_free"@.len() != "cpu_usage"@.len());
    reveal_strlit("cpu_temperature");
    assert("gpu_mem_free"@.len() != "cpu_temperature"@.len());
    reveal_strlit("cpu_temperature_avg");
    assert("gpu_mem_free"@.len() != "cpu_temperature_avg"@.len());
    reveal_strlit("cpu_power");
    assert("gpu_mem_free"@.len() != "cpu_power"@.len());
    reveal_strlit("cpu_clock_begin_index");
    assert("gpu_mem_free"@.len() != "cpu_clock_begin_index"@.len());
    reveal_strlit("cpu_clock_end_index");
    assert("gpu_mem_free"@.len() != "cpu_clock_end_index"@.len());
    reveal_strlit("cpu_clock_avg");
    assert("gpu_mem_free"@.len() != "cpu_clock_avg"@.len());
    reveal_strlit("cpu_load");
    assert("gpu_mem_free"@.len() != "cpu_load"@.len());
    reveal_strlit("cpu_voltage");
    assert("gpu_mem_free"@.len() != "cpu_voltage"@.len());
    reveal_strlit("gpu_name");
    assert("gpu_mem_free"@.len() != "gpu_name"@.len());
    reveal_strlit("gpu_power_usage");
    assert("gpu_mem_free"@.len() != "gpu_power_usage"@.len());
    reveal_strlit("gpu_temperature");
    assert("gpu_mem_free"@.len() != "gpu_temperature"@.len());
    reveal_strlit("gpu_clock");
    assert("gpu_mem_free"@.len() != "gpu_clock"@.len());
    reveal_strlit("gpu_max_temperature");
    assert("gpu_mem_free"@.len() != "gpu_max_temperature"@.len());
    reveal_strlit("gpu_power");
    assert("gpu_mem_free"@.len() != "gpu_power"@.len());
    reveal_strlit("gpu_clock_rms");
    assert("gpu_mem_free"@.len() != "gpu_clock_rms"@.len());
    reveal_strlit("gpu_mem_clock_rms");
    assert("gpu_mem_free"@.len() != "gpu_mem_clock_rms"@.len());
    reveal_strlit("gpu_mem_total");
    assert("gpu_mem_free"@.len() != "gpu_mem_total"@.len());
}

proof fn lemma_key_gpu_mem_used(m: Model, attach: Option<&InfoMap>, processes: Option<&Vec<ProcessSnapshot>>)
    ensures
        m.spec_query("gpu_mem_used"@, attach, processes) == (match m.gpu.mem_used { Some(x) => Some(Some(DataValue::Float(x.bits))), None => Some(None) }),
{
    reveal_strlit("gpu_mem_used");
    reveal_strlit("os_name");
    assert("gpu_mem_used"@.len() != "os_name"@.len());
    reveal_strlit("os_version");
    assert("gpu_mem_used"@.len() != "os_version"@.len());
    reveal_strlit("os_kernel_version");
    assert("gpu_mem_used"@.len() != "os_kernel_version"@.len());
    reveal_strlit("os_host_name");
    assert("gpu_mem_used"@[0] != "os_host_name"@[0]);
    reveal_strlit("os_package_manager");
    assert("gpu_mem_used"@.len() != "os_package_manager"@.len());
    reveal_strlit("os_activated");
    assert("gpu_mem_used"@[0] != "os_activated"@[0]);
    reveal_strlit("os_process");
    assert("gpu_mem_used"@.len() != "os_process"@.len());
    reveal_strlit("bat_capacity_designed");
    assert("gpu_mem_used"@.len() != "bat_capacity_designed"@.len());
    reveal_strlit("bat_capacity_max");
    assert("gpu_mem_used"@.len() != "bat_capacity_max"@.len());
    reveal_strlit("bat_capacity_remain");
    assert("gpu_mem_used"@.len() != "bat_capacity_remain"@.len());
    reveal_strlit("bat_voltage");
    assert("gpu_mem_used"@.len() != "bat_voltage"@.len());
    reveal_strlit("bat_current");
    assert("gpu_mem_used"@.len() != "bat_current"@.len());
    reveal_strlit("bat_rate");
    assert("gpu_mem_used"@.len() != "bat_rate"@.len());
    reveal_strlit("bat_state");
    assert("gpu_mem_used"@.len() != "bat_state"@.len());
    reveal_strlit("cpu_name");
    assert("gpu_mem_used"@.len() != "cpu_name"@.len());
    reveal_strlit("cpu_usage");
    assert("gpu_mem_used"@.len() != "cpu_usage"@.len());
    reveal_strlit("cpu_temperature");
    assert("gpu_mem_used"@.len() != "cpu_temperature"@.len());
    reveal_strlit("cpu_temperature_avg");
    assert("gpu_mem_used"@.len() != "cpu_temperature_avg"@.len());
    reveal_strlit("cpu_power");
    assert("gpu_mem_used"@.len() != "cpu_power"@.len());
    reveal_strlit("cpu_clock_begin_index");
    assert("gpu_mem_used"@.len() != "cpu_clock_begin_index"@.len());
    reveal_strlit("cpu_clock_end_index");
    assert("gpu_mem_used"@.len() != "cpu_clock_end_index"@.len());
    reveal_strlit("cpu_clock_avg");
    assert("gpu_mem_used"@.len() != "cpu_clock_avg"@.len());
    reveal_strlit("cpu_load");
    assert("gpu_mem_used"@.len() != "cpu_load"@.len());
    reveal_strlit("cpu_voltage");
    assert("gpu_mem_used"@.len() != "cpu_voltage"@.len());
    reveal_strlit("gpu_name");
    assert("gpu_mem_used"@.len() != "gpu_name"@.len());
    reveal_strlit("gpu_power_usage");
    assert("gpu_mem_used"@.len() != "gpu_power_usage"@.len());
    reveal_strlit("gpu_temperature");
    assert("gpu_mem_used"@.len() != "gpu_temperature"@.len());
    reveal_strlit("gpu_clock");
    assert("gpu_mem_used"@.len() != "gpu_clock"@.len());
    reveal_strlit("gpu_max_temperature");
    assert("gpu_mem_used"@.len() != "gpu_max_temperature"@.len());
    reveal_strlit("gpu_power");
    assert("gpu_mem_used"@.len() != "gpu_power"@.len());
    reveal_strlit("gpu_clock_rms");
    assert("gpu_mem_used"@.len() != "gpu_clock_rms"@.len());
    reveal_strlit("gpu_mem_clock_rms");
    assert("gpu_mem_used"@.len() != "gpu_mem_clock_rms"@.len());
    reveal_strlit("gpu_mem_total");
    assert("gpu_mem_used"@.len() != "gpu_mem_total"@.len());
    reveal_strlit("gpu_mem_free");
    assert("gpu_mem_used"@[8] != "gpu_mem_free"@[8]);
}

proof fn lemma_key_gpu_mem_usage(m: Model, attach: Option<&InfoMap>, processes: Option<&Vec<ProcessSnapshot>>)
    ensures
        m.spec_query("gpu_mem_usage"@, attach, processes) == (match m.gpu.mem_usage { Some(x) => Some(Some(DataValue::Float(x.bits))), None => Some(None) }),
{
    reveal_strlit("gpu_mem_usage");
    reveal_strlit("os_name");
    assert("gpu_mem_usage"@.len() != "os_name"@.len());
    reveal_strlit("os_version");
    assert("gpu_mem_usage"@.len() != "os_version"@.len());
    reveal_strlit("os_kernel_version");
    assert("gpu_mem_usage"@.len() != "os_kernel_version"@.len());
    reveal_strlit("os_host_name");
    assert("gpu_mem_usage"@.len() != "os_host_name"@.len());
    reveal_strlit("os_package_manager");
    assert("gpu_mem_usage"@.len() != "os_package_manager"@.len());
    reveal_strlit("os_activated");
    assert("gpu_mem_usage"@.len() != "os_activated"@.len());
    reveal_strlit("os_process");
    assert("gpu_mem_usage"@.len() != "os_process"@.len());
    reveal_strlit("bat_capacity_designed");
    assert("gpu_mem_usage"@.len() != "bat_capacity_designed"@.len());
    reveal_strlit("bat_capacity_max");
    assert("gpu_mem_usage"@.len() != "bat_capacity_max"@.len());
    reveal_strlit("bat_capacity_remain");
    assert("gpu_mem_usage"@.len() != "bat_capacity_remain"@.len());
    reveal_strlit("bat_voltage");
    assert("gpu_mem_usage"@.len() != "bat_voltage"@.len());
    reveal_strlit("bat_current");
    assert("gpu_mem_usage"@.len() != "bat_current"@.len());
    reveal_strlit("bat_rate");
    assert("gpu_mem_usage"@.len() != "bat_rate"@.len());
    reveal_strlit("bat_state");
    assert("gpu_mem_usage"@.len() != "bat_state"@.len());
    reveal_strlit("cpu_name");
    assert("gpu_mem_usage"@.len() != "cpu_name"@.len());
    reveal_strlit("cpu_usage");
    assert("gpu_mem_usage"@.len() != "cpu_usage"@.len());
    reveal_strlit("cpu_temperature");
    assert("gpu_mem_usage"@.len() != "cpu_temperature"@.len());
    reveal_strlit("cpu_temperature_avg");
    assert("gpu_mem_usage"@.len() != "cpu_temperature_avg"@.len());
    reveal_strlit("cpu_power");
    assert("gpu_mem_usage"@.len() != "cpu_power"@.len());
    reveal_strlit("cpu_clock_begin_index");
    assert("gpu_mem_usage"@.len() != "cpu_clock_begin_index"@.len());
    reveal_strlit("cpu_clock_end_index");
    assert("gpu_mem_usage"@.len() != "cpu_clock_end_index"@.len());
    reveal_strlit("cpu_clock_avg");
    assert("gpu_mem_usage"@[0] != "cpu_clock_avg"@[0]);
    reveal_strlit("cpu_load");
    assert("gpu_mem_usage"@.len() != "cpu_load"@.len());
    reveal_strlit("cpu_voltage");
    assert("gpu_mem_usage"@.len() != "cpu_voltage"@.len());
    reveal_strlit("gpu_name");
    assert("gpu_mem_usage"@.len() != "gpu_name"@.len());
    reveal_strlit("gpu_power_usage");
    assert("gpu_mem_usage"@.len() != "gpu_power_usage"@.len());
    reveal_strlit("gpu_temperature");
    assert("gpu_mem_usage"@.len() != "gpu_temperature"@.len());
    reveal_strlit("gpu_clock");
    assert("gpu_mem_usage"@.len() != "gpu_clock"@.len());
    reveal_strlit("gpu_max_temperature");
    assert("gpu_mem_usage"@.len() != "gpu_max_temperature"@.len());
    reveal_strlit("gpu_power");
    assert("gpu_mem_usage"@.len() != "gpu_power"@.len());
    reveal_strlit("gpu_clock_rms");
    assert("gpu_mem_usage"@[4] != "gpu_clock_rms"@[4]);
    reveal_strlit("gpu_mem_clock_rms");
    assert("gpu_mem_usage"@.len() != "gpu_mem_clock_rms"@.len());
    reveal_strlit("gpu_mem_total");
    assert("gpu_mem_usage"@[8] != "gpu_mem_total"@[8]);
    reveal_strlit("gpu_mem_free");
    assert("gpu_mem_usage"@.len() != "gpu_mem_free"@.len());
    reveal_strlit("gpu_mem_used");
    assert("gpu_mem_usage"@.len() != "gpu_mem_used"@.len());
}

proof fn lemma_key_mem_used(m: Model, attach: Option<&InfoMap>, processes: Option<&Vec<ProcessSnapshot>>)
    ensures
        m.spec_query("mem_used"@, attach, processes) == (match m.ram.used_size { Some(x) => Some(Some(DataValue::Float(x.bits))), None => Some(None) }),
{
    reveal_strlit("mem_used");
    reveal_strlit("os_name");
    assert("mem_used"@.len() != "os_name"@.len());
    reveal_strlit("os_version");
    assert("mem_used"@.len() != "os_version"@.len());
    reveal_strlit("os_kernel_version");
    assert("mem_used"@.len() != "os_kernel_version"@.len());
    reveal_strlit("os_host_name");
    assert("mem_used"@.len() != "os_host_name"@.len());
    reveal_strlit("os_package_manager");
    assert("mem_used"@.len() != "os_package_manager"@.len());
    reveal_strlit("os_activated");
    assert("mem_used"@.len() != "os_activated"@.len());
    reveal_strlit("os_process");
    assert("mem_used"@.len() != "os_process"@.len());
    reveal_strlit("bat_capacity_designed");
    assert("mem_used"@.len() != "bat_capacity_designed"@.len());
    reveal_strlit("bat_capacity_max");
    assert("mem_used"@.len() != "bat_capacity_max"@.len());
    reveal_strlit("bat_capacity_remain");
    assert("mem_used"@.len() != "bat_capacity_remain"@.len());
    reveal_strlit("bat_voltage");
    assert("mem_used"@.len() != "bat_voltage"@.len());
    reveal_strlit("bat_current");
    assert("mem_used"@.len() != "bat_current"@.len());
    reveal_strlit("bat_rate");
    assert("mem_used"@[0] != "bat_rate"@[0]);
    reveal_strlit("bat_state");
    assert("mem_used"@.len() != "bat_state"@.len());
    reveal_strlit("cpu_name");
    assert("mem_used"@[0] != "cpu_name"@[0]);
    reveal_strlit("cpu_usage");
    assert("mem_used"@.len() != "cpu_usage"@.len());
    reveal_strlit("cpu_temperature");
    assert("mem_used"@.len() != "cpu_temperature"@.len());
    reveal_strlit("cpu_temperature_avg");
    assert("mem_used"@.len() != "cpu_temperature_avg"@.len());
    reveal_strlit("cpu_power");
    assert("mem_used"@.len() != "cpu_power"@.len());
    reveal_strlit("cpu_clock_begin_index");
    assert("mem_used"@.len() != "cpu_clock_begin_index"@.len());
    reveal_strlit("cpu_clock_end_index");
    assert("mem_used"@.len() != "cpu_clock_end_index"@.len());
    reveal_strlit("cpu_clock_avg");
    assert("mem_used"@.len() != "cpu_clock_avg"@.len());
    reveal_strlit("cpu_load");
    assert("mem_used"@[0] != "cpu_load"@[0]);
    reveal_strlit("cpu_voltage");
    assert("mem_used"@.len() != "cpu_voltage"@.len());
    reveal_strlit("gpu_name");
    assert("mem_used"@[0] != "gpu_name"@[0]);
    reveal_strlit("gpu_power_usage");
    assert("mem_used"@.len() != "gpu_power_usage"@.len());
    reveal_strlit("gpu_temperature");
    assert("mem_used"@.len() != "gpu_temperature"@.len());
    reveal_strlit("gpu_clock");
    assert("mem_used"@.len() != "gpu_clock"@.len());
    reveal_strlit("gpu_max_temperature");
    assert("mem_used"@.len() != "gpu_max_temperature"@.len());
    reveal_strlit("gpu_power");
    assert("mem_used"@.len() != "gpu_power"@.len());
    reveal_strlit("gpu_clock_rms");
    assert("mem_used"@.len() != "gpu_clock_rms"@.len());
    reveal_strlit("gpu_mem_clock_rms");
    assert("mem_used"@.len() != "gpu_mem_clock_rms"@.len());
    reveal_strlit("gpu_mem_total");
    assert("mem_used"@.len() != "gpu_mem_total"@.len());
    reveal_strlit("gpu_mem_free");
    assert("mem_used"@.len() != "gpu_mem_free"@.len());
    reveal_strlit("gpu_mem_used");
    assert("mem_used"@.len() != "gpu_mem_used"@.len());
    reveal_strlit("gpu_mem_usage");
    assert("mem_used"@.len() != "gpu_mem_usage"@.len());
}

proof fn lemma_key_mem_available(m: Model, attach: Option<&InfoMap>, processes: Option<&Vec<ProcessSnapshot>>)
    ensures
        m.spec_query("mem_available"@, attach, processes) == (match m.ram.free_size { Some(x) => Some(Some(DataValue::Float(x.bits))), None => Some(None) }),
{
    reveal_strlit("mem_available");
    reveal_strlit("os_name");
    assert("mem_available"@.len() != "os_name"@.len());
    reveal_strlit("os_version");
    assert("mem_available"@.len() != "os_version"@.len());
    reveal_strlit("os_kernel_version");
    assert("mem_available"@.len() != "os_kernel_version"@.len());
    reveal_strlit("os_host_name");
    assert("mem_available"@.len() != "os_host_name"@.len());
    reveal_strlit("os_package_manager");
    assert("mem_available"@.len() != "os_package_manager"@.len());
    reveal_strlit("os_activated");
    assert("mem_available"@.len() != "os_activated"@.len());
    reveal_strlit("os_process");
    assert("mem_available"@.len() != "os_process"@.len());
    reveal_strlit("bat_capacity_designed");
    assert("mem_available"@.len() != "bat_capacity_designed"@.len());
    reveal_strlit("bat_capacity_max");
    assert("mem_available"@.len() != "bat_capacity_max"@.len());
    reveal_strlit("bat_capacity_remain");
    assert("mem_available"@.len() != "bat_capacity_remain"@.len());
    reveal_strlit("bat_voltage");
    assert("mem_available"@.len() != "bat_voltage"@.len());
    reveal_strlit("bat_current");
    assert("mem_available"@.len() != "bat_current"@.len());
    reveal_strlit("bat_rate");
    assert("mem_available"@.len() != "bat_rate"@.len());
    reveal_strlit("bat_state");
    assert("mem_available"@.len() != "bat_state"@.len());
    reveal_strlit("cpu_name");
    assert("mem_available"@.len() != "cpu_name"@.len());
    reveal_strlit("cpu_usage");
    assert("mem_available"@.len() != "cpu_usage"@.len());
    reveal_strlit("cpu_temperature");
    assert("mem_available"@.len() != "cpu_temperature"@.len());
    reveal_strlit("cpu_temperature_avg");
    assert("mem_available"@.len() != "cpu_temperature_avg"@.len());
    reveal_strlit("cpu_power");
    assert("mem_available"@.len() != "cpu_power"@.len());
    reveal_strlit("cpu_clock_begin_index");
    assert("mem_available"@.len() != "cpu_clock_begin_index"@.len());
    reveal_strlit("cpu_clock_end_index");
    assert("mem_available"@.len() != "cpu_clock_end_index"@.len());
    reveal_strlit("cpu_clock_avg");
    assert("mem_available"@[0] != "cpu_clock_avg"@[0]);
    reveal_strlit("cpu_load");
    assert("mem_available"@.len() != "cpu_load"@.len());
    reveal_strlit("cpu_voltage");
    assert("mem_available"@.len() != "cpu_voltage"@.len());
    reveal_strlit("gpu_name");
    assert("mem_available"@.len() != "gpu_name"@.len());
    reveal_strlit("gpu_power_usage");
    assert("mem_available"@.len() != "gpu_power_usage"@.len());
    reveal_strlit("gpu_temperature");
    assert("mem_available"@.len() != "gpu_temperature"@.len());
    reveal_strlit("gpu_clock");
    assert("mem_available"@.len() != "gpu_clock"@.len());
    reveal_strlit("gpu_max_temperature");
    assert("mem_available"@.len() != "gpu_max_temperature"@.len());
    reveal_strlit("gpu_power");
    assert("mem_available"@.len() != "gpu_power"@.len());
    reveal_strlit("gpu_clock_rms");
    assert("mem_available"@[0] != "gpu_clock_rms"@[0]);
    reveal_strlit("gpu_mem_clock_rms");
    assert("mem_available"@.len() != "gpu_mem_clock_rms"@.len());
    reveal_strlit("gpu_mem_total");
    assert("mem_available"@[0] != "gpu_mem_total"@[0]);
    reveal_strlit("gpu_mem_free");
    assert("mem_available"@.len() != "gpu_mem_free"@.len());
    reveal_strlit("gpu_mem_used");
    assert("mem_available"@.len() != "gpu_mem_used"@.len());
    reveal_strlit("gpu_mem_usage");
    assert("mem_available"@[0] != "gpu_mem_usage"@[0]);
    reveal_strlit("mem_used");
    assert("mem_available"@.len() != "mem_used"@.len());
}

proof fn lemma_key_mem_total(m: Model, attach: Option<&InfoMap>, processes: Option<&Vec<ProcessSnapshot>>)
    ensures
        m.spec_query("mem_total"@, attach, processes) == (match m.ram.total_size { Some(x) => Some(Some(DataValue::Float(x.bits))), None => Some(None) }),
{
    reveal_strlit("mem_total");
    reveal_strlit("os_name");
    assert("mem_total"@.len() != "os_name"@.len());
    reveal_strlit("os_version");
    assert("mem_total"@.len() != "os_version"@.len());
    reveal_strlit("os_kernel_version");
    assert("mem_total"@.len() != "os_kernel_version"@.len());
    reveal_strlit("os_host_name");
    assert("mem_total"@.len() != "os_host_name"@.len());
    reveal_strlit("os_package_manager");
    assert("mem_total"@.len() != "os_package_manager"@.len());
    reveal_strlit("os_activated");
    assert("mem_total"@.len() != "os_activated"@.len());
    reveal_strlit("os_process");
    assert("mem_total"@.len() != "os_process"@.len());
    reveal_strlit("bat_capacity_designed");
    assert("mem_total"@.len() != "bat_capacity_designed"@.len());
    reveal_strlit("bat_capacity_max");
    assert("mem_total"@.len() != "bat_capacity_max"@.len());
    reveal_strlit("bat_capacity_remain");
    assert("mem_total"@.len() != "bat_capacity_remain"@.len());
    reveal_strlit("bat_voltage");
    assert("mem_total"@.len() != "bat_voltage"@.len());
    reveal_strlit("bat_current");
    assert("mem_total"@.len() != "bat_current"@.len());
    reveal_strlit("bat_rate");
    assert("mem_total"@.len() != "bat_rate"@.len());
    reveal_strlit("bat_state");
    assert("mem_total"@[0] != "bat_state"@[0]);
    reveal_strlit("cpu_name");
    assert("mem_total"@.len() != "cpu_name"@.len());
    reveal_strlit("cpu_usage");
    assert("mem_total"@[0] != "cpu_usage"@[0]);
    reveal_strlit("cpu_temperature");
    assert("mem_total"@.len() != "cpu_temperature"@.len());
    reveal_strlit("cpu_temperature_avg");
    assert("mem_total"@.len() != "cpu_temperature_avg"@.len());
    reveal_strlit("cpu_power");
    assert("mem_total"@[0] != "cpu_power"@[0]);
    reveal_strlit("cpu_clock_begin_index");
    assert("mem_total"@.len() != "cpu_clock_begin_index"@.len());
    reveal_strlit("cpu_clock_end_index");
    assert("mem_total"@.len() != "cpu_clock_end_index"@.len());
    reveal_strlit("cpu_clock_avg");
    assert("mem_total"@.len() != "cpu_clock_avg"@.len());
    reveal_strlit("cpu_load");
    assert("mem_total"@.len() != "cpu_load"@.len());
    reveal_strlit("cpu_voltage");
    assert("mem_total"@.len() != "cpu_voltage"@.len());
    reveal_strlit("gpu_name");
    assert("mem_total"@.len() != "gpu_name"@.len());
    reveal_strlit("gpu_power_usage");
    assert("mem_total"@.len() != "gpu_power_usage"@.len());
    reveal_strlit("gpu_temperature");
    assert("mem_total"@.len() != "gpu_temperature"@.len());
    reveal_strlit("gpu_clock");
    assert("mem_total"@[0] != "gpu_clock"@[0]);
    reveal_strlit("gpu_max_temperature");
    assert("mem_total"@.len() != "gpu_max_temperature"@.len());
    reveal_strlit("gpu_power");
    assert("mem_total"@[0] != "gpu_power"@[0]);
    reveal_strlit("gpu_clock_rms");
    assert("mem_total"@.len() != "gpu_clock_rms"@.len());
    reveal_strlit("gpu_mem_clock_rms");
    assert("mem_total"@.len() != "gpu_mem_clock_rms"@.len());
    reveal_strlit("gpu_mem_total");
    assert("mem_total"@.len() != "gpu_mem_total"@.len());
    reveal_strlit("gpu_mem_free");
    assert("mem_total"@.len() != "gpu_mem_free"@.len());
    reveal_strlit("gpu_mem_used");
    assert("mem_total"@.len() != "gpu_mem_used"@.len());
    reveal_strlit("gpu_mem_usage");
    assert("mem_total"@.len() != "gpu_mem_usage"@.len());
    reveal_strlit("mem_used");
    assert("mem_total"@.len() != "mem_used"@.len());
    reveal_strlit("mem_available");
    assert("mem_total"@.len() != "mem_available"@.len());
}

proof fn lemma_key_mem_swap_total(m: Model, attach: Option<&InfoMap>, processes: Option<&Vec<ProcessSnapshot>>)
    ensures
        m.spec_query("mem_swap_total"@, attach, processes) == (match m.ram.total_swap { Some(x) => Some(Some(DataValue::Float(x.bits))), None => Some(None) }),
{
    reveal_strlit("mem_swap_total");
    reveal_strlit("os_name");
    assert("mem_swap_total"@.len() != "os_name"@.len());
    reveal_strlit("os_version");
    assert("mem_swap_total"@.len() != "os_version"@.len());
    reveal_strlit("os_kernel_version");
    assert("mem_swap_total"@.len() != "os_kernel_version"@.len());
    reveal_strlit("os_host_name");
    assert("mem_swap_total"@.len() != "os_host_name"@.len());
    reveal_strlit("os_package_manager");
    assert("mem_swap_total"@.len() != "os_package_manager"@.len());
    reveal_strlit("os_activated");
    assert("mem_swap_total"@.len() != "os_activated"@.len());
    reveal_strlit("os_process");
    assert("mem_swap_total"@.len() != "os_process"@.len());
    reveal_strlit("bat_capacity_designed");
    assert("mem_swap_total"@.len() != "bat_capacity_designed"@.len());
    reveal_strlit("bat_capacity_max");
    assert("mem_swap_total"@.len() != "bat_capacity_max"@.len());
    reveal_strlit("bat_capacity_remain");
    assert("mem_swap_total"@.len() != "bat_capacity_remain"@.len());
    reveal_strlit("bat_voltage");
    assert("mem_swap_total"@.len() != "bat_voltage"@.len());
    reveal_strlit("bat_current");
    assert("mem_swap_total"@.len() != "bat_current"@.len());
    reveal_strlit("bat_rate");
    assert("mem_swap_total"@.len() != "bat_rate"@.len());
    reveal_strlit("bat_state");
    assert("mem_swap_total"@.len() != "bat_state"@.len());
    reveal_strlit("cpu_name");
    assert("mem_swap_total"@.len() != "cpu_name"@.len());
    reveal_strlit("cpu_usage");
    assert("mem_swap_total"@.len() != "cpu_usage"@.len());
    reveal_strlit("cpu_temperature");
    assert("mem_swap_total"@.len() != "cpu_temperature"@.len());
    reveal_strlit("cpu_temperature_avg");
    assert("mem_swap_total"@.len() != "cpu_temperature_avg"@.len());
    reveal_strlit("cpu_power");
    assert("mem_swap_total"@.len() != "cpu_power"@.len());
    reveal_strlit("cpu_clock_begin_index");
    assert("mem_swap_total"@.len() != "cpu_clock_begin_index"@.len());
    reveal_strlit("cpu_clock_end_index");
    assert("mem_swap_total"@.len() != "cpu_clock_end_index"@.len());
    reveal_strlit("cpu_clock_avg");
    assert("mem_swap_total"@.len() != "cpu_clock_avg"@.len());
    reveal_strlit("cpu_load");
    assert("mem_swap_total"@.len() != "cpu_load"@.len());
    reveal_strlit("cpu_voltage");
    assert("mem_swap_total"@.len() != "cpu_voltage"@.len());
    reveal_strlit("gpu_name");
    assert("mem_swap_total"@.len() != "gpu_name"@.len());
    reveal_strlit("gpu_power_usage");
    assert("mem_swap_total"@.len() != "gpu_power_usage"@.len());
    reveal_strlit("gpu_temperature");
    assert("mem_swap_total"@.len() != "gpu_temperature"@.len());
    reveal_strlit("gpu_clock");
    assert("mem_swap_total"@.len() != "gpu_clock"@.len());
    reveal_strlit("gpu_max_temperature");
    assert("mem_swap_total"@.len() != "gpu_max_temperature"@.len());
    reveal_strlit("gpu_power");
    assert("mem_swap_total"@.len() != "gpu_power"@.len());
    reveal_strlit("gpu_clock_rms");
    assert("mem_swap_total"@.len() != "gpu_clock_rms"@.len());
    reveal_strlit("gpu_mem_clock_rms");
    assert("mem_swap_total"@.len() != "gpu_mem_clock_rms"@.len());
    reveal_strlit("gpu_mem_total");
    assert("mem_swap_total"@.len() != "gpu_mem_total"@.len());
    reveal_strlit("gpu_mem_free");
    assert("mem_swap_total"@.len() != "gpu_mem_free"@.len());
    reveal_strlit("gpu_mem_used");
    assert("mem_swap_total"@.len() != "gpu_mem_used"@.len());
    reveal_strlit("gpu_mem_usage");
    assert("mem_swap_total"@.len() != "gpu_mem_usage"@.len());
    reveal_strlit("mem_used");
    assert("mem_swap_total"@.len() != "mem_used"@.len());
    reveal_strlit("mem_available");
    assert("mem_swap_total"@.len() != "mem_available"@.len());
    reveal_strlit("mem_total");
    assert("mem_swap_total"@.len() != "mem_total"@.len());
}

proof fn lemma_key_mem_swap_used(m: Model, attach: Option<&InfoMap>, processes: Option<&Vec<ProcessSnapshot>>)
    ensures
        m.spec_query("mem_swap_used"@, attach, processes) == (match m.ram.used_swap { Some(x) => Some(Some(DataValue::Float(x.bits))), None => Some(None) }),
{
    reveal_strlit("mem_swap_used");
    reveal_strlit("os_name");
    assert("mem_swap_used"@.len() != "os_name"@.len());
    reveal_strlit("os_version");
    assert("mem_swap_used"@.len() != "os_version"@.len());
    reveal_strlit("os_kernel_version");
    assert("mem_swap_used"@.len() != "os_kernel_version"@.len());
    reveal_strlit("os_host_name");
    assert("mem_swap_used"@.len() != "os_host_name"@.len());
    reveal_strlit("os_package_manager");
    assert("mem_swap_used"@.len() != "os_package_manager"@.len());
    reveal_strlit("os_activated");
    assert("mem_swap_used"@.len() != "os_activated"@.len());
    reveal_strlit("os_process");
    assert("mem_swap_used"@.len() != "os_process"@.len());
    reveal_strlit("bat_capacity_designed");
    assert("mem_swap_used"@.len() != "bat_capacity_designed"@.len());
    reveal_strlit("bat_capacity_max");
    assert("mem_swap_used"@.len() != "bat_capacity_max"@.len());
    reveal_strlit("bat_capacity_remain");
    assert("mem_swap_used"@.len() != "bat_capacity_remain"@.len());
    reveal_strlit("bat_voltage");
    assert("mem_swap_used"@.len() != "bat_voltage"@.len());
    reveal_strlit("bat_current");
    assert("mem_swap_used"@.len() != "bat_current"@.len());
    reveal_strlit("bat_rate");
    assert("mem_swap_used"@.len() != "bat_rate"@.len());
    reveal_strlit("bat_state");
    assert("mem_swap_used"@.len() != "bat_state"@.len());
    reveal_strlit("cpu_name");
    assert("mem_swap_used"@.len() != "cpu_name"@.len());
    reveal_strlit("cpu_usage");
    assert("mem_swap_used"@.len() != "cpu_usage"@.len());
    reveal_strlit("cpu_temperature");
    assert("mem_swap_used"@.len() != "cpu_temperature"@.len());
    reveal_strlit("cpu_temperature_avg");
    assert("mem_swap_used"@.len() != "cpu_temperature_avg"@.len());
    reveal_strlit("cpu_power");
    assert("mem_swap_used"@.len() != "cpu_power"@.len());
    reveal_strlit("cpu_clock_begin_index");
    assert("mem_swap_used"@.len() != "cpu_clock_begin_index"@.len());
    reveal_strlit("cpu_clock_end_index");
    assert("mem_swap_used"@.len() != "cpu_clock_end_index"@.len());
    reveal_strlit("cpu_clock_avg");
    assert("mem_swap_used"@[0] != "cpu_clock_avg"@[0]);
    reveal_strlit("cpu_load");
    assert("mem_swap_used"@.len() != "cpu_load"@.len());
    reveal_strlit("cpu_voltage");
    assert("mem_swap_used"@.len() != "cpu_voltage"@.len());
    reveal_strlit("gpu_name");
    assert("mem_swap_used"@.len() != "gpu_name"@.len());
    reveal_strlit("gpu_power_usage");
    assert("mem_swap_used"@.len() != "gpu_power_usage"@.len());
    reveal_strlit("gpu_temperature");
    assert("mem_swap_used"@.len() != "gpu_temperature"@.len());
    reveal_strlit("gpu_clock");
    assert("mem_swap_used"@.len() != "gpu_clock"@.len());
    reveal_strlit("gpu_max_temperature");
    assert("mem_swap_used"@.len() != "gpu_max_temperature"@.len());
    reveal_strlit("gpu_power");
    assert("mem_swap_used"@.len() != "gpu_power"@.len());
    reveal_strlit("gpu_clock_rms");
    assert("mem_swap_used"@[0] != "gpu_clock_rms"@[0]);
    reveal_strlit("gpu_mem_clock_rms");
    assert("mem_swap_used"@.len() != "gpu_mem_clock_rms"@.len());
    reveal_strlit("gpu_mem_total");
    assert("mem_swap_used"@[0] != "gpu_mem_total"@[0]);
    reveal_strlit("gpu_mem_free");
    assert("mem_swap_used"@.len() != "gpu_mem_free"@.len());
    reveal_strlit("gpu_mem_used");
    assert("mem_swap_used"@.len() != "gpu_mem_used"@.len());
    reveal_strlit("gpu_mem_usage");
    assert("mem_swap_used"@[0] != "gpu_mem_usage"@[0]);
    reveal_strlit("mem_used");
    assert("mem_swap_used"@.len() != "mem_used"@.len());
    reveal_strlit("mem_available");
    assert("mem_swap_used"@[4] != "mem_available"@[4]);
    reveal_strlit("mem_total");
    assert("mem_swap_used"@.len() != "mem_total"@.len());
    reveal_strlit("mem_swap_total");
    assert("mem_swap_used"@.len() != "mem_swap_total"@.len());
}

proof fn lemma_key_mem_swap_free(m: Model, attach: Option<&InfoMap>, processes: Option<&Vec<ProcessSnapshot>>)
    ensures
        m.spec_query("mem_swap_free"@, attach, processes) == (match m.ram.free_swap { Some(x) => Some(Some(DataValue::Float(x.bits))), None => Some(None) }),
{
    reveal_strlit("mem_swap_free");
    reveal_strlit("os_name");
    assert("mem_swap_free"@.len() != "os_name"@.len());
    reveal_strlit("os_version");
    assert("mem_swap_free"@.len() != "os_version"@.len());
    reveal_strlit("os_kernel_version");
    assert("mem_swap_free"@.len() != "os_kernel_version"@.len());
    reveal_strlit("os_host_name");
    assert("mem_swap_free"@.len() != "os_host_name"@.len());
    reveal_strlit("os_package_manager");
    assert("mem_swap_free"@.len() != "os_package_manager"@.len());
    reveal_strlit("os_activated");
    assert("mem_swap_free"@.len() != "os_activated"@.len());
    reveal_strlit("os_process");
    assert("mem_swap_free"@.len() != "os_process"@.len());
    reveal_strlit("bat_capacity_designed");
    assert("mem_swap_free"@.len() != "bat_capacity_designed"@.len());
    reveal_strlit("bat_capacity_max");
    assert("mem_swap_free"@.len() != "bat_capacity_max"@.len());
    reveal_strlit("bat_capacity_remain");
    assert("mem_swap_free"@.len() != "bat_capacity_remain"@.len());
    reveal_strlit("bat_voltage");
    assert("mem_swap_free"@.len() != "bat_voltage"@.len());
    reveal_strlit("bat_current");
    assert("mem_swap_free"@.len() != "bat_current"@.len());
    reveal_strlit("bat_rate");
    assert("mem_swap_free"@.len() != "bat_rate"@.len());
    reveal_strlit("bat_state");
    assert("mem_swap_free"@.len() != "bat_state"@.len());
    reveal_strlit("cpu_name");
    assert("mem_swap_free"@.len() != "cpu_name"@.len());
    reveal_strlit("cpu_usage");
    assert("mem_swap_free"@.len() != "cpu_usage"@.len());
    reveal_strlit("cpu_temperature");
    assert("mem_swap_free"@.len() != "cpu_temperature"@.len());
    reveal_strlit("cpu_temperature_avg");
    assert("mem_swap_free"@.len() != "cpu_temperature_avg"@.len());
    reveal_strlit("cpu_power");
    assert("mem_swap_free"@.len() != "cpu_power"@.len());
    reveal_strlit("cpu_clock_begin_index");
    assert("mem_swap_free"@.len() != "cpu_clock_begin_index"@.len());
    reveal_strlit("cpu_clock_end_index");
    assert("mem_swap_free"@.len() != "cpu_clock_end_index"@.len());
    reveal_strlit("cpu_clock_avg");
    assert("mem_swap_free"@[0] != "cpu_clock_avg"@[0]);
    reveal_strlit("cpu_load");
    assert("mem_swap_free"@.len() != "cpu_load"@.len());
    reveal_strlit("cpu_voltage");
    assert("mem_swap_free"@.len() != "cpu_voltage"@.len());
    reveal_strlit("gpu_name");
    assert("mem_swap_free"@.len() != "gpu_name"@.len());
    reveal_strlit("gpu_power_usage");
    assert("mem_swap_free"@.len() != "gpu_power_usage"@.len());
    reveal_strlit("gpu_temperature");
    assert("mem_swap_free"@.len() != "gpu_temperature"@.len());
    reveal_strlit("gpu_clock");
    assert("mem_swap_free"@.len() != "gpu_clock"@.len());
    reveal_strlit("gpu_max_temperature");
    assert("mem_swap_free"@.len() != "gpu_max_temperature"@.len());
    reveal_strlit("gpu_power");
    assert("mem_swap_free"@.len() != "gpu_power"@.len());
    reveal_strlit("gpu_clock_rms");
    assert("mem_swap_free"@[0] != "gpu_clock_rms"@[0]);
    reveal_strlit("gpu_mem_clock_rms");
    assert("mem_swap_free"@.len() != "gpu_mem_clock_rms"@.len());
    reveal_strlit("gpu_mem_total");
    assert("mem_swap_free"@[0] != "gpu_mem_total"@[0]);
    reveal_strlit("gpu_mem_free");
    assert("mem_swap_free"@.len() != "gpu_mem_free"@.len());
    reveal_strlit("gpu_mem_used");
    assert("mem_swap_free"@.len() != "gpu_mem_used"@.len());
    reveal_strlit("gpu_mem_usage");
    assert("mem_swap_free"@[0] != "gpu_mem_usage"@[0]);
    reveal_strlit("mem_used");
    assert("mem_swap_free"@.len() != "mem_used"@.len());
    reveal_strlit("mem_available");
    assert("mem_swap_free"@[4] != "mem_available"@[4]);
    reveal_strlit("mem_total");
    assert("mem_swap_free"@.len() != "mem_total"@.len());
    reveal_strlit("mem_swap_total");
    assert("mem_swap_free"@.len() != "mem_swap_total"@.len());
    reveal_strlit("mem_swap_used");
    assert("mem_swap_free"@[9] != "mem_swap_used"@[9]);
}

proof fn lemma_key_fan_rpm_cpu(m: Model, attach: Option<&InfoMap>, processes: Option<&Vec<ProcessSnapshot>>)
    ensures
        m.spec_query("fan_rpm_cpu"@, attach, processes) == (match m.fans.cpu_speed { Some(i) => Some(Some(DataValue::Int(i))), None => Some(None) }),
{
    reveal_strlit("fan_rpm_cpu");
    reveal_strlit("os_name");
    assert("fan_rpm_cpu"@.len() != "os_name"@.len());
    reveal_strlit("os_version");
    assert("fan_rpm_cpu"@.len() != "os_version"@.len());
    reveal_strlit("os_kernel_version");
    assert("fan_rpm_cpu"@.len() != "os_kernel_version"@.len());
    reveal_strlit("os_host_name");
    assert("fan_rpm_cpu"@.len() != "os_host_name"@.len());
    reveal_strlit("os_package_manager");
    assert("fan_rpm_cpu"@.len() != "os_package_manager"@.len());
    reveal_strlit("os_activated");
    assert("fan_rpm_cpu"@.len() != "os_activated"@.len());
    reveal_strlit("os_process");
    assert("fan_rpm_cpu"@.len() != "os_process"@.len());
    reveal_strlit("bat_capacity_designed");
    assert("fan_rpm_cpu"@.len() != "bat_capacity_designed"@.len());
    reveal_strlit("bat_capacity_max");
    assert("fan_rpm_cpu"@.len() != "bat_capacity_max"@.len());
    reveal_strlit("bat_capacity_remain");
    assert("fan_rpm_cpu"@.len() != "bat_capacity_remain"@.len());
    reveal_strlit("bat_voltage");
    assert("fan_rpm_cpu"@[0] != "bat_voltage"@[0]);
    reveal_strlit("bat_current");
    assert("fan_rpm_cpu"@[0] != "bat_current"@[0]);
    reveal_strlit("bat_rate");
    assert("fan_rpm_cpu"@.len() != "bat_rate"@.len());
    reveal_strlit("bat_state");
    assert("fan_rpm_cpu"@.len() != "bat_state"@.len());
    reveal_strlit("cpu_name");
    assert("fan_rpm_cpu"@.len() != "cpu_name"@.len());
    reveal_strlit("cpu_usage");
    assert("fan_rpm_cpu"@.len() != "cpu_usage"@.len());
    reveal_strlit("cpu_temperature");
    assert("fan_rpm_cpu"@.len() != "cpu_temperature"@.len());
    reveal_strlit("cpu_temperature_avg");
    assert("fan_rpm_cpu"@.len() != "cpu_temperature_avg"@.len());
    reveal_strlit("cpu_power");
    assert("fan_rpm_cpu"@.len() != "cpu_power"@.len());
    reveal_strlit("cpu_clock_begin_index");
    assert("fan_rpm_cpu"@.len() != "cpu_clock_begin_index"@.len());
    reveal_strlit("cpu_clock_end_index");
    assert("fan_rpm_cpu"@.len() != "cpu_clock_end_index"@.len());
    reveal_strlit("cpu_clock_avg");
    assert("fan_rpm_cpu"@.len() != "cpu_clock_avg"@.len());
    reveal_strlit("cpu_load");
    assert("fan_rpm_cpu"@.len() != "cpu_load"@.len());
    reveal_strlit("cpu_voltage");
    assert("fan_rpm_cpu"@[0] != "cpu_voltage"@[0]);
    reveal_strlit("gpu_name");
    assert("fan_rpm_cpu"@.len() != "gpu_name"@.len());
    reveal_strlit("gpu_power_usage");
    assert("fan_rpm_cpu"@.len() != "gpu_power_usage"@.len());
    reveal_strlit("gpu_temperature");
    assert("fan_rpm_cpu"@.len() != "gpu_temperature"@.len());
    reveal_strlit("gpu_clock");
    assert("fan_rpm_cpu"@.len() != "gpu_clock"@.len());
    reveal_strlit("gpu_max_temperature");
    assert("fan_rpm_cpu"@.len() != "gpu_max_temperature"@.len());
    reveal_strlit("gpu_power");
    assert("fan_rpm_cpu"@.len() != "gpu_power"@.len());
    reveal_strlit("gpu_clock_rms");
    assert("fan_rpm_cpu"@.len() != "gpu_clock_rms"@.len());
    reveal_strlit("gpu_mem_clock_rms");
    assert("fan_rpm_cpu"@.len() != "gpu_mem_clock_rms"@.len());
    reveal_strlit("gpu_mem_total");
    assert("fan_rpm_cpu"@.len() != "gpu_mem_total"@.len());
    reveal_strlit("gpu_mem_free");
    assert("fan_rpm_cpu"@.len() != "gpu_mem_free"@.len());
    reveal_strlit("gpu_mem_used");
    assert("fan_rpm_cpu"@.len() != "gpu_mem_used"@.len());
    reveal_strlit("gpu_mem_usage");
    assert("fan_rpm_cpu"@.len() != "gpu_mem_usage"@.len());
    reveal_strlit("mem_used");
    assert("fan_rpm_cpu"@.len() != "mem_used"@.len());
    reveal_strlit("mem_available");
    assert("fan_rpm_cpu"@.len() != "mem_available"@.len());
    reveal_strlit("mem_total");
    assert("fan_rpm_cpu"@.len() != "mem_total"@.len());
    reveal_strlit("mem_swap_total");
    assert("fan_rpm_cpu"@.len() != "mem_swap_total"@.len());
    reveal_strlit("mem_swap_used");
    assert("fan_rpm_cpu"@.len() != "mem_swap_used"@.len());
    reveal_strlit("mem_swap_free");
    assert("fan_rpm_cpu"@.len() != "mem_swap_free"@.len());
}

proof fn lemma_key_fan_rpm_gpu(m: Model, attach: Option<&InfoMap>, processes: Option<&Vec<ProcessSnapshot>>)
    ensures
        m.spec_query("fan_rpm_gpu"@, attach, processes) == (match m.fans.gpu_speed { Some(i) => Some(Some(DataValue::Int(i))), None => Some(None) }),
{
    reveal_strlit("fan_rpm_gpu");
    reveal_strlit("os_name");
    assert("fan_rpm_gpu"@.len() != "os_name"@.len());
    reveal_strlit("os_version");
    assert("fan_rpm_gpu"@.len() != "os_version"@.len());
    reveal_strlit("os_kernel_version");
    assert("fan_rpm_gpu"@.len() != "os_kernel_version"@.len());
    reveal_strlit("os_host_name");
    assert("fan_rpm_gpu"@.len() != "os_host_name"@.len());
    reveal_strlit("os_package_manager");
    assert("fan_rpm_gpu"@.len() != "os_package_manager"@.len());
    reveal_strlit("os_activated");
    assert("fan_rpm_gpu"@.len() != "os_activated"@.len());
    reveal_strlit("os_process");
    assert("fan_rpm_gpu"@.len() != "os_process"@.len());
    reveal_strlit("bat_capacity_designed");
    assert("fan_rpm_gpu"@.len() != "bat_capacity_designed"@.len());
    reveal_strlit("bat_capacity_max");
    assert("fan_rpm_gpu"@.len() != "bat_capacity_max"@.len());
    reveal_strlit("bat_capacity_remain");
    assert("fan_rpm_gpu"@.len() != "bat_capacity_remain"@.len());
    reveal_strlit("bat_voltage");
    assert("fan_rpm_gpu"@[0] != "bat_voltage"@[0]);
    reveal_strlit("bat_current");
    assert("fan_rpm_gpu"@[0] != "bat_current"@[0]);
    reveal_strlit("bat_rate");
    assert("fan_rpm_gpu"@.len() != "bat_rate"@.len());
    reveal_strlit("bat_state");
    assert("fan_rpm_gpu"@.len() != "bat_state"@.len());
    reveal_strlit("cpu_name");
    assert("fan_rpm_gpu"@.len() != "cpu_name"@.len());
    reveal_strlit("cpu_usage");
    assert("fan_rpm_gpu"@.len() != "cpu_usage"@.len());
    reveal_strlit("cpu_temperature");
    assert("fan_rpm_gpu"@.len() != "cpu_temperature"@.len());
    reveal_strlit("cpu_temperature_avg");
    assert("fan_rpm_gpu"@.len() != "cpu_temperature_avg"@.len());
    reveal_strlit("cpu_power");
    assert("fan_rpm_gpu"@.len() != "cpu_power"@.len());
    reveal_strlit("cpu_clock_begin_index");
    assert("fan_rpm_gpu"@.len() != "cpu_clock_begin_index"@.len());
    reveal_strlit("cpu_clock_end_index");
    assert("fan_rpm_gpu"@.len() != "cpu_clock_end_index"@.len());
    reveal_strlit("cpu_clock_avg");
    assert("fan_rpm_gpu"@.len() != "cpu_clock_avg"@.len());
    reveal_strlit("cpu_load");
    assert("fan_rpm_gpu"@.len() != "cpu_load"@.len());
    reveal_strlit("cpu_voltage");
    assert("fan_rpm_gpu"@[0] != "cpu_voltage"@[0]);
    reveal_strlit("gpu_name");
    assert("fan_rpm_gpu"@.len() != "gpu_name"@.len());
    reveal_strlit("gpu_power_usage");
    assert("fan_rpm_gpu"@.len() != "gpu_power_usage"@.len());
    reveal_strlit("gpu_temperature");
    assert("fan_rpm_gpu"@.len() != "gpu_temperature"@.len());
    reveal_strlit("gpu_clock");
    assert("fan_rpm_gpu"@.len() != "gpu_clock"@.len());
    reveal_strlit("gpu_max_temperature");
    assert("fan_rpm_gpu"@.len() != "gpu_max_temperature"@.len());
    reveal_strlit("gpu_power");
    assert("fan_rpm_gpu"@.len() != "gpu_power"@.len());
    reveal_strlit("gpu_clock_rms");
    assert("fan_rpm_gpu"@.len() != "gpu_clock_rms"@.len());
    reveal_strlit("gpu_mem_clock_rms");
    assert("fan_rpm_gpu"@.len() != "gpu_mem_clock_rms"@.len());
    reveal_strlit("gpu_mem_total");
    assert("fan_rpm_gpu"@.len() != "gpu_mem_total"@.len());
    reveal_strlit("gpu_mem_free");
    assert("fan_rpm_gpu"@.len() != "gpu_mem_free"@.len());
    reveal_strlit("gpu_mem_used");
    assert("fan_rpm_gpu"@.len() != "gpu_mem_used"@.len());
    reveal_strlit("gpu_mem_usage");
    assert("fan_rpm_gpu"@.len() != "gpu_mem_usage"@.len());
    reveal_strlit("mem_used");
    assert("fan_rpm_gpu"@.len() != "mem_used"@.len());
    reveal_strlit("mem_available");
    assert("fan_rpm_gpu"@.len() != "mem_available"@.len());
    reveal_strlit("mem_total");
    assert("fan_rpm_gpu"@.len() != "mem_total"@.len());
    reveal_strlit("mem_swap_total");
    assert("fan_rpm_gpu"@.len() != "mem_swap_total"@.len());
    reveal_strlit("mem_swap_used");
    assert("fan_rpm_gpu"@.len() != "mem_swap_used"@.len());
    reveal_strlit("mem_swap_free");
    assert("fan_rpm_gpu"@.len() != "mem_swap_free"@.len());
    reveal_strlit("fan_rpm_cpu");
    assert("fan_rpm_gpu"@[8] != "fan_rpm_cpu"@[8]);
}

proof fn lemma_key_fan_rpm_mid(m: Model, attach: Option<&InfoMap>, processes: Option<&Vec<ProcessSnapshot>>)
    ensures
        m.spec_query("fan_rpm_mid"@, attach, processes) == (match m.fans.mid_speed { Some(i) => Some(Some(DataValue::Int(i))), None => Some(None) }),
{
    reveal_strlit("fan_rpm_mid");
    reveal_strlit("os_name");
    assert("fan_rpm_mid"@.len() != "os_name"@.len());
    reveal_strlit("os_version");
    assert("fan_rpm_mid"@.len() != "os_version"@.len());
    reveal_strlit("os_kernel_version");
    assert("fan_rpm_mid"@.len() != "os_kernel_version"@.len());
    reveal_strlit("os_host_name");
    assert("fan_rpm_mid"@.len() != "os_host_name"@.len());
    reveal_strlit("os_package_manager");
    assert("fan_rpm_mid"@.len() != "os_package_manager"@.len());
    reveal_strlit("os_activated");
    assert("fan_rpm_mid"@.len() != "os_activated"@.len());
    reveal_strlit("os_process");
    assert("fan_rpm_mid"@.len() != "os_process"@.len());
    reveal_strlit("bat_capacity_designed");
    assert("fan_rpm_mid"@.len() != "bat_capacity_designed"@.len());
    reveal_strlit("bat_capacity_max");
    assert("fan_rpm_mid"@.len() != "bat_capacity_max"@.len());
    reveal_strlit("bat_capacity_remain");
    assert("fan_rpm_mid"@.len() != "bat_capacity_remain"@.len());
    reveal_strlit("bat_voltage");
    assert("fan_rpm_mid"@[0] != "bat_voltage"@[0]);
    reveal_strlit("bat_current");
    assert("fan_rpm_mid"@[0] != "bat_current"@[0]);
    reveal_strlit("bat_rate");
    assert("fan_rpm_mid"@.len() != "bat_rate"@.len());
    reveal_strlit("bat_state");
    assert("fan_rpm_mid"@.len() != "bat_state"@.len());
    reveal_strlit("cpu_name");
    assert("fan_rpm_mid"@.len() != "cpu_name"@.len());
    reveal_strlit("cpu_usage");
    assert("fan_rpm_mid"@.len() != "cpu_usage"@.len());
    reveal_strlit("cpu_temperature");
    assert("fan_rpm_mid"@.len() != "cpu_temperature"@.len());
    reveal_strlit("cpu_temperature_avg");
    assert("fan_rpm_mid"@.len() != "cpu_temperature_avg"@.len());
    reveal_strlit("cpu_power");
    assert("fan_rpm_mid"@.len() != "cpu_power"@.len());
    reveal_strlit("cpu_clock_begin_index");
    assert("fan_rpm_mid"@.len() != "cpu_clock_begin_index"@.len());
    reveal_strlit("cpu_clock_end_index");
    assert("fan_rpm_mid"@.len() != "cpu_clock_end_index"@.len());
    reveal_strlit("cpu_clock_avg");
    assert("fan_rpm_mid"@.len() != "cpu_clock_avg"@.len());
    reveal_strlit("cpu_load");
    assert("fan_rpm_mid"@.len() != "cpu_load"@.len());
    reveal_strlit("cpu_voltage");
    assert("fan_rpm_mid"@[0] != "cpu_voltage"@[0]);
    reveal_strlit("gpu_name");
    assert("fan_rpm_mid"@.len() != "gpu_name"@.len());
    reveal_strlit("gpu_power_usage");
    assert("fan_rpm_mid"@.len() != "gpu_power_usage"@.len());
    reveal_strlit("gpu_temperature");
    assert("fan_rpm_mid"@.len() != "gpu_temperature"@.len());
    reveal_strlit("gpu_clock");
    assert("fan_rpm_mid"@.len() != "gpu_clock"@.len());
    reveal_strlit("gpu_max_temperature");
    assert("fan_rpm_mid"@.len() != "gpu_max_temperature"@.len());
    reveal_strlit("gpu_power");
    assert("fan_rpm_mid"@.len() != "gpu_power"@.len());
    reveal_strlit("gpu_clock_rms");
    assert("fan_rpm_mid"@.len() != "gpu_clock_rms"@.len());
    reveal_strlit("gpu_mem_clock_rms");
    assert("fan_rpm_mid"@.len() != "gpu_mem_clock_rms"@.len());
    reveal_strlit("gpu_mem_total");
    assert("fan_rpm_mid"@.len() != "gpu_mem_total"@.len());
    reveal_strlit("gpu_mem_free");
    assert("fan_rpm_mid"@.len() != "gpu_mem_free"@.len());
    reveal_strlit("gpu_mem_used");
    assert("fan_rpm_mid"@.len() != "gpu_mem_used"@.len());
    reveal_strlit("gpu_mem_usage");
    assert("fan_rpm_mid"@.len() != "gpu_mem_usage"@.len());
    reveal_strlit("mem_used");
    assert("fan_rpm_mid"@.len() != "mem_used"@.len());
    reveal_strlit("mem_available");
    assert("fan_rpm_mid"@.len() != "mem_available"@.len());
    reveal_strlit("mem_total");
    assert("fan_rpm_mid"@.len() != "mem_total"@.len());
    reveal_strlit("mem_swap_total");
    assert("fan_rpm_mid"@.len() != "mem_swap_total"@.len());
    reveal_strlit("mem_swap_used");
    assert("fan_rpm_mid"@.len() != "mem_swap_used"@.len());
    reveal_strlit("mem_swap_free");
    assert("fan_rpm_mid"@.len() != "mem_swap_free"@.len());
    reveal_strlit("fan_rpm_cpu");
    assert("fan_rpm_mid"@[8] != "fan_rpm_cpu"@[8]);
    reveal_strlit("fan_rpm_gpu");
    assert("fan_rpm_mid"@[8] != "fan_rpm_gpu"@[8]);
}

proof fn lemma_key_motherboard_name(m: Model, attach: Option<&InfoMap>, processes: Option<&Vec<ProcessSnapshot>>)
    ensures
        m.spec_query("motherboard_name"@, attach, processes) == (match m.motherboard.name { Some(s) => Some(Some(DataValue::Text(s@))), None => Some(None) }),
{
    reveal_strlit("motherboard_name");
    reveal_strlit("os_name");
    assert("motherboard_name"@.len() != "os_name"@.len());
    reveal_strlit("os_version");
    assert("motherboard_name"@.len() != "os_version"@.len());
    reveal_strlit("os_kernel_version");
    assert("motherboard_name"@.len() != "os_kernel_version"@.len());
    reveal_strlit("os_host_name");
    assert("motherboard_name"@.len() != "os_host_name"@.len());
    reveal_strlit("os_package_manager");
    assert("motherboard_name"@.len() != "os_package_manager"@.len());
    reveal_strlit("os_activated");
    assert("motherboard_name"@.len() != "os_activated"@.len());
    reveal_strlit("os_process");
    assert("motherboard_name"@.len() != "os_process"@.len());
    reveal_strlit("bat_capacity_designed");
    assert("motherboard_name"@.len() != "bat_capacity_designed"@.len());
    reveal_strlit("bat_capacity_max");
    assert("motherboard_name"@[0] != "bat_capacity_max"@[0]);
    reveal_strlit("bat_capacity_remain");
    assert("motherboard_name"@.len() != "bat_capacity_remain"@.len());
    reveal_strlit("bat_voltage");
    assert("motherboard_name"@.len() != "bat_voltage"@.len());
    reveal_strlit("bat_current");
    assert("motherboard_name"@.len() != "bat_current"@.len());
    reveal_strlit("bat_rate");
    assert("motherboard_name"@.len() != "bat_rate"@.len());
    reveal_strlit("bat_state");
    assert("motherboard_name"@.len() != "bat_state"@.len());
    reveal_strlit("cpu_name");
    assert("motherboard_name"@.len() != "cpu_name"@.len());
    reveal_strlit("cpu_usage");
    assert("motherboard_name"@.len() != "cpu_usage"@.len());
    reveal_strlit("cpu_temperature");
    assert("motherboard_name"@.len() != "cpu_temperature"@.len());
    reveal_strlit("cpu_temperature_avg");
    assert("motherboard_name"@.len() != "cpu_temperature_avg"@.len());
    reveal_strlit("cpu_power");
    assert("motherboard_name"@.len() != "cpu_power"@.len());
    reveal_strlit("cpu_clock_begin_index");
    assert("motherboard_name"@.len() != "cpu_clock_begin_index"@.len());
    reveal_strlit("cpu_clock_end_index");
    assert("motherboard_name"@.len() != "cpu_clock_end_index"@.len());
    reveal_strlit("cpu_clock_avg");
    assert("motherboard_name"@.len() != "cpu_clock_avg"@.len());
    reveal_strlit("cpu_load");
    assert("motherboard_name"@.len() != "cpu_load"@.len());
    reveal_strlit("cpu_voltage");
    assert("motherboard_name"@.len() != "cpu_voltage"@.len());
    reveal_strlit("gpu_name");
    assert("motherboard_name"@.len() != "gpu_name"@.len());
    reveal_strlit("gpu_power_usage");
    assert("motherboard_name"@.len() != "gpu_power_usage"@.len());
    reveal_strlit("gpu_temperature");
    assert("motherboard_name"@.len() != "gpu_temperature"@.len());
    reveal_strlit("gpu_clock");
    assert("motherboard_name"@.len() != "gpu_clock"@.len());
    reveal_strlit("gpu_max_temperature");
    assert("motherboard_name"@.len() != "gpu_max_temperature"@.len());
    reveal_strlit("gpu_power");
    assert("motherboard_name"@.len() != "gpu_power"@.len());
    reveal_strlit("gpu_clock_rms");
    assert("motherboard_name"@.len() != "gpu_clock_rms"@.len());
    reveal_strlit("gpu_mem_clock_rms");
    assert("motherboard_name"@.len() != "gpu_mem_clock_rms"@.len());
    reveal_strlit("gpu_mem_total");
    assert("motherboard_name"@.len() != "gpu_mem_total"@.len());
    reveal_strlit("gpu_mem_free");
    assert("motherboard_name"@.len() != "gpu_mem_free"@.len());
    reveal_strlit("gpu_mem_used");
    assert("motherboard_name"@.len() != "gpu_mem_used"@.len());
    reveal_strlit("gpu_mem_usage");
    assert("motherboard_name"@.len() != "gpu_mem_usage"@.len());
    reveal_strlit("mem_used");
    assert("motherboard_name"@.len() != "mem_used"@.len());
    reveal_strlit("mem_available");
    assert("motherboard_name"@.len() != "mem_available"@.len());
    reveal_strlit("mem_total");
    assert("motherboard_name"@.len() != "mem_total"@.len());
    reveal_strlit("mem_swap_total");
    assert("motherboard_name"@.len() != "mem_swap_total"@.len());
    reveal_strlit("mem_swap_used");
    assert("motherboard_name"@.len() != "mem_swap_used"@.len());
    reveal_strlit("mem_swap_free");
    assert("motherboard_name"@.len() != "mem_swap_free"@.len());
    reveal_strlit("fan_rpm_cpu");
    assert("motherboard_name"@.len() != "fan_rpm_cpu"@.len());
    reveal_strlit("fan_rpm_gpu");
    assert("motherboard_name"@.len() != "fan_rpm_gpu"@.len());
    reveal_strlit("fan_rpm_mid");
    assert("motherboard_name"@.len() != "fan_rpm_mid"@.len());
}

proof fn lemma_key_disk_disk(m: Model, attach: Option<&InfoMap>, processes: Option<&Vec<ProcessSnapshot>>)
    ensures
        m.spec_query("disk_disk"@, attach, processes) == (match m.disk.disk_list { Some(v) => Some(Some(DataValue::Array(Seq::new(v@.len(), |i: int| DataValue::Text(v@[i]@))))), None => Some(None) }),
{
    reveal_strlit("disk_disk");
    reveal_strlit("os_name");
    assert("disk_disk"@.len() != "os_name"@.len());
    reveal_strlit("os_version");
    assert("disk_disk"@.len() != "os_version"@.len());
    reveal_strlit("os_kernel_version");
    assert("disk_disk"@.len() != "os_kernel_version"@.len());
    reveal_strlit("os_host_name");
    assert("disk_disk"@.len() != "os_host_name"@.len());
    reveal_strlit("os_package_manager");
    assert("disk_disk"@.len() != "os_package_manager"@.len());
    reveal_strlit("os_activated");
    assert("disk_disk"@.len() != "os_activated"@.len());
    reveal_strlit("os_process");
    assert("disk_disk"@.len() != "os_process"@.len());
    reveal_strlit("bat_capacity_designed");
    assert("disk_disk"@.len() != "bat_capacity_designed"@.len());
    reveal_strlit("bat_capacity_max");
    assert("disk_disk"@.len() != "bat_capacity_max"@.len());
    reveal_strlit("bat_capacity_remain");
    assert("disk_disk"@.len() != "bat_capacity_remain"@.len());
    reveal_strlit("bat_voltage");
    assert("disk_disk"@.len() != "bat_voltage"@.len());
    reveal_strlit("bat_current");
    assert("disk_disk"@.len() != "bat_current"@.len());
    reveal_strlit("bat_rate");
    assert("disk_disk"@.len() != "bat_rate"@.len());
    reveal_strlit("bat_state");
    assert("disk_disk"@[0] != "bat_state"@[0]);
    reveal_strlit("cpu_name");
    assert("disk_disk"@.len() != "cpu_name"@.len());
    reveal_strlit("cpu_usage");
    assert("disk_disk"@[0] != "cpu_usage"@[0]);
    reveal_strlit("cpu_temperature");
    assert("disk_disk"@.len() != "cpu_temperature"@.len());
    reveal_strlit("cpu_temperature_avg");
    assert("disk_disk"@.len() != "cpu_temperature_avg"@.len());
    reveal_strlit("cpu_power");
    assert("disk_disk"@[0] != "cpu_power"@[0]);
    reveal_strlit("cpu_clock_begin_index");
    assert("disk_disk"@.len() != "cpu_clock_begin_index"@.len());
    reveal_strlit("cpu_clock_end_index");
    assert("disk_disk"@.len() != "cpu_clock_end_index"@.len());
    reveal_strlit("cpu_clock_avg");
    assert("disk_disk"@.len() != "cpu_clock_avg"@.len());
    reveal_strlit("cpu_load");
    assert("disk_disk"@.len() != "cpu_load"@.len());
    reveal_strlit("cpu_voltage");
    assert("disk_disk"@.len() != "cpu_voltage"@.len());
    reveal_strlit("gpu_name");
    assert("disk_disk"@.len() != "gpu_name"@.len());
    reveal_strlit("gpu_power_usage");
    assert("disk_disk"@.len() != "gpu_power_usage"@.len());
    reveal_strlit("gpu_temperature");
    assert("disk_disk"@.len() != "gpu_temperature"@.len());
    reveal_strlit("gpu_clock");
    assert("disk_disk"@[0] != "gpu_clock"@[0]);
    reveal_strlit("gpu_max_temperature");
    assert("disk_disk"@.len() != "gpu_max_temperature"@.len());
    reveal_strlit("gpu_power");
    assert("disk_disk"@[0] != "gpu_power"@[0]);
    reveal_strlit("gpu_clock_rms");
    assert("disk_disk"@.len() != "gpu_clock_rms"@.len());
    reveal_strlit("gpu_mem_clock_rms");
    assert("disk_disk"@.len() != "gpu_mem_clock_rms"@.len());
    reveal_strlit("gpu_mem_total");
    assert("disk_disk"@.len() != "gpu_mem_total"@.len());
    reveal_strlit("gpu_mem_free");
    assert("disk_disk"@.len() != "gpu_mem_free"@.len());
    reveal_strlit("gpu_mem_used");
    assert("disk_disk"@.len() != "gpu_mem_used"@.len());
    reveal_strlit("gpu_mem_usage");
    assert("disk_disk"@.len() != "gpu_mem_usage"@.len());
    reveal_strlit("mem_used");
    assert("disk_disk"@.len() != "mem_used"@.len());
    reveal_strlit("mem_available");
    assert("disk_disk"@.len() != "mem_available"@.len());
    reveal_strlit("mem_total");
    assert("disk_disk"@[0] != "mem_total"@[0]);
    reveal_strlit("mem_swap_total");
    assert("disk_disk"@.len() != "mem_swap_total"@.len());
    reveal_strlit("mem_swap_used");
    assert("disk_disk"@.len() != "mem_swap_used"@.len());
    reveal_strlit("mem_swap_free");
    assert("disk_disk"@.len() != "mem_swap_free"@.len());
    reveal_strlit("fan_rpm_cpu");
    assert("disk_disk"@.len() != "fan_rpm_cpu"@.len());
    reveal_strlit("fan_rpm_gpu");
    assert("disk_disk"@.len() != "fan_rpm_gpu"@.len());
    reveal_strlit("fan_rpm_mid");
    assert("disk_disk"@.len() != "fan_rpm_mid"@.len());
    reveal_strlit("motherboard_name");
    assert("disk_disk"@.len() != "motherboard_name"@.len());
}

/// Every query key of the model answers with the field it names, as its
/// value when the field is known and as "no data" when it is not: the
/// operating system's name, version, kernel, host, package manager and
/// activation; the battery's designed, full and remaining capacity,
/// voltage, current, rate and charging state; the processor's name, usage,
/// package and average temperature, power, clock indices, clock, load and
/// voltage; the graphics processor's fields; the memory's used, available,
/// total and swap sizes; the fans' speeds; the motherboard's name; the
/// disks. The query's parameters play no part.
pub proof fn law_query_keys_read_their_fields(m: Model, attach: Option<&InfoMap>, processes: Option<&Vec<ProcessSnapshot>>)
    ensures
        m.spec_query("os_name"@, attach, processes) == (match m.system.os_name { Some(s) => Some(Some(DataValue::Text(s@))), None => Some(None) }),
        m.spec_query("os_version"@, attach, processes) == (match m.system.os_version { Some(s) => Some(Some(DataValue::Text(s@))), None => Some(None) }),
        m.spec_query("os_kernel_version"@, attach, processes) == (match m.system.kernel_version { Some(s) => Some(Some(DataValue::Text(s@))), None => Some(None) }),
        m.spec_query("os_host_name"@, attach, processes) == (match m.system.host_name { Some(s) => Some(Some(DataValue::Text(s@))), None => Some(None) }),
        m.spec_query("os_package_manager"@, attach, processes) == (match m.system.package_manager { Some(SystemPackageManager::Apt) => Some(Some(DataValue::Text("apt"@))), Some(SystemPackageManager::Dnf) => Some(Some(DataValue::Text("dnf"@))), Some(SystemPackageManager::Pacman) => Some(Some(DataValue::Text("pacman"@))), None => Some(None) }),
        m.spec_query("os_activated"@, attach, processes) == (match m.system.is_activated { Some(b) => Some(Some(DataValue::Boolean(b))), None => Some(None) }),
        m.spec_query("bat_capacity_designed"@, attach, processes) == (match m.battery.designed_capacity { Some(x) => Some(Some(DataValue::Float(x.bits))), None => Some(None) }),
        m.spec_query("bat_capacity_max"@, attach, processes) == (match m.battery.actually_capacity { Some(x) => Some(Some(DataValue::Float(x.bits))), None => Some(None) }),
        m.spec_query("bat_capacity_remain"@, attach, processes) == (match m.battery.remain_capacity { Some(x) => Some(Some(DataValue::Float(x.bits))), None => Some(None) }),
        m.spec_query("bat_voltage"@, attach, processes) == (match m.battery.voltage { Some(x) => Some(Some(DataValue::Float(x.bits))), None => Some(None) }),
        m.spec_query("bat_current"@, attach, processes) == (match m.battery.current { Some(x) => Some(Some(DataValue::Float(x.bits))), None => Some(None) }),
        m.spec_query("bat_rate"@, attach, processes) == (match m.battery.rate { Some(x) => Some(Some(DataValue::Float(x.bits))), None => Some(None) }),
        m.spec_query("bat_state"@, attach, processes) == (match m.battery.is_charging { Some(b) => Some(Some(DataValue::Boolean(b))), None => Some(None) }),
        m.spec_query("cpu_name"@, attach, processes) == (match m.cpu.name { Some(s) => Some(Some(DataValue::Text(s@))), None => Some(None) }),
        m.spec_query("cpu_usage"@, attach, processes) == (match m.cpu.usage { Some(x) => Some(Some(DataValue::Float(x.bits))), None => Some(None) }),
        m.spec_query("cpu_temperature"@, attach, processes) == (match m.cpu.package_temperature { Some(x) => Some(Some(DataValue::Float(x.bits))), None => Some(None) }),
        m.spec_query("cpu_temperature_avg"@, attach, processes) == (match m.cpu.average_temperature { Some(x) => Some(Some(DataValue::Float(x.bits))), None => Some(None) }),
        m.spec_query("cpu_power"@, attach, processes) == (match m.cpu.power { Some(x) => Some(Some(DataValue::Float(x.bits))), None => Some(None) }),
        m.spec_query("cpu_clock_begin_index"@, attach, processes) == (match m.cpu.clock_begin_index { Some(i) => Some(Some(DataValue::Int(i))), None => Some(None) }),
        m.spec_query("cpu_clock_end_index"@, attach, processes) == (match m.cpu.clock_end_index { Some(i) => Some(Some(DataValue::Int(i))), None => Some(None) }),
        m.spec_query("cpu_clock_avg"@, attach, processes) == (match m.cpu.clock { Some(x) => Some(Some(DataValue::Float(x.bits))), None => Some(None) }),
        m.spec_query("cpu_load"@, attach, processes) == (match m.cpu.load { Some(x) => Some(Some(DataValue::Float(x.bits))), None => Some(None) }),
        m.spec_query("cpu_voltage"@, attach, processes) == (match m.cpu.voltage { Some(x) => Some(Some(DataValue::Float(x.bits))), None => Some(None) }),
        m.spec_query("gpu_name"@, attach, processes) == (match m.gpu.name { Some(s) => Some(Some(DataValue::Text(s@))), None => Some(None) }),
        m.spec_query("gpu_power_usage"@, attach, processes) == (match m.gpu.power_usage { Some(x) => Some(Some(DataValue::Float(x.bits))), None => Some(None) }),
        m.spec_query("gpu_temperature"@, attach, processes) == (match m.gpu.temperature { Some(x) => Some(Some(DataValue::Float(x.bits))), None => Some(None) }),
        m.spec_query("gpu_clock"@, attach, processes) == (match m.gpu.clock { Some(i) => Some(Some(DataValue::Int(i))), None => Some(None) }),
        m.spec_query("gpu_max_temperature"@, attach, processes) == (match m.gpu.max_temperature { Some(x) => Some(Some(DataValue::Float(x.bits))), None => Some(None) }),
        m.spec_query("gpu_power"@, attach, processes) == (match m.gpu.power { Some(x) => Some(Some(DataValue::Float(x.bits))), None => Some(None) }),
        m.spec_query("gpu_clock_rms"@, attach, processes) == (match m.gpu.speed { Some(x) => Some(Some(DataValue::Float(x.bits))), None => Some(None) }),
        m.spec_query("gpu_mem_clock_rms"@, attach, processes) == (match m.gpu.mem_clock { Some(i) => Some(Some(DataValue::Int(i))), None => Some(None) }),
        m.spec_query("gpu_mem_total"@, attach, processes) == (match m.gpu.mem_total { Some(x) => Some(Some(DataValue::Float(x.bits))), None => Some(None) }),
        m.spec_query("gpu_mem_free"@, attach, processes) == (match m.gpu.mem_free { Some(x) => Some(Some(DataValue::Float(x.bits))), None => Some(None) }),
        m.spec_query("gpu_mem_used"@, attach, processes) == (match m.gpu.mem_used { Some(x) => Some(Some(DataValue::Float(x.bits))), None => Some(None) }),
        m.spec_query("gpu_mem_usage"@, attach, processes) == (match m.gpu.mem_usage { Some(x) => Some(Some(DataValue::Float(x.bits))), None => Some(None) }),
        m.spec_query("mem_used"@, attach, processes) == (match m.ram.used_size { Some(x) => Some(Some(DataValue::Float(x.bits))), None => Some(None) }),
        m.spec_query("mem_available"@, attach, processes) == (match m.ram.free_size { Some(x) => Some(Some(DataValue::Float(x.bits))), None => Some(None) }),
        m.spec_query("mem_total"@, attach, processes) == (match m.ram.total_size { Some(x) => Some(Some(DataValue::Float(x.bits))), None => Some(None) }),
        m.spec_query("mem_swap_total"@, attach, processes) == (match m.ram.total_swap { Some(x) => Some(Some(DataValue::Float(x.bits))), None => Some(None) }),
        m.spec_query("mem_swap_used"@, attach, processes) == (match m.ram.used_swap { Some(x) => Some(Some(DataValue::Float(x.bits))), None => Some(None) }),
        m.spec_query("mem_swap_free"@, attach, processes) == (match m.ram.free_swap { Some(x) => Some(Some(DataValue::Float(x.bits))), None => Some(None) }),
        m.spec_query("fan_rpm_cpu"@, attach, processes) == (match m.fans.cpu_speed { Some(i) => Some(Some(DataValue::Int(i))), None => Some(None) }),
        m.spec_query("fan_rpm_gpu"@, attach, processes) == (match m.fans.gpu_speed { Some(i) => Some(Some(DataValue::Int(i))), None => Some(None) }),
        m.spec_query("fan_rpm_mid"@, attach, processes) == (match m.fans.mid_speed { Some(i) => Some(Some(DataValue::Int(i))), None => Some(None) }),
        m.spec_query("motherboard_name"@, attach, processes) == (match m.motherboard.name { Some(s) => Some(Some(DataValue::Text(s@))), None => Some(None) }),
        m.spec_query("disk_disk"@, attach, processes) == (match m.disk.disk_list { Some(v) => Some(Some(DataValue::Array(Seq::new(v@.len(), |i: int| DataValue::Text(v@[i]@))))), None => Some(None) }),
{
    lemma_key_os_name(m, attach, processes);
    lemma_key_os_version(m, attach, processes);
    lemma_key_os_kernel_version(m, attach, processes);
    lemma_key_os_host_name(m, attach, processes);
    lemma_key_os_package_manager(m, attach, processes);
    lemma_key_os_activated(m, attach, processes);
    lemma_key_bat_capacity_designed(m, attach, processes);
    lemma_key_bat_capacity_max(m, attach, processes);
    lemma_key_bat_capacity_remain(m, attach, processes);
    lemma_key_bat_voltage(m, attach, processes);
    lemma_key_bat_current(m, attach, processes);
    lemma_key_bat_rate(m, attach, processes);
    lemma_key_bat_state(m, attach, processes);
    lemma_key_cpu_name(m, attach, processes);
    lemma_key_cpu_usage(m, attach, processes);
    lemma_key_cpu_temperature(m, attach, processes);
    lemma_key_cpu_temperature_avg(m, attach, processes);
    lemma_key_cpu_power(m, attach, processes);
    lemma_key_cpu_clock_begin_index(m, attach, processes);
    lemma_key_cpu_clock_end_index(m, attach, processes);
    lemma_key_cpu_clock_avg(m, attach, processes);
    lemma_key_cpu_load(m, attach, processes);
    lemma_key_cpu_voltage(m, attach, processes);
    lemma_key_gpu_name(m, attach, processes);
    lemma_key_gpu_power_usage(m, attach, processes);
    lemma_key_gpu_temperature(m, attach, processes);
    lemma_key_gpu_clock(m, attach, processes);
    lemma_key_gpu_max_temperature(m, attach, processes);
    lemma_key_gpu_power(m, attach, processes);
    lemma_key_gpu_clock_rms(m, attach, processes);
    lemma_key_gpu_mem_clock_rms(m, attach, processes);
    lemma_key_gpu_mem_total(m, attach, processes);
    lemma_key_gpu_mem_free(m, attach, processes);
    lemma_key_gpu_mem_used(m, attach, processes);
    lemma_key_gpu_mem_usage(m, attach, processes);
    lemma_key_mem_used(m, attach, processes);
    lemma_key_mem_available(m, attach, processes);
    lemma_key_mem_total(m, attach, processes);
    lemma_key_mem_swap_total(m, attach, processes);
    lemma_key_mem_swap_used(m, attach, processes);
    lemma_key_mem_swap_free(m, attach, processes);
    lemma_key_fan_rpm_cpu(m, attach, processes);
    lemma_key_fan_rpm_gpu(m, attach, processes);
    lemma_key_fan_rpm_mid(m, attach, processes);
    lemma_key_motherboard_name(m, attach, processes);
    lemma_key_disk_disk(m, attach, processes);
}

proof fn lemma_query_info_os_name(m: Model, params: Option<Seq<(Seq<char>, DataValue)>>, processes: Option<&Vec<ProcessSnapshot>>)
    ensures
        spec_query_info("os_name"@, params, m, processes) == (match m.system.os_name { Some(s) => Some(Some(DataValue::Text(s@))), None => Some(None) }),
{
    reveal_strlit("os_name");
    reveal_strlit("process");
    assert("os_name"@[0] != "process"@[0]);
    assert(spec_query_statements()[48] == "os_name"@);
    lemma_key_os_name(m, None, processes);
}

proof fn lemma_query_info_os_version(m: Model, params: Option<Seq<(Seq<char>, DataValue)>>, processes: Option<&Vec<ProcessSnapshot>>)
    ensures
        spec_query_info("os_version"@, params, m, processes) == (match m.system.os_version { Some(s) => Some(Some(DataValue::Text(s@))), None => Some(None) }),
{
    reveal_strlit("os_version");
    reveal_strlit("process");
    assert("os_version"@.len() != "process"@.len());
    assert(spec_query_statements()[49] == "os_version"@);
    lemma_key_os_version(m, None, processes);
}

proof fn lemma_query_info_os_kernel_version(m: Model, params: Option<Seq<(Seq<char>, DataValue)>>, processes: Option<&Vec<ProcessSnapshot>>)
    ensures
        spec_query_info("os_kernel_version"@, params, m, processes) == (match m.system.kernel_version { Some(s) => Some(Some(DataValue::Text(s@))), None => Some(None) }),
{
    reveal_strlit("os_kernel_version");
    reveal_strlit("process");
    assert("os_kernel_version"@.len() != "process"@.len());
    assert(spec_query_statements()[47] == "os_kernel_version"@);
    lemma_key_os_kernel_version(m, None, processes);
}

proof fn lemma_query_info_os_host_name(m: Model, params: Option<Seq<(Seq<char>, DataValue)>>, processes: Option<&Vec<ProcessSnapshot>>)
    ensures
        spec_query_info("os_host_name"@, params, m, processes) == (match m.system.host_name { Some(s) => Some(Some(DataValue::Text(s@))), None => Some(None) }),
{
    reveal_strlit("os_host_name");
    reveal_strlit("process");
    assert("os_host_name"@.len() != "process"@.len());
    assert(spec_query_statements()[46] == "os_host_name"@);
    lemma_key_os_host_name(m, None, processes);
}

proof fn lemma_query_info_os_activated(m: Model, params: Option<Seq<(Seq<char>, DataValue)>>, processes: Option<&Vec<ProcessSnapshot>>)
    ensures
        spec_query_info("os_activated"@, params, m, processes) == (match m.system.is_activated { Some(b) => Some(Some(DataValue::Boolean(b))), None => Some(None) }),
{
    reveal_strlit("os_activated");
    reveal_strlit("process");
    assert("os_activated"@.len() != "process"@.len());
    assert(spec_query_statements()[45] == "os_activated"@);
    lemma_key_os_activated(m, None, processes);
}

proof fn lemma_query_info_bat_capacity_designed(m: Model, params: Option<Seq<(Seq<char>, DataValue)>>, processes: Option<&Vec<ProcessSnapshot>>)
    ensures
        spec_query_info("bat_capacity_designed"@, params, m, processes) == (match m.battery.designed_capacity { Some(x) => Some(Some(DataValue::Float(x.bits))), None => Some(None) }),
{
    reveal_strlit("bat_capacity_designed");
    reveal_strlit("process");
    assert("bat_capacity_designed"@.len() != "process"@.len());
    assert(spec_query_statements()[0] == "bat_capacity_designed"@);
    lemma_key_bat_capacity_designed(m, None, processes);
}

proof fn lemma_query_info_bat_capacity_max(m: Model, params: Option<Seq<(Seq<char>, DataValue)>>, processes: Option<&Vec<ProcessSnapshot>>)
    ensures
        spec_query_info("bat_capacity_max"@, params, m, processes) == (match m.battery.actually_capacity { Some(x) => Some(Some(DataValue::Float(x.bits))), None => Some(None) }),
{
    reveal_strlit("bat_capacity_max");
    reveal_strlit("process");
    assert("bat_capacity_max"@.len() != "process"@.len());
    assert(spec_query_statements()[1] == "bat_capacity_max"@);
    lemma_key_bat_capacity_max(m, None, processes);
}

proof fn lemma_query_info_bat_capacity_remain(m: Model, params: Option<Seq<(Seq<char>, DataValue)>>, processes: Option<&Vec<ProcessSnapshot>>)
    ensures
        spec_query_info("bat_capacity_remain"@, params, m, processes) == (match m.battery.remain_capacity { Some(x) => Some(Some(DataValue::Float(x.bits))), None => Some(None) }),
{
    reveal_strlit("bat_capacity_remain");
    reveal_strlit("process");
    assert("bat_capacity_remain"@.len() != "process"@.len());
    assert(spec_query_statements()[2] == "bat_capacity_remain"@);
    lemma_key_bat_capacity_remain(m, None, processes);
}

proof fn lemma_query_info_bat_voltage(m: Model, params: Option<Seq<(Seq<char>, DataValue)>>, processes: Option<&Vec<ProcessSnapshot>>)
    ensures
        spec_query_info("bat_voltage"@, params, m, processes) == (match m.battery.voltage { Some(x) => Some(Some(DataValue::Float(x.bits))), None => Some(None) }),
{
    reveal_strlit("bat_voltage");
    reveal_strlit("process");
    assert("bat_voltage"@.len() != "process"@.len());
    assert(spec_query_statements()[6] == "bat_voltage"@);
    lemma_key_bat_voltage(m, None, processes);
}

proof fn lemma_query_info_bat_rate(m: Model, params: Option<Seq<(Seq<char>, DataValue)>>, processes: Option<&Vec<ProcessSnapshot>>)
    ensures
        spec_query_info("bat_rate"@, params, m, processes) == (match m.battery.rate { Some(x) => Some(Some(DataValue::Float(x.bits))), None => Some(None) }),
{
    reveal_strlit("bat_rate");
    reveal_strlit("process");
    assert("bat_rate"@.len() != "process"@.len());
    assert(spec_query_statements()[4] == "bat_rate"@);
    lemma_key_bat_rate(m, None, processes);
}

proof fn lemma_query_info_bat_state(m: Model, params: Option<Seq<(Seq<char>, DataValue)>>, processes: Option<&Vec<ProcessSnapshot>>)
    ensures
        spec_query_info("bat_state"@, params, m, processes) == (match m.battery.is_charging { Some(b) => Some(Some(DataValue::Boolean(b))), None => Some(None) }),
{
    reveal_strlit("bat_state");
    reveal_strlit("process");
    assert("bat_state"@.len() != "process"@.len());
    assert(spec_query_statements()[5] == "bat_state"@);
    lemma_key_bat_state(m, None, processes);
}

proof fn lemma_query_info_cpu_name(m: Model, params: Option<Seq<(Seq<char>, DataValue)>>, processes: Option<&Vec<ProcessSnapshot>>)
    ensures
        spec_query_info("cpu_name"@, params, m, processes) == (match m.cpu.name { Some(s) => Some(Some(DataValue::Text(s@))), None => Some(None) }),
{
    reveal_strlit("cpu_name");
    reveal_strlit("process");
    assert("cpu_name"@.len() != "process"@.len());
    assert(spec_query_statements()[12] == "cpu_name"@);
    lemma_key_cpu_name(m, None, processes);
}

proof fn lemma_query_info_cpu_usage(m: Model, params: Option<Seq<(Seq<char>, DataValue)>>, processes: Option<&Vec<ProcessSnapshot>>)
    ensures
        spec_query_info("cpu_usage"@, params, m, processes) == (match m.cpu.usage { Some(x) => Some(Some(DataValue::Float(x.bits))), None => Some(None) }),
{
    reveal_strlit("cpu_usage");
    reveal_strlit("process");
    assert("cpu_usage"@.len() != "process"@.len());
    assert(spec_query_statements()[19] == "cpu_usage"@);
    lemma_key_cpu_usage(m, None, processes);
}

proof fn lemma_query_info_cpu_temperature(m: Model, params: Option<Seq<(Seq<char>, DataValue)>>, processes: Option<&Vec<ProcessSnapshot>>)
    ensures
        spec_query_info("cpu_temperature"@, params, m, processes) == (match m.cpu.package_temperature { Some(x) => Some(Some(DataValue::Float(x.bits))), None => Some(None) }),
{
    reveal_strlit("cpu_temperature");
    reveal_strlit("process");
    assert("cpu_temperature"@.len() != "process"@.len());
    assert(spec_query_statements()[14] == "cpu_temperature"@);
    lemma_key_cpu_temperature(m, None, processes);
}

proof fn lemma_query_info_cpu_power(m: Model, params: Option<Seq<(Seq<char>, DataValue)>>, processes: Option<&Vec<ProcessSnapshot>>)
    ensures
        spec_query_info("cpu_power"@, params, m, processes) == (match m.cpu.power { Some(x) => Some(Some(DataValue::Float(x.bits))), None => Some(None) }),
{
    reveal_strlit("cpu_power");
    reveal_strlit("process");
    assert("cpu_power"@.len() != "process"@.len());
    assert(spec_query_statements()[13] == "cpu_power"@);
    lemma_key_cpu_power(m, None, processes);
}

proof fn lemma_query_info_cpu_clock_avg(m: Model, params: Option<Seq<(Seq<char>, DataValue)>>, processes: Option<&Vec<ProcessSnapshot>>)
    ensures
        spec_query_info("cpu_clock_avg"@, params, m, processes) == (match m.cpu.clock { Some(x) => Some(Some(DataValue::Float(x.bits))), None => Some(None) }),
{
    reveal_strlit("cpu_clock_avg");
    reveal_strlit("process");
    assert("cpu_clock_avg"@.len() != "process"@.len());
    assert(spec_query_statements()[7] == "cpu_clock_avg"@);
    lemma_key_cpu_clock_avg(m, None, processes);
}

proof fn lemma_query_info_cpu_voltage(m: Model, params: Option<Seq<(Seq<char>, DataValue)>>, processes: Option<&Vec<ProcessSnapshot>>)
    ensures
        spec_query_info("cpu_voltage"@, params, m, processes) == (match m.cpu.voltage { Some(x) => Some(Some(DataValue::Float(x.bits))), None => Some(None) }),
{
    reveal_strlit("cpu_voltage");
    reveal_strlit("process");
    assert("cpu_voltage"@.len() != "process"@.len());
    assert(spec_query_statements()[22] == "cpu_voltage"@);
    lemma_key_cpu_voltage(m, None, processes);
}

proof fn lemma_query_info_gpu_name(m: Model, params: Option<Seq<(Seq<char>, DataValue)>>, processes: Option<&Vec<ProcessSnapshot>>)
    ensures
        spec_query_info("gpu_name"@, params, m, processes) == (match m.gpu.name { Some(s) => Some(Some(DataValue::Text(s@))), None => Some(None) }),
{
    reveal_strlit("gpu_name");
    reveal_strlit("process");
    assert("gpu_name"@.len() != "process"@.len());
    assert(spec_query_statements()[35] == "gpu_name"@);
    lemma_key_gpu_name(m, None, processes);
}

proof fn lemma_query_info_gpu_temperature(m: Model, params: Option<Seq<(Seq<char>, DataValue)>>, processes: Option<&Vec<ProcessSnapshot>>)
    ensures
        spec_query_info("gpu_temperature"@, params, m, processes) == (match m.gpu.temperature { Some(x) => Some(Some(DataValue::Float(x.bits))), None => Some(None) }),
{
    reveal_strlit("gpu_temperature");
    reveal_strlit("process");
    assert("gpu_temperature"@.len() != "process"@.len());
    assert(spec_query_statements()[37] == "gpu_temperature"@);
    lemma_key_gpu_temperature(m, None, processes);
}

proof fn lemma_query_info_gpu_power(m: Model, params: Option<Seq<(Seq<char>, DataValue)>>, processes: Option<&Vec<ProcessSnapshot>>)
    ensures
        spec_query_info("gpu_power"@, params, m, processes) == (match m.gpu.power { Some(x) => Some(Some(DataValue::Float(x.bits))), None => Some(None) }),
{
    reveal_strlit("gpu_power");
    reveal_strlit("process");
    assert("gpu_power"@.len() != "process"@.len());
    assert(spec_query_statements()[36] == "gpu_power"@);
    lemma_key_gpu_power(m, None, processes);
}

proof fn lemma_query_info_gpu_clock_rms(m: Model, params: Option<Seq<(Seq<char>, DataValue)>>, processes: Option<&Vec<ProcessSnapshot>>)
    ensures
        spec_query_info("gpu_clock_rms"@, params, m, processes) == (match m.gpu.speed { Some(x) => Some(Some(DataValue::Float(x.bits))), None => Some(None) }),
{
    reveal_strlit("gpu_clock_rms");
    reveal_strlit("process");
    assert("gpu_clock_rms"@.len() != "process"@.len());
    assert(spec_query_statements()[33] == "gpu_clock_rms"@);
    lemma_key_gpu_clock_rms(m, None, processes);
}

proof fn lemma_query_info_gpu_mem_clock_rms(m: Model, params: Option<Seq<(Seq<char>, DataValue)>>, processes: Option<&Vec<ProcessSnapshot>>)
    ensures
        spec_query_info("gpu_mem_clock_rms"@, params, m, processes) == (match m.gpu.mem_clock { Some(i) => Some(Some(DataValue::Int(i))), None => Some(None) }),
{
    reveal_strlit("gpu_mem_clock_rms");
    reveal_strlit("process");
    assert("gpu_mem_clock_rms"@.len() != "process"@.len());
    assert(spec_query_statements()[34] == "gpu_mem_clock_rms"@);
    lemma_key_gpu_mem_clock_rms(m, None, processes);
}

proof fn lemma_query_info_mem_used(m: Model, params: Option<Seq<(Seq<char>, DataValue)>>, processes: Option<&Vec<ProcessSnapshot>>)
    ensures
        spec_query_info("mem_used"@, params, m, processes) == (match m.ram.used_size { Some(x) => Some(Some(DataValue::Float(x.bits))), None => Some(None) }),
{
    reveal_strlit("mem_used");
    reveal_strlit("process");
    assert("mem_used"@.len() != "process"@.len());
    assert(spec_query_statements()[44] == "mem_used"@);
    lemma_key_mem_used(m, None, processes);
}

proof fn lemma_query_info_mem_available(m: Model, params: Option<Seq<(Seq<char>, DataValue)>>, processes: Option<&Vec<ProcessSnapshot>>)
    ensures
        spec_query_info("mem_available"@, params, m, processes) == (match m.ram.free_size { Some(x) => Some(Some(DataValue::Float(x.bits))), None => Some(None) }),
{
    reveal_strlit("mem_available");
    reveal_strlit("process");
    assert("mem_available"@.len() != "process"@.len());
    assert(spec_query_statements()[39] == "mem_available"@);
    lemma_key_mem_available(m, None, processes);
}

proof fn lemma_query_info_mem_total(m: Model, params: Option<Seq<(Seq<char>, DataValue)>>, processes: Option<&Vec<ProcessSnapshot>>)
    ensures
        spec_query_info("mem_total"@, params, m, processes) == (match m.ram.total_size { Some(x) => Some(Some(DataValue::Float(x.bits))), None => Some(None) }),
{
    reveal_strlit("mem_total");
    reveal_strlit("process");
    assert("mem_total"@.len() != "process"@.len());
    assert(spec_query_statements()[43] == "mem_total"@);
    lemma_key_mem_total(m, None, processes);
}

proof fn lemma_query_info_mem_swap_total(m: Model, params: Option<Seq<(Seq<char>, DataValue)>>, processes: Option<&Vec<ProcessSnapshot>>)
    ensures
        spec_query_info("mem_swap_total"@, params, m, processes) == (match m.ram.total_swap { Some(x) => Some(Some(DataValue::Float(x.bits))), None => Some(None) }),
{
    reveal_strlit("mem_swap_total");
    reveal_strlit("process");
    assert("mem_swap_total"@.len() != "process"@.len());
    assert(spec_query_statements()[41] == "mem_swap_total"@);
    lemma_key_mem_swap_total(m, None, processes);
}

proof fn lemma_query_info_mem_swap_used(m: Model, params: Option<Seq<(Seq<char>, DataValue)>>, processes: Option<&Vec<ProcessSnapshot>>)
    ensures
        spec_query_info("mem_swap_used"@, params, m, processes) == (match m.ram.used_swap { Some(x) => Some(Some(DataValue::Float(x.bits))), None => Some(None) }),
{
    reveal_strlit("mem_swap_used");
    reveal_strlit("process");
    assert("mem_swap_used"@.len() != "process"@.len());
    assert(spec_query_statements()[42] == "mem_swap_used"@);
    lemma_key_mem_swap_used(m, None, processes);
}

proof fn lemma_query_info_fan_rpm_cpu(m: Model, params: Option<Seq<(Seq<char>, DataValue)>>, processes: Option<&Vec<ProcessSnapshot>>)
    ensures
        spec_query_info("fan_rpm_cpu"@, params, m, processes) == (match m.fans.cpu_speed { Some(i) => Some(Some(DataValue::Int(i))), None => Some(None) }),
{
    reveal_strlit("fan_rpm_cpu");
    reveal_strlit("process");
    assert("fan_rpm_cpu"@.len() != "process"@.len());
    assert(spec_query_statements()[30] == "fan_rpm_cpu"@);
    lemma_key_fan_rpm_cpu(m, None, processes);
}

proof fn lemma_query_info_fan_rpm_gpu(m: Model, params: Option<Seq<(Seq<char>, DataValue)>>, processes: Option<&Vec<ProcessSnapshot>>)
    ensures
        spec_query_info("fan_rpm_gpu"@, params, m, processes) == (match m.fans.gpu_speed { Some(i) => Some(Some(DataValue::Int(i))), None => Some(None) }),
{
    reveal_strlit("fan_rpm_gpu");
    reveal_strlit("process");
    assert("fan_rpm_gpu"@.len() != "process"@.len());
    assert(spec_query_statements()[31] == "fan_rpm_gpu"@);
    lemma_key_fan_rpm_gpu(m, None, processes);
}

proof fn lemma_query_info_fan_rpm_mid(m: Model, params: Option<Seq<(Seq<char>, DataValue)>>, processes: Option<&Vec<ProcessSnapshot>>)
    ensures
        spec_query_info("fan_rpm_mid"@, params, m, processes) == (match m.fans.mid_speed { Some(i) => Some(Some(DataValue::Int(i))), None => Some(None) }),
{
    reveal_strlit("fan_rpm_mid");
    reveal_strlit("process");
    assert("fan_rpm_mid"@.len() != "process"@.len());
    assert(spec_query_statements()[32] == "fan_rpm_mid"@);
    lemma_key_fan_rpm_mid(m, None, processes);
}

proof fn lemma_query_info_disk_disk(m: Model, params: Option<Seq<(Seq<char>, DataValue)>>, processes: Option<&Vec<ProcessSnapshot>>)
    ensures
        spec_query_info("disk_disk"@, params, m, processes) == (match m.disk.disk_list { Some(v) => Some(Some(DataValue::Array(Seq::new(v@.len(), |i: int| DataValue::Text(v@[i]@))))), None => Some(None) }),
{
    reveal_strlit("disk_disk");
    reveal_strlit("process");
    assert("disk_disk"@.len() != "process"@.len());
    assert(spec_query_statements()[25] == "disk_disk"@);
    lemma_key_disk_disk(m, None, processes);
}

/// A query for one of the keys a client may ask for answers with the field
/// the key names, whatever parameters come with it.
pub proof fn law_query_info_reads_the_field(m: Model, params: Option<Seq<(Seq<char>, DataValue)>>, processes: Option<&Vec<ProcessSnapshot>>)
    ensures
        spec_query_info("os_name"@, params, m, processes) == (match m.system.os_name { Some(s) => Some(Some(DataValue::Text(s@))), None => Some(None) }),
        spec_query_info("os_version"@, params, m, processes) == (match m.system.os_version { Some(s) => Some(Some(DataValue::Text(s@))), None => Some(None) }),
        spec_query_info("os_kernel_version"@, params, m, processes) == (match m.system.kernel_version { Some(s) => Some(Some(DataValue::Text(s@))), None => Some(None) }),
        spec_query_info("os_host_name"@, params, m, processes) == (match m.system.host_name { Some(s) => Some(Some(DataValue::Text(s@))), None => Some(None) }),
        spec_query_info("os_activated"@, params, m, processes) == (match m.system.is_activated { Some(b) => Some(Some(DataValue::Boolean(b))), None => Some(None) }),
        spec_query_info("bat_capacity_designed"@, params, m, processes) == (match m.battery.designed_capacity { Some(x) => Some(Some(DataValue::Float(x.bits))), None => Some(None) }),
        spec_query_info("bat_capacity_max"@, params, m, processes) == (match m.battery.actually_capacity { Some(x) => Some(Some(DataValue::Float(x.bits))), None => Some(None) }),
        spec_query_info("bat_capacity_remain"@, params, m, processes) == (match m.battery.remain_capacity { Some(x) => Some(Some(DataValue::Float(x.bits))), None => Some(None) }),
        spec_query_info("bat_voltage"@, params, m, processes) == (match m.battery.voltage { Some(x) => Some(Some(DataValue::Float(x.bits))), None => Some(None) }),
        spec_query_info("bat_rate"@, params, m, processes) == (match m.battery.rate { Some(x) => Some(Some(DataValue::Float(x.bits))), None => Some(None) }),
        spec_query_info("bat_state"@, params, m, processes) == (match m.battery.is_charging { Some(b) => Some(Some(DataValue::Boolean(b))), None => Some(None) }),
        spec_query_info("cpu_name"@, params, m, processes) == (match m.cpu.name { Some(s) => Some(Some(DataValue::Text(s@))), None => Some(None) }),
        spec_query_info("cpu_usage"@, params, m, processes) == (match m.cpu.usage { Some(x) => Some(Some(DataValue::Float(x.bits))), None => Some(None) }),
        spec_query_info("cpu_temperature"@, params, m, processes) == (match m.cpu.package_temperature { Some(x) => Some(Some(DataValue::Float(x.bits))), None => Some(None) }),
        spec_query_info("cpu_power"@, params, m, processes) == (match m.cpu.power { Some(x) => Some(Some(DataValue::Float(x.bits))), None => Some(None) }),
        spec_query_info("cpu_clock_avg"@, params, m, processes) == (match m.cpu.clock { Some(x) => Some(Some(DataValue::Float(x.bits))), None => Some(None) }),
        spec_query_info("cpu_voltage"@, params, m, processes) == (match m.cpu.voltage { Some(x) => Some(Some(DataValue::Float(x.bits))), None => Some(None) }),
        spec_query_info("gpu_name"@, params, m, processes) == (match m.gpu.name { Some(s) => Some(Some(DataValue::Text(s@))), None => Some(None) }),
        spec_query_info("gpu_temperature"@, params, m, processes) == (match m.gpu.temperature { Some(x) => Some(Some(DataValue::Float(x.bits))), None => Some(None) }),
        spec_query_info("gpu_power"@, params, m, processes) == (match m.gpu.power { Some(x) => Some(Some(DataValue::Float(x.bits))), None => Some(None) }),
        spec_query_info("gpu_clock_rms"@, params, m, processes) == (match m.gpu.speed { Some(x) => Some(Some(DataValue::Float(x.bits))), None => Some(None) }),
        spec_query_info("gpu_mem_clock_rms"@, params, m, processes) == (match m.gpu.mem_clock { Some(i) => Some(Some(DataValue::Int(i))), None => Some(None) }),
        spec_query_info("mem_used"@, params, m, processes) == (match m.ram.used_size { Some(x) => Some(Some(DataValue::Float(x.bits))), None => Some(None) }),
        spec_query_info("mem_available"@, params, m, processes) == (match m.ram.free_size { Some(x) => Some(Some(DataValue::Float(x.bits))), None => Some(None) }),
        spec_query_info("mem_total"@, params, m, processes) == (match m.ram.total_size { Some(x) => Some(Some(DataValue::Float(x.bits))), None => Some(None) }),
        spec_query_info("mem_swap_total"@, params, m, processes) == (match m.ram.total_swap { Some(x) => Some(Some(DataValue::Float(x.bits))), None => Some(None) }),
        spec_query_info("mem_swap_used"@, params, m, processes) == (match m.ram.used_swap { Some(x) => Some(Some(DataValue::Float(x.bits))), None => Some(None) }),
        spec_query_info("fan_rpm_cpu"@, params, m, processes) == (match m.fans.cpu_speed { Some(i) => Some(Some(DataValue::Int(i))), None => Some(None) }),
        spec_query_info("fan_rpm_gpu"@, params, m, processes) == (match m.fans.gpu_speed { Some(i) => Some(Some(DataValue::Int(i))), None => Some(None) }),
        spec_query_info("fan_rpm_mid"@, params, m, processes) == (match m.fans.mid_speed { Some(i) => Some(Some(DataValue::Int(i))), None => Some(None) }),
        spec_query_info("disk_disk"@, params, m, processes) == (match m.disk.disk_list { Some(v) => Some(Some(DataValue::Array(Seq::new(v@.len(), |i: int| DataValue::Text(v@[i]@))))), None => Some(None) }),
{
    lemma_query_info_os_name(m, params, processes);
    lemma_query_info_os_version(m, params, processes);
    lemma_query_info_os_kernel_version(m, params, processes);
    lemma_query_info_os_host_name(m, params, processes);
    lemma_query_info_os_activated(m, params, processes);
    lemma_query_info_bat_capacity_designed(m, params, processes);
    lemma_query_info_bat_capacity_max(m, params, processes);
    lemma_query_info_bat_capacity_remain(m, params, processes);
    lemma_query_info_bat_voltage(m, params, processes);
    lemma_query_info_bat_rate(m, params, processes);
    lemma_query_info_bat_state(m, params, processes);
    lemma_query_info_cpu_name(m, params, processes);
    lemma_query_info_cpu_usage(m, params, processes);
    lemma_query_info_cpu_temperature(m, params, processes);
    lemma_query_info_cpu_power(m, params, processes);
    lemma_query_info_cpu_clock_avg(m, params, processes);
    lemma_query_info_cpu_voltage(m, params, processes);
    lemma_query_info_gpu_name(m, params, processes);
    lemma_query_info_gpu_temperature(m, params, processes);
    lemma_query_info_gpu_power(m, params, processes);
    lemma_query_info_gpu_clock_rms(m, params, processes);
    lemma_query_info_gpu_mem_clock_rms(m, params, processes);
    lemma_query_info_mem_used(m, params, processes);
    lemma_query_info_mem_available(m, params, processes);
    lemma_query_info_mem_total(m, params, processes);
    lemma_query_info_mem_swap_total(m, params, processes);
    lemma_query_info_mem_swap_used(m, params, processes);
    lemma_query_info_fan_rpm_cpu(m, params, processes);
    lemma_query_info_fan_rpm_gpu(m, params, processes);
    lemma_query_info_fan_rpm_mid(m, params, processes);
    lemma_query_info_disk_disk(m, params, processes);
}

} // verus!
