//! The model of the machine: what is known of each part, and the keys by
//! which a query reads it.

use vstd::prelude::*;
use crate::monitor::process::{
    ConditionQueryStrategy, ProcessSnapshot, ProcessSortKey, float_total_key, key_order, lex_order, process_listing,
    process_listing_container,
};
use crate::monitor::query::{QueryField, QueryResult, answer};
use crate::util::data_container::{DataContainer, DataValue, Float64, InfoMap, lookup};
use crate::util::text::str_eq;

verus! {

/// The package manager of a Linux system.
#[derive(Debug, Clone, Copy, PartialEq, Eq, Structural)]
pub enum SystemPackageManager {
    Apt,
    Dnf,
    Pacman,
}

/// The name of a package manager.
pub open spec fn system_package_manager_name(p: SystemPackageManager) -> Seq<char> {
    match p {
        SystemPackageManager::Apt => "apt"@,
        SystemPackageManager::Dnf => "dnf"@,
        SystemPackageManager::Pacman => "pacman"@,
    }
}

impl SystemPackageManager {
    /// The package manager's name as a value.
    pub fn to_data_container(&self) -> (d: DataContainer)
        ensures
            d@ == DataValue::Text(system_package_manager_name(*self)),
    {
        match self {
            SystemPackageManager::Apt => DataContainer::Text(String::from_str("apt")),
            SystemPackageManager::Dnf => DataContainer::Text(String::from_str("dnf")),
            SystemPackageManager::Pacman => DataContainer::Text(String::from_str("pacman")),
        }
    }

    /// The package manager with the given name.
    pub fn try_from_name(value: &str) -> (r: Option<SystemPackageManager>)
        ensures
            r matches Some(p) ==> system_package_manager_name(p) == value@,
            r is None ==> (value@ != "apt"@ && value@ != "dnf"@ && value@ != "pacman"@),
    {
        if str_eq(value, "apt") {
            Some(SystemPackageManager::Apt)
        } else if str_eq(value, "dnf") {
            Some(SystemPackageManager::Dnf)
        } else if str_eq(value, "pacman") {
            Some(SystemPackageManager::Pacman)
        } else {
            None
        }
    }
}

/// Values that are too large or change too fast to be stored, such as the
/// running processes: the model keeps no data for them and asks for them
/// when queried.
#[derive(Debug, Clone, Copy, PartialEq, Eq, Structural)]
pub struct VirtualDevice;

/// The running processes, which the model does not store.
#[derive(Debug, Clone, Copy, PartialEq, Eq, Structural)]
pub struct VirtualProcess {}

/// An optional text, answered.
pub open spec fn text_answer(o: Option<String>) -> Option<Option<DataValue>> {
    Some(
        match o {
            Some(s) => Some(DataValue::Text(s@)),
            None => None,
        },
    )
}

/// An optional float, answered.
pub open spec fn float_answer(o: Option<Float64>) -> Option<Option<DataValue>> {
    Some(
        match o {
            Some(f) => Some(DataValue::Float(f.bits)),
            None => None,
        },
    )
}

/// An optional integer, answered.
pub open spec fn int_answer(o: Option<i32>) -> Option<Option<DataValue>> {
    Some(
        match o {
            Some(i) => Some(DataValue::Int(i)),
            None => None,
        },
    )
}

/// An optional flag, answered.
pub open spec fn bool_answer(o: Option<bool>) -> Option<Option<DataValue>> {
    Some(
        match o {
            Some(b) => Some(DataValue::Boolean(b)),
            None => None,
        },
    )
}

/// An optional package manager, answered by its name.
pub open spec fn pm_answer(o: Option<SystemPackageManager>) -> Option<Option<DataValue>> {
    Some(
        match o {
            Some(p) => Some(DataValue::Text(system_package_manager_name(p))),
            None => None,
        },
    )
}

/// An optional list of texts, answered.
pub open spec fn texts_answer(o: Option<Vec<String>>) -> Option<Option<DataValue>> {
    Some(
        match o {
            Some(v) => Some(DataValue::Array(Seq::new(v@.len(), |i: int| DataValue::Text(v@[i]@)))),
            None => None,
        },
    )
}

fn found_text(o: &Option<String>) -> (r: QueryResult)
    ensures
        answer(r) == text_answer(*o),
{
    match o {
        Some(s) => QueryResult::Found(Some(DataContainer::Text(s.clone()))),
        None => QueryResult::Found(None),
    }
}

fn found_float(o: &Option<Float64>) -> (r: QueryResult)
    ensures
        answer(r) == float_answer(*o),
{
    match o {
        Some(f) => QueryResult::Found(Some(DataContainer::Float(*f))),
        None => QueryResult::Found(None),
    }
}

fn found_int(o: &Option<i32>) -> (r: QueryResult)
    ensures
        answer(r) == int_answer(*o),
{
    match o {
        Some(i) => QueryResult::Found(Some(DataContainer::Int(*i))),
        None => QueryResult::Found(None),
    }
}

fn found_bool(o: &Option<bool>) -> (r: QueryResult)
    ensures
        answer(r) == bool_answer(*o),
{
    match o {
        Some(b) => QueryResult::Found(Some(DataContainer::Boolean(*b))),
        None => QueryResult::Found(None),
    }
}

fn found_pm(o: &Option<SystemPackageManager>) -> (r: QueryResult)
    ensures
        answer(r) == pm_answer(*o),
{
    match o {
        Some(p) => QueryResult::Found(Some(p.to_data_container())),
        None => QueryResult::Found(None),
    }
}

fn found_texts(o: &Option<Vec<String>>) -> (r: QueryResult)
    ensures
        answer(r) == texts_answer(*o),
{
    match o {
        Some(v) => {
            let mut items: Vec<DataContainer> = Vec::new();
            let mut i: usize = 0;
            while i < v.len()
                invariant
                    i <= v@.len(),
                    items@.len() == i,
                    forall|j: int| 0 <= j < i ==> #[trigger] items@[j]@ == DataValue::Text(v@[j]@),
                decreases v@.len() - i,
            {
                items.push(DataContainer::Text(v[i].clone()));
                i = i + 1;
            }
            let ghost iv = items@;
            let d = DataContainer::Array(items);
            assert(d@->Array_0 =~= Seq::new(v@.len(), |k: int| DataValue::Text(v@[k]@))) by {
                assert forall|k: int| 0 <= k < v@.len() implies #[trigger] d@->Array_0[k] == DataValue::Text(v@[k]@) by {
                    assert(iv[k]@ == DataValue::Text(v@[k]@));
                }
            }
            QueryResult::Found(Some(d))
        }
        None => QueryResult::Found(None),
    }
}

/// A value read as a count: a non-negative integer that fits a `usize`.
pub open spec fn usize_of(v: Option<DataValue>) -> Option<usize> {
    match v {
        Some(DataValue::Int(i)) => if i >= 0 { Some(i as usize) } else { None },
        Some(DataValue::UnsignedLong(u)) => if u <= usize::MAX { Some(u as usize) } else { None },
        _ => None,
    }
}

/// A value read as a flag.
pub open spec fn bool_of(v: Option<DataValue>) -> Option<bool> {
    match v {
        Some(DataValue::Boolean(b)) => Some(b),
        _ => None,
    }
}

/// A value read as a text.
pub open spec fn text_of(v: Option<DataValue>) -> Option<Seq<char>> {
    match v {
        Some(DataValue::Text(t)) => Some(t),
        _ => None,
    }
}

/// Reads a value as a count.
pub fn data_container_to_usize(value: &DataContainer) -> (r: Option<usize>)
    ensures
        r == usize_of(Some(value@)),
{
    match value {
        DataContainer::Int(v) => if *v >= 0 { Some(*v as usize) } else { None },
        DataContainer::UnsignedLong(v) => if (*v as u128) <= (usize::MAX as u128) { Some(*v as usize) } else { None },
        _ => None,
    }
}

/// Reads a value as a flag.
pub fn data_container_to_bool(value: &DataContainer) -> (r: Option<bool>)
    ensures
        r == bool_of(Some(value@)),
{
    match value {
        DataContainer::Boolean(v) => Some(*v),
        _ => None,
    }
}

/// Reads a value as a text.
pub fn data_container_to_str(value: &DataContainer) -> (r: Option<&str>)
    ensures
        match r {
            Some(s) => text_of(Some(value@)) == Some(s@),
            None => text_of(Some(value@)) is None,
        },
{
    match value {
        DataContainer::Text(v) => Some(v.as_str()),
        _ => None,
    }
}

/// The ordering a query's parameters ask for, by its name: `None` for a
/// name that names no field.
pub open spec fn sort_key_named(name: Seq<char>) -> Option<ProcessSortKey> {
    if name == "pid"@ {
        Some(ProcessSortKey::Pid)
    } else if name == "name"@ {
        Some(ProcessSortKey::Name)
    } else if name == "memory"@ {
        Some(ProcessSortKey::Memory)
    } else if name == "virtual_memory"@ {
        Some(ProcessSortKey::VirtualMemory)
    } else if name == "cpu"@ || name == "cpu_usage"@ {
        Some(ProcessSortKey::CpuUsage)
    } else {
        None
    }
}

/// The parameters of a query, as values.
pub open spec fn params_view(attach: Option<&InfoMap>) -> Option<Seq<(Seq<char>, DataValue)>> {
    match attach {
        Some(m) => Some(m@),
        None => None,
    }
}

/// The listing a process query's parameters ask for. `limit` keeps at most
/// that many processes; `sort_by` names the field to order by (CPU usage
/// when absent); `descending` puts the largest first. A `sort_by` that names
/// no field leaves the default order: CPU usage, smallest first.
pub open spec fn strategy_for(attach: Option<Seq<(Seq<char>, DataValue)>>) -> ConditionQueryStrategy {
    match attach {
        None => ConditionQueryStrategy { sort_by: ProcessSortKey::CpuUsage, descending: false, limit: None },
        Some(m) => {
            let limit = usize_of(lookup(m, "limit"@));
            let descending = match bool_of(lookup(m, "descending"@)) {
                Some(b) => b,
                None => false,
            };
            match text_of(lookup(m, "sort_by"@)) {
                None => ConditionQueryStrategy { sort_by: ProcessSortKey::CpuUsage, descending, limit },
                Some(name) => match sort_key_named(name) {
                    Some(k) => ConditionQueryStrategy { sort_by: k, descending, limit },
                    None => ConditionQueryStrategy { sort_by: ProcessSortKey::CpuUsage, descending: false, limit },
                },
            }
        },
    }
}

/// Reads the listing a process query's parameters ask for.
pub fn process_strategy(attach: Option<&InfoMap>) -> (s: ConditionQueryStrategy)
    ensures
        s == strategy_for(params_view(attach)),
{
    let mut strategy = ConditionQueryStrategy::default();
    let attach = match attach {
        None => return strategy,
        Some(a) => a,
    };
    if let Some(v) = attach.get("limit") {
        if let Some(limit) = data_container_to_usize(v) {
            strategy.limit = Some(limit);
        }
    }
    let descending = match attach.get("descending") {
        Some(v) => match data_container_to_bool(v) {
            Some(b) => b,
            None => false,
        },
        None => false,
    };
    let sort_by = match attach.get("sort_by") {
        Some(v) => data_container_to_str(v),
        None => None,
    };
    match sort_by {
        None => {
            strategy.sort_by = ProcessSortKey::CpuUsage;
            strategy.descending = descending;
        },
        Some(name) => {
            if str_eq(name, "pid") {
                strategy.sort_by = ProcessSortKey::Pid;
                strategy.descending = descending;
            } else if str_eq(name, "name") {
                strategy.sort_by = ProcessSortKey::Name;
                strategy.descending = descending;
            } else if str_eq(name, "memory") {
                strategy.sort_by = ProcessSortKey::Memory;
                strategy.descending = descending;
            } else if str_eq(name, "virtual_memory") {
                strategy.sort_by = ProcessSortKey::VirtualMemory;
                strategy.descending = descending;
            } else if str_eq(name, "cpu") || str_eq(name, "cpu_usage") {
                strategy.sort_by = ProcessSortKey::CpuUsage;
                strategy.descending = descending;
            }
        },
    }
    strategy
}

/// What a query for the running processes answers: the listing its
/// parameters ask for, or no value when the processes are not known.
pub open spec fn os_process_answer(
    attach: Option<Seq<(Seq<char>, DataValue)>>,
    processes: Option<&Vec<ProcessSnapshot>>,
) -> Option<Option<DataValue>> {
    match processes {
        Some(ps) => Some(Some(DataValue::Array(process_listing(ps@, strategy_for(attach))))),
        None => Some(None),
    }
}

/// Answers a query for the running processes.
pub fn os_process_query(attach: Option<&InfoMap>, processes: Option<&Vec<ProcessSnapshot>>) -> (r: QueryResult)
    ensures
        answer(r) == os_process_answer(params_view(attach), processes),
{
    let strategy = process_strategy(attach);
    match processes {
        Some(ps) => QueryResult::Found(Some(process_listing_container(ps, &strategy))),
        None => QueryResult::Found(None),
    }
}

/// The operating system.
#[derive(Debug, Clone, PartialEq)]
pub struct System {
    pub os_name: Option<String>,
    pub os_version: Option<String>,
    pub kernel_version: Option<String>,
    pub host_name: Option<String>,
    pub package_manager: Option<SystemPackageManager>,
    pub is_activated: Option<bool>,
    pub process: VirtualDevice,
}

impl System {
    /// Nothing is known of this part.
    pub open spec fn is_blank(&self) -> bool {
        &&& self.os_name is None
        &&& self.os_version is None
        &&& self.kernel_version is None
        &&& self.host_name is None
        &&& self.package_manager is None
        &&& self.is_activated is None
    }
}

impl Default for System {
    /// Nothing known yet.
    fn default() -> (r: Self)
        ensures
            r.is_blank(),
    {
        System {
            os_name: None,
            os_version: None,
            kernel_version: None,
            host_name: None,
            package_manager: None,
            is_activated: None,
            process: VirtualDevice,
        }
    }
}

impl QueryField for System {
    open spec fn spec_query(
        &self,
        key: Seq<char>,
        attach: Option<&InfoMap>,
        processes: Option<&Vec<ProcessSnapshot>>,
    ) -> Option<Option<DataValue>> {
        if key == "os_name"@ {
            text_answer(self.os_name)
        } else if key == "os_version"@ {
            text_answer(self.os_version)
        } else if key == "os_kernel_version"@ {
            text_answer(self.kernel_version)
        } else if key == "os_host_name"@ {
            text_answer(self.host_name)
        } else if key == "os_package_manager"@ {
            pm_answer(self.package_manager)
        } else if key == "os_activated"@ {
            bool_answer(self.is_activated)
        } else if key == "os_process"@ {
            os_process_answer(params_view(attach), processes)
        } else {
            None
        }
    }

    fn query(&self, key: &str, attach: Option<&InfoMap>, processes: Option<&Vec<ProcessSnapshot>>) -> (r: QueryResult) {
        if str_eq(key, "os_name") {
            return found_text(&self.os_name);
        }
        if str_eq(key, "os_version") {
            return found_text(&self.os_version);
        }
        if str_eq(key, "os_kernel_version") {
            return found_text(&self.kernel_version);
        }
        if str_eq(key, "os_host_name") {
            return found_text(&self.host_name);
        }
        if str_eq(key, "os_package_manager") {
            return found_pm(&self.package_manager);
        }
        if str_eq(key, "os_activated") {
            return found_bool(&self.is_activated);
        }
        if str_eq(key, "os_process") {
            return os_process_query(attach, processes);
        }
        QueryResult::NotFound
    }
}

/// The battery.
#[derive(Debug, Clone, PartialEq)]
pub struct Battery {
    /// The capacity the battery was designed with.
    pub designed_capacity: Option<Float64>,
    /// The capacity the battery actually has.
    pub actually_capacity: Option<Float64>,
    /// The capacity that remains.
    pub remain_capacity: Option<Float64>,
    /// The voltage the battery supplies.
    pub voltage: Option<Float64>,
    /// The current the battery supplies.
    pub current: Option<Float64>,
    /// The charge or discharge power.
    pub rate: Option<Float64>,
    /// Whether it is charging.
    pub is_charging: Option<bool>,
}

impl Battery {
    /// Nothing is known of this part.
    pub open spec fn is_blank(&self) -> bool {
        &&& self.designed_capacity is None
        &&& self.actually_capacity is None
        &&& self.remain_capacity is None
        &&& self.voltage is None
        &&& self.current is None
        &&& self.rate is None
        &&& self.is_charging is None
    }
}

impl Default for Battery {
    /// Nothing known yet.
    fn default() -> (r: Self)
        ensures
            r.is_blank(),
    {
        Battery {
            designed_capacity: None,
            actually_capacity: None,
            remain_capacity: None,
            voltage: None,
            current: None,
            rate: None,
            is_charging: None,
        }
    }
}

impl QueryField for Battery {
    open spec fn spec_query(
        &self,
        key: Seq<char>,
        attach: Option<&InfoMap>,
        processes: Option<&Vec<ProcessSnapshot>>,
    ) -> Option<Option<DataValue>> {
        if key == "bat_capacity_designed"@ {
            float_answer(self.designed_capacity)
        } else if key == "bat_capacity_max"@ {
            float_answer(self.actually_capacity)
        } else if key == "bat_capacity_remain"@ {
            float_answer(self.remain_capacity)
        } else if key == "bat_voltage"@ {
            float_answer(self.voltage)
        } else if key == "bat_current"@ {
            float_answer(self.current)
        } else if key == "bat_rate"@ {
            float_answer(self.rate)
        } else if key == "bat_state"@ {
            bool_answer(self.is_charging)
        } else {
            None
        }
    }

    fn query(&self, key: &str, attach: Option<&InfoMap>, processes: Option<&Vec<ProcessSnapshot>>) -> (r: QueryResult) {
        if str_eq(key, "bat_capacity_designed") {
            return found_float(&self.designed_capacity);
        }
        if str_eq(key, "bat_capacity_max") {
            return found_float(&self.actually_capacity);
        }
        if str_eq(key, "bat_capacity_remain") {
            return found_float(&self.remain_capacity);
        }
        if str_eq(key, "bat_voltage") {
            return found_float(&self.voltage);
        }
        if str_eq(key, "bat_current") {
            return found_float(&self.current);
        }
        if str_eq(key, "bat_rate") {
            return found_float(&self.rate);
        }
        if str_eq(key, "bat_state") {
            return found_bool(&self.is_charging);
        }
        QueryResult::NotFound
    }
}

/// The processor.
#[derive(Debug, Clone, PartialEq)]
pub struct CPU {
    pub name: Option<String>,
    pub usage: Option<Float64>,
    pub package_temperature: Option<Float64>,
    pub average_temperature: Option<Float64>,
    pub power: Option<Float64>,
    pub clock_begin_index: Option<i32>,
    pub clock_end_index: Option<i32>,
    pub clock: Option<Float64>,
    pub load: Option<Float64>,
    pub voltage: Option<Float64>,
}

impl CPU {
    /// Nothing is known of this part.
    pub open spec fn is_blank(&self) -> bool {
        &&& self.name is None
        &&& self.usage is None
        &&& self.package_temperature is None
        &&& self.average_temperature is None
        &&& self.power is None
        &&& self.clock_begin_index is None
        &&& self.clock_end_index is None
        &&& self.clock is None
        &&& self.load is None
        &&& self.voltage is None
    }
}

impl Default for CPU {
    /// Nothing known yet.
    fn default() -> (r: Self)
        ensures
            r.is_blank(),
    {
        CPU {
            name: None,
            usage: None,
            package_temperature: None,
            average_temperature: None,
            power: None,
            clock_begin_index: None,
            clock_end_index: None,
            clock: None,
            load: None,
            voltage: None,
        }
    }
}

impl QueryField for CPU {
    open spec fn spec_query(
        &self,
        key: Seq<char>,
        attach: Option<&InfoMap>,
        processes: Option<&Vec<ProcessSnapshot>>,
    ) -> Option<Option<DataValue>> {
        if key == "cpu_name"@ {
            text_answer(self.name)
        } else if key == "cpu_usage"@ {
            float_answer(self.usage)
        } else if key == "cpu_temperature"@ {
            float_answer(self.package_temperature)
        } else if key == "cpu_temperature_avg"@ {
            float_answer(self.average_temperature)
        } else if key == "cpu_power"@ {
            float_answer(self.power)
        } else if key == "cpu_clock_begin_index"@ {
            int_answer(self.clock_begin_index)
        } else if key == "cpu_clock_end_index"@ {
            int_answer(self.clock_end_index)
        } else if key == "cpu_clock_avg"@ {
            float_answer(self.clock)
        } else if key == "cpu_load"@ {
            float_answer(self.load)
        } else if key == "cpu_voltage"@ {
            float_answer(self.voltage)
        } else {
            None
        }
    }

    fn query(&self, key: &str, attach: Option<&InfoMap>, processes: Option<&Vec<ProcessSnapshot>>) -> (r: QueryResult) {
        if str_eq(key, "cpu_name") {
            return found_text(&self.name);
        }
        if str_eq(key, "cpu_usage") {
            return found_float(&self.usage);
        }
        if str_eq(key, "cpu_temperature") {
            return found_float(&self.package_temperature);
        }
        if str_eq(key, "cpu_temperature_avg") {
            return found_float(&self.average_temperature);
        }
        if str_eq(key, "cpu_power") {
            return found_float(&self.power);
        }
        if str_eq(key, "cpu_clock_begin_index") {
            return found_int(&self.clock_begin_index);
        }
        if str_eq(key, "cpu_clock_end_index") {
            return found_int(&self.clock_end_index);
        }
        if str_eq(key, "cpu_clock_avg") {
            return found_float(&self.clock);
        }
        if str_eq(key, "cpu_load") {
            return found_float(&self.load);
        }
        if str_eq(key, "cpu_voltage") {
            return found_float(&self.voltage);
        }
        QueryResult::NotFound
    }
}

/// The graphics processor.
#[derive(Debug, Clone, PartialEq)]
pub struct GPU {
    pub name: Option<String>,
    pub power_usage: Option<Float64>,
    pub temperature: Option<Float64>,
    pub clock: Option<i32>,
    pub max_temperature: Option<Float64>,
    pub power: Option<Float64>,
    pub speed: Option<Float64>,
    pub mem_clock: Option<i32>,
    pub mem_total: Option<Float64>,
    pub mem_free: Option<Float64>,
    pub mem_used: Option<Float64>,
    pub mem_usage: Option<Float64>,
}

impl GPU {
    /// Nothing is known of this part.
    pub open spec fn is_blank(&self) -> bool {
        &&& self.name is None
        &&& self.power_usage is None
        &&& self.temperature is None
        &&& self.clock is None
        &&& self.max_temperature is None
        &&& self.power is None
        &&& self.speed is None
        &&& self.mem_clock is None
        &&& self.mem_total is None
        &&& self.mem_free is None
        &&& self.mem_used is None
        &&& self.mem_usage is None
    }
}

impl Default for GPU {
    /// Nothing known yet.
    fn default() -> (r: Self)
        ensures
            r.is_blank(),
    {
        GPU {
            name: None,
            power_usage: None,
            temperature: None,
            clock: None,
            max_temperature: None,
            power: None,
            speed: None,
            mem_clock: None,
            mem_total: None,
            mem_free: None,
            mem_used: None,
            mem_usage: None,
        }
    }
}

impl QueryField for GPU {
    open spec fn spec_query(
        &self,
        key: Seq<char>,
        attach: Option<&InfoMap>,
        processes: Option<&Vec<ProcessSnapshot>>,
    ) -> Option<Option<DataValue>> {
        if key == "gpu_name"@ {
            text_answer(self.name)
        } else if key == "gpu_power_usage"@ {
            float_answer(self.power_usage)
        } else if key == "gpu_temperature"@ {
            float_answer(self.temperature)
        } else if key == "gpu_clock"@ {
            int_answer(self.clock)
        } else if key == "gpu_max_temperature"@ {
            float_answer(self.max_temperature)
        } else if key == "gpu_power"@ {
            float_answer(self.power)
        } else if key == "gpu_clock_rms"@ {
            float_answer(self.speed)
        } else if key == "gpu_mem_clock_rms"@ {
            int_answer(self.mem_clock)
        } else if key == "gpu_mem_total"@ {
            float_answer(self.mem_total)
        } else if key == "gpu_mem_free"@ {
            float_answer(self.mem_free)
        } else if key == "gpu_mem_used"@ {
            float_answer(self.mem_used)
        } else if key == "gpu_mem_usage"@ {
            float_answer(self.mem_usage)
        } else {
            None
        }
    }

    fn query(&self, key: &str, attach: Option<&InfoMap>, processes: Option<&Vec<ProcessSnapshot>>) -> (r: QueryResult) {
        if str_eq(key, "gpu_name") {
            return found_text(&self.name);
        }
        if str_eq(key, "gpu_power_usage") {
            return found_float(&self.power_usage);
        }
        if str_eq(key, "gpu_temperature") {
            return found_float(&self.temperature);
        }
        if str_eq(key, "gpu_clock") {
            return found_int(&self.clock);
        }
        if str_eq(key, "gpu_max_temperature") {
            return found_float(&self.max_temperature);
        }
        if str_eq(key, "gpu_power") {
            return found_float(&self.power);
        }
        if str_eq(key, "gpu_clock_rms") {
            return found_float(&self.speed);
        }
        if str_eq(key, "gpu_mem_clock_rms") {
            return found_int(&self.mem_clock);
        }
        if str_eq(key, "gpu_mem_total") {
            return found_float(&self.mem_total);
        }
        if str_eq(key, "gpu_mem_free") {
            return found_float(&self.mem_free);
        }
        if str_eq(key, "gpu_mem_used") {
            return found_float(&self.mem_used);
        }
        if str_eq(key, "gpu_mem_usage") {
            return found_float(&self.mem_usage);
        }
        QueryResult::NotFound
    }
}

/// The memory.
#[derive(Debug, Clone, PartialEq)]
pub struct RAM {
    pub used_size: Option<Float64>,
    pub free_size: Option<Float64>,
    pub total_size: Option<Float64>,
    pub total_swap: Option<Float64>,
    pub used_swap: Option<Float64>,
    pub free_swap: Option<Float64>,
}

impl RAM {
    /// Nothing is known of this part.
    pub open spec fn is_blank(&self) -> bool {
        &&& self.used_size is None
        &&& self.free_size is None
        &&& self.total_size is None
        &&& self.total_swap is None
        &&& self.used_swap is None
        &&& self.free_swap is None
    }
}

impl Default for RAM {
    /// Nothing known yet.
    fn default() -> (r: Self)
        ensures
            r.is_blank(),
    {
        RAM {
            used_size: None,
            free_size: None,
            total_size: None,
            total_swap: None,
            used_swap: None,
            free_swap: None,
        }
    }
}

impl QueryField for RAM {
    open spec fn spec_query(
        &self,
        key: Seq<char>,
        attach: Option<&InfoMap>,
        processes: Option<&Vec<ProcessSnapshot>>,
    ) -> Option<Option<DataValue>> {
        if key == "mem_used"@ {
            float_answer(self.used_size)
        } else if key == "mem_available"@ {
            float_answer(self.free_size)
        } else if key == "mem_total"@ {
            float_answer(self.total_size)
        } else if key == "mem_swap_total"@ {
            float_answer(self.total_swap)
        } else if key == "mem_swap_used"@ {
            float_answer(self.used_swap)
        } else if key == "mem_swap_free"@ {
            float_answer(self.free_swap)
        } else {
            None
        }
    }

    fn query(&self, key: &str, attach: Option<&InfoMap>, processes: Option<&Vec<ProcessSnapshot>>) -> (r: QueryResult) {
        if str_eq(key, "mem_used") {
            return found_float(&self.used_size);
        }
        if str_eq(key, "mem_available") {
            return found_float(&self.free_size);
        }
        if str_eq(key, "mem_total") {
            return found_float(&self.total_size);
        }
        if str_eq(key, "mem_swap_total") {
            return found_float(&self.total_swap);
        }
        if str_eq(key, "mem_swap_used") {
            return found_float(&self.used_swap);
        }
        if str_eq(key, "mem_swap_free") {
            return found_float(&self.free_swap);
        }
        QueryResult::NotFound
    }
}

/// The fans, by their speed in RPM.
#[derive(Debug, Clone, PartialEq)]
pub struct Fans {
    pub cpu_speed: Option<i32>,
    pub gpu_speed: Option<i32>,
    pub mid_speed: Option<i32>,
}

impl Fans {
    /// Nothing is known of this part.
    pub open spec fn is_blank(&self) -> bool {
        &&& self.cpu_speed is None
        &&& self.gpu_speed is None
        &&& self.mid_speed is None
    }
}

impl Default for Fans {
    /// Nothing known yet.
    fn default() -> (r: Self)
        ensures
            r.is_blank(),
    {
        Fans {
            cpu_speed: None,
            gpu_speed: None,
            mid_speed: None,
        }
    }
}

impl QueryField for Fans {
    open spec fn spec_query(
        &self,
        key: Seq<char>,
        attach: Option<&InfoMap>,
        processes: Option<&Vec<ProcessSnapshot>>,
    ) -> Option<Option<DataValue>> {
        if key == "fan_rpm_cpu"@ {
            int_answer(self.cpu_speed)
        } else if key == "fan_rpm_gpu"@ {
            int_answer(self.gpu_speed)
        } else if key == "fan_rpm_mid"@ {
            int_answer(self.mid_speed)
        } else {
            None
        }
    }

    fn query(&self, key: &str, attach: Option<&InfoMap>, processes: Option<&Vec<ProcessSnapshot>>) -> (r: QueryResult) {
        if str_eq(key, "fan_rpm_cpu") {
            return found_int(&self.cpu_speed);
        }
        if str_eq(key, "fan_rpm_gpu") {
            return found_int(&self.gpu_speed);
        }
        if str_eq(key, "fan_rpm_mid") {
            return found_int(&self.mid_speed);
        }
        QueryResult::NotFound
    }
}

/// The motherboard.
#[derive(Debug, Clone, PartialEq)]
pub struct Motherboard {
    pub name: Option<String>,
}

impl Motherboard {
    /// Nothing is known of this part.
    pub open spec fn is_blank(&self) -> bool {
        &&& self.name is None
    }
}

impl Default for Motherboard {
    /// Nothing known yet.
    fn default() -> (r: Self)
        ensures
            r.is_blank(),
    {
        Motherboard {
            name: None,
        }
    }
}

impl QueryField for Motherboard {
    open spec fn spec_query(
        &self,
        key: Seq<char>,
        attach: Option<&InfoMap>,
        processes: Option<&Vec<ProcessSnapshot>>,
    ) -> Option<Option<DataValue>> {
        if key == "motherboard_name"@ {
            text_answer(self.name)
        } else {
            None
        }
    }

    fn query(&self, key: &str, attach: Option<&InfoMap>, processes: Option<&Vec<ProcessSnapshot>>) -> (r: QueryResult) {
        if str_eq(key, "motherboard_name") {
            return found_text(&self.name);
        }
        QueryResult::NotFound
    }
}

/// The disks.
#[derive(Debug, Clone, PartialEq)]
pub struct Disk {
    pub disk_list: Option<Vec<String>>,
}

impl Disk {
    /// Nothing is known of this part.
    pub open spec fn is_blank(&self) -> bool {
        &&& self.disk_list is None
    }
}

impl Default for Disk {
    /// Nothing known yet.
    fn default() -> (r: Self)
        ensures
            r.is_blank(),
    {
        Disk {
            disk_list: None,
        }
    }
}

impl QueryField for Disk {
    open spec fn spec_query(
        &self,
        key: Seq<char>,
        attach: Option<&InfoMap>,
        processes: Option<&Vec<ProcessSnapshot>>,
    ) -> Option<Option<DataValue>> {
        if key == "disk_disk"@ {
            texts_answer(self.disk_list)
        } else {
            None
        }
    }

    fn query(&self, key: &str, attach: Option<&InfoMap>, processes: Option<&Vec<ProcessSnapshot>>) -> (r: QueryResult) {
        if str_eq(key, "disk_disk") {
            return found_texts(&self.disk_list);
        }
        QueryResult::NotFound
    }
}

/// The network.
#[derive(Debug, Clone, PartialEq)]
pub struct Network;

impl Default for Network {
    /// Nothing known yet.
    fn default() -> (r: Self)
        ensures
            r == Network,
    {
        Network
    }
}

impl QueryField for Network {
    open spec fn spec_query(
        &self,
        key: Seq<char>,
        attach: Option<&InfoMap>,
        processes: Option<&Vec<ProcessSnapshot>>,
    ) -> Option<Option<DataValue>> {
        None
    }

    fn query(&self, key: &str, attach: Option<&InfoMap>, processes: Option<&Vec<ProcessSnapshot>>) -> (r: QueryResult) {
        QueryResult::NotFound
    }
}


/// Everything the engine knows of the machine.
#[derive(Debug, Clone, PartialEq)]
pub struct Model {
    pub system: System,
    pub battery: Battery,
    pub cpu: CPU,
    pub gpu: GPU,
    pub ram: RAM,
    pub fans: Fans,
    pub motherboard: Motherboard,
    pub disk: Disk,
    pub network: Network,
}

impl Model {
    /// Nothing is known of the machine.
    pub open spec fn is_blank(&self) -> bool {
        &&& self.system.is_blank()
        &&& self.battery.is_blank()
        &&& self.cpu.is_blank()
        &&& self.gpu.is_blank()
        &&& self.ram.is_blank()
        &&& self.fans.is_blank()
        &&& self.motherboard.is_blank()
        &&& self.disk.is_blank()
    }
}

impl Default for Model {
    /// Nothing known yet.
    fn default() -> (r: Self)
        ensures
            r.is_blank(),
    {
        Model {
            system: System::default(),
            battery: Battery::default(),
            cpu: CPU::default(),
            gpu: GPU::default(),
            ram: RAM::default(),
            fans: Fans::default(),
            motherboard: Motherboard::default(),
            disk: Disk::default(),
            network: Network::default(),
        }
    }
}

impl QueryField for Model {
    /// Each part is asked in turn, without the query's parameters; the first
    /// part that knows the key answers.
    open spec fn spec_query(
        &self,
        key: Seq<char>,
        attach: Option<&InfoMap>,
        processes: Option<&Vec<ProcessSnapshot>>,
    ) -> Option<Option<DataValue>> {
        let a = self.system.spec_query(key, None, processes);
        if a is Some { a } else {
        let a = self.battery.spec_query(key, None, processes);
        if a is Some { a } else {
        let a = self.cpu.spec_query(key, None, processes);
        if a is Some { a } else {
        let a = self.gpu.spec_query(key, None, processes);
        if a is Some { a } else {
        let a = self.ram.spec_query(key, None, processes);
        if a is Some { a } else {
        let a = self.fans.spec_query(key, None, processes);
        if a is Some { a } else {
        let a = self.motherboard.spec_query(key, None, processes);
        if a is Some { a } else {
        let a = self.disk.spec_query(key, None, processes);
        if a is Some { a } else {
        self.network.spec_query(key, None, processes)
        }}}}}}}}
    }

    fn query(&self, key: &str, attach: Option<&InfoMap>, processes: Option<&Vec<ProcessSnapshot>>) -> (r: QueryResult) {
        let r = self.system.query(key, None, processes);
        if !r.is_not_found() {
            return r;
        }
        let r = self.battery.query(key, None, processes);
        if !r.is_not_found() {
            return r;
        }
        let r = self.cpu.query(key, None, processes);
        if !r.is_not_found() {
            return r;
        }
        let r = self.gpu.query(key, None, processes);
        if !r.is_not_found() {
            return r;
        }
        let r = self.ram.query(key, None, processes);
        if !r.is_not_found() {
            return r;
        }
        let r = self.fans.query(key, None, processes);
        if !r.is_not_found() {
            return r;
        }
        let r = self.motherboard.query(key, None, processes);
        if !r.is_not_found() {
            return r;
        }
        let r = self.disk.query(key, None, processes);
        if !r.is_not_found() {
            return r;
        }
        self.network.query(key, None, processes)
    }
}

impl QueryField for VirtualDevice {
    open spec fn spec_query(
        &self,
        key: Seq<char>,
        attach: Option<&InfoMap>,
        processes: Option<&Vec<ProcessSnapshot>>,
    ) -> Option<Option<DataValue>> {
        None
    }

    fn query(&self, key: &str, attach: Option<&InfoMap>, processes: Option<&Vec<ProcessSnapshot>>) -> (r: QueryResult) {
        QueryResult::NotFound
    }
}


/// The names a query may sort processes by, each ordering by the field of
/// that name (`cpu` and `cpu_usage` both by CPU usage), largest first when
/// `descending` is true; a `limit` that is a count keeps at most that many.
pub proof fn law_sort_names_pick_their_field(params: Seq<(Seq<char>, DataValue)>)
    ensures
        text_of(lookup(params, "sort_by"@)) == Some("pid"@) ==> strategy_for(Some(params)).sort_by == ProcessSortKey::Pid
            && strategy_for(Some(params)).descending == (bool_of(lookup(params, "descending"@)) == Some(true)),
        text_of(lookup(params, "sort_by"@)) == Some("name"@) ==> strategy_for(Some(params)).sort_by == ProcessSortKey::Name
            && strategy_for(Some(params)).descending == (bool_of(lookup(params, "descending"@)) == Some(true)),
        text_of(lookup(params, "sort_by"@)) == Some("memory"@) ==> strategy_for(Some(params)).sort_by == ProcessSortKey::Memory
            && strategy_for(Some(params)).descending == (bool_of(lookup(params, "descending"@)) == Some(true)),
        text_of(lookup(params, "sort_by"@)) == Some("virtual_memory"@) ==> strategy_for(Some(params)).sort_by == ProcessSortKey::VirtualMemory
            && strategy_for(Some(params)).descending == (bool_of(lookup(params, "descending"@)) == Some(true)),
        text_of(lookup(params, "sort_by"@)) == Some("cpu"@) ==> strategy_for(Some(params)).sort_by == ProcessSortKey::CpuUsage
            && strategy_for(Some(params)).descending == (bool_of(lookup(params, "descending"@)) == Some(true)),
        text_of(lookup(params, "sort_by"@)) == Some("cpu_usage"@) ==> strategy_for(Some(params)).sort_by == ProcessSortKey::CpuUsage
            && strategy_for(Some(params)).descending == (bool_of(lookup(params, "descending"@)) == Some(true)),
        forall|n: i32| lookup(params, "limit"@) == Some(DataValue::Int(n)) && n >= 0
            ==> #[trigger] strategy_for(Some(params)).limit == Some(n as usize),
{
    reveal_strlit("pid");
    reveal_strlit("name");
    reveal_strlit("pid");
    assert("name"@.len() != "pid"@.len());
    reveal_strlit("memory");
    reveal_strlit("pid");
    assert("memory"@.len() != "pid"@.len());
    reveal_strlit("name");
    assert("memory"@.len() != "name"@.len());
    reveal_strlit("virtual_memory");
    reveal_strlit("pid");
    assert("virtual_memory"@.len() != "pid"@.len());
    reveal_strlit("name");
    assert("virtual_memory"@.len() != "name"@.len());
    reveal_strlit("memory");
    assert("virtual_memory"@.len() != "memory"@.len());
    reveal_strlit("cpu");
    reveal_strlit("pid");
    assert("cpu"@[0] != "pid"@[0]);
    reveal_strlit("name");
    assert("cpu"@.len() != "name"@.len());
    reveal_strlit("memory");
    assert("cpu"@.len() != "memory"@.len());
    reveal_strlit("virtual_memory");
    assert("cpu"@.len() != "virtual_memory"@.len());
    reveal_strlit("cpu_usage");
    reveal_strlit("pid");
    assert("cpu_usage"@.len() != "pid"@.len());
    reveal_strlit("name");
    assert("cpu_usage"@.len() != "name"@.len());
    reveal_strlit("memory");
    assert("cpu_usage"@.len() != "memory"@.len());
    reveal_strlit("virtual_memory");
    assert("cpu_usage"@.len() != "virtual_memory"@.len());
    reveal_strlit("cpu");
    assert("cpu_usage"@.len() != "cpu"@.len());
}

/// What each sort key compares: the process id, the name (character by
/// character), resident memory, virtual memory, or CPU usage in the total
/// order of floats.
pub proof fn law_sort_keys_compare_their_field(a: ProcessSnapshot, b: ProcessSnapshot)
    ensures
        key_order(a, b, ProcessSortKey::Pid) < 0 <==> a.pid < b.pid,
        key_order(a, b, ProcessSortKey::Pid) == 0 <==> a.pid == b.pid,
        key_order(a, b, ProcessSortKey::Name) == lex_order(a.name@, b.name@),
        key_order(a, b, ProcessSortKey::Memory) < 0 <==> a.memory < b.memory,
        key_order(a, b, ProcessSortKey::Memory) == 0 <==> a.memory == b.memory,
        key_order(a, b, ProcessSortKey::VirtualMemory) < 0 <==> a.virtual_memory < b.virtual_memory,
        key_order(a, b, ProcessSortKey::VirtualMemory) == 0 <==> a.virtual_memory == b.virtual_memory,
        key_order(a, b, ProcessSortKey::CpuUsage) < 0 <==> float_total_key(a.cpu_usage.bits) < float_total_key(b.cpu_usage.bits),
        key_order(a, b, ProcessSortKey::CpuUsage) == 0 <==> float_total_key(a.cpu_usage.bits) == float_total_key(b.cpu_usage.bits),
{
}

} // verus!
