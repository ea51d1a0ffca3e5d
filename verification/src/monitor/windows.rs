//! The decisions of the Windows sensor reader: which sensor of
//! LibreHardwareMonitor answers which query key, and what a reading of the
//! activation tool says.

use vstd::prelude::*;
use crate::monitor::{query_statements, spec_query_statements};
use crate::util::data_container::{lemma_lookup_skip, lemma_lookup_update, lookup};
use crate::util::pattern::{Pattern, compile, is_match, pattern_compiles, pattern_matches};
use crate::util::text::{str_contains, str_eq};

verus! {

/// One sensor as LibreHardwareMonitor lists it.
#[derive(Debug, Clone)]
pub struct Sensor {
    pub id: String,
    pub name: String,
    pub index: i32,
    pub kind: String,
    pub info: String,
}

/// The name, type and index of each sensor.
pub open spec fn sensors_view(v: Seq<Sensor>) -> Seq<(Seq<char>, Seq<char>, i32)> {
    Seq::new(v.len(), |i: int| (v[i].name@, v[i].info@, v[i].index))
}

/// The pattern of the numbered processor cores.
pub open spec fn core_pattern() -> Seq<char> {
    "^CPU Core #\\d{1,2}$"@
}

/// The pattern of the numbered cores' distance to TjMax.
pub open spec fn tjmax_pattern() -> Seq<char> {
    "^CPU Core #\\d{1,2} Distance to TjMax"@
}

/// The pattern of the numbered cores' clocks.
pub open spec fn clock_pattern() -> Seq<char> {
    "^Core #\\d{1,2}$"@
}

/// The pattern of the numbered disk temperatures.
pub open spec fn disk_pattern() -> Seq<char> {
    "^Temperature \\d{1,2}$"@
}

/// The patterns that pick the last of a row of numbered sensors.
pub struct SensorPatterns {
    core: Pattern,
    tjmax: Pattern,
    clock: Pattern,
    disk: Pattern,
}

impl SensorPatterns {
    #[verifier::type_invariant]
    spec fn compiled_from_rules(&self) -> bool {
        &&& self.core@ == core_pattern()
        &&& self.tjmax@ == tjmax_pattern()
        &&& self.clock@ == clock_pattern()
        &&& self.disk@ == disk_pattern()
    }
}

/// Compiles the patterns of the rules; `None` if the regular expression
/// crate refuses one of them.
pub fn sensor_patterns() -> (r: Option<SensorPatterns>)
    ensures
        r is Some <==> (pattern_compiles(core_pattern()) && pattern_compiles(tjmax_pattern())
            && pattern_compiles(clock_pattern()) && pattern_compiles(disk_pattern())),
{
    let core = compile("^CPU Core #\\d{1,2}$");
    let tjmax = compile("^CPU Core #\\d{1,2} Distance to TjMax");
    let clock = compile("^Core #\\d{1,2}$");
    let disk = compile("^Temperature \\d{1,2}$");
    match (core, tjmax, clock, disk) {
        (Some(core), Some(tjmax), Some(clock), Some(disk)) => Some(SensorPatterns { core, tjmax, clock, disk }),
        _ => None,
    }
}

/// The query key that a sensor answers, by its name and type; the first
/// rule that fits decides.
pub open spec fn sensor_target(name: Seq<char>, info: Seq<char>) -> Option<Seq<char>> {
    if name == "CPU Package"@ && info == "Temperature"@ {
        Some("cpu_temperature"@)
    } else if name == "Core (Tctl/Tdie)"@ && info == "Temperature"@ {
        Some("cpu_temperature"@)
    } else if name == "CPU Core #1"@ && info == "Temperature"@ {
        Some("cpu_temperature_first"@)
    } else if pattern_matches("^CPU Core #\\d{1,2}$"@, name) && info == "Temperature"@ {
        Some("cpu_temperature_last"@)
    } else if name == "CPU Core #1 Distance to TjMax"@ && info == "Temperature"@ {
        Some("cpu_tjmax_first"@)
    } else if pattern_matches("^CPU Core #\\d{1,2} Distance to TjMax"@, name) && info == "Temperature"@ {
        Some("cpu_tjmax_last"@)
    } else if name == "CPU Package"@ && info == "Power"@ {
        Some("cpu_power"@)
    } else if name == "Package"@ && info == "Power"@ {
        Some("cpu_power"@)
    } else if name == "CPU Core #1"@ && info == "Voltage"@ {
        Some("cpu_voltage_first"@)
    } else if pattern_matches("^CPU Core #\\d{1,2}$"@, name) && info == "Voltage"@ {
        Some("cpu_voltage_last"@)
    } else if name == "CPU Core"@ && info == "Voltage"@ {
        Some("cpu_voltage"@)
    } else if name == "Core (SVI2 TFN)"@ && info == "Voltage"@ {
        Some("cpu_voltage"@)
    } else if name == "CPU Core #1"@ && info == "Clock"@ {
        Some("cpu_clock_first"@)
    } else if name == "Core #1"@ && info == "Clock"@ {
        Some("cpu_clock_first"@)
    } else if pattern_matches("^Core #\\d{1,2}$"@, name) && info == "Clock"@ {
        Some("cpu_clock_last"@)
    } else if name == "CPU Total"@ && info == "Load"@ {
        Some("cpu_usage"@)
    } else if name == "CPU Core #1"@ && info == "Load"@ {
        Some("cpu_usage_first"@)
    } else if pattern_matches("^CPU Core #\\d{1,2}$"@, name) && info == "Load"@ {
        Some("cpu_usage_last"@)
    } else if name == "GPU Core"@ && info == "Temperature"@ {
        Some("gpu_temperature"@)
    } else if name == "GPU VR SoC"@ && info == "Temperature"@ {
        Some("gpu_temperature"@)
    } else if name == "GPU Package"@ && info == "Power"@ {
        Some("gpu_power"@)
    } else if name == "GPU Core"@ && info == "Power"@ {
        Some("gpu_power"@)
    } else if name == "GPU Core"@ && info == "Clock"@ {
        Some("gpu_clock_rms"@)
    } else if name == "GPU Memory"@ && info == "Clock"@ {
        Some("gpu_mem_clock_rms"@)
    } else if name == "GPU Core"@ && info == "Load"@ {
        Some("gpu_usage"@)
    } else if name == "Memory"@ && info == "Load"@ {
        Some("mem_percentage"@)
    } else if name == "Memory Available"@ && info == "Data"@ {
        Some("mem_available"@)
    } else if name == "Memory Used"@ && info == "Data"@ {
        Some("mem_used"@)
    } else if name == "Fully-Charged Capacity"@ && info == "Energy"@ {
        Some("bat_capacity_max"@)
    } else if name == "Remaining Capacity"@ && info == "Energy"@ {
        Some("bat_capacity_remain"@)
    } else if name == "Designed Capacity"@ && info == "Energy"@ {
        Some("bat_capacity_designed"@)
    } else if name == "Voltage"@ && info == "Voltage"@ {
        Some("bat_voltage"@)
    } else if name == "Charge Rate"@ && info == "Power"@ {
        Some("bat_rate"@)
    } else if name == "Discharge Rate"@ && info == "Power"@ {
        Some("bat_rate"@)
    } else if name == "Charge/Discharge Rate"@ && info == "Power"@ {
        Some("bat_rate"@)
    } else if name == "Temperature 1"@ && info == "Temperature"@ {
        Some("disk_temperature_first"@)
    } else if pattern_matches("^Temperature \\d{1,2}$"@, name) && info == "Temperature"@ {
        Some("disk_temperature_last"@)
    } else {
        None
    }
}

/// The query key that `sensor` answers, if any.
pub fn sensor_target_key(sensor: &Sensor, patterns: &SensorPatterns) -> (r: Option<&'static str>)
    ensures
        match r {
            Some(k) => sensor_target(sensor.name@, sensor.info@) == Some(k@),
            None => sensor_target(sensor.name@, sensor.info@) is None,
        },
{
    proof {
        use_type_invariant(patterns);
    }
    let name = sensor.name.as_str();
    let info = sensor.info.as_str();
    let matches_core = is_match(&patterns.core, name);
    let matches_tjmax = is_match(&patterns.tjmax, name);
    let matches_clock = is_match(&patterns.clock, name);
    let matches_disk = is_match(&patterns.disk, name);
    if str_eq(name, "CPU Package") && str_eq(info, "Temperature") {
        Some("cpu_temperature")
    } else if str_eq(name, "Core (Tctl/Tdie)") && str_eq(info, "Temperature") {
        Some("cpu_temperature")
    } else if str_eq(name, "CPU Core #1") && str_eq(info, "Temperature") {
        Some("cpu_temperature_first")
    } else if matches_core && str_eq(info, "Temperature") {
        Some("cpu_temperature_last")
    } else if str_eq(name, "CPU Core #1 Distance to TjMax") && str_eq(info, "Temperature") {
        Some("cpu_tjmax_first")
    } else if matches_tjmax && str_eq(info, "Temperature") {
        Some("cpu_tjmax_last")
    } else if str_eq(name, "CPU Package") && str_eq(info, "Power") {
        Some("cpu_power")
    } else if str_eq(name, "Package") && str_eq(info, "Power") {
        Some("cpu_power")
    } else if str_eq(name, "CPU Core #1") && str_eq(info, "Voltage") {
        Some("cpu_voltage_first")
    } else if matches_core && str_eq(info, "Voltage") {
        Some("cpu_voltage_last")
    } else if str_eq(name, "CPU Core") && str_eq(info, "Voltage") {
        Some("cpu_voltage")
    } else if str_eq(name, "Core (SVI2 TFN)") && str_eq(info, "Voltage") {
        Some("cpu_voltage")
    } else if str_eq(name, "CPU Core #1") && str_eq(info, "Clock") {
        Some("cpu_clock_first")
    } else if str_eq(name, "Core #1") && str_eq(info, "Clock") {
        Some("cpu_clock_first")
    } else if matches_clock && str_eq(info, "Clock") {
        Some("cpu_clock_last")
    } else if str_eq(name, "CPU Total") && str_eq(info, "Load") {
        Some("cpu_usage")
    } else if str_eq(name, "CPU Core #1") && str_eq(info, "Load") {
        Some("cpu_usage_first")
    } else if matches_core && str_eq(info, "Load") {
        Some("cpu_usage_last")
    } else if str_eq(name, "GPU Core") && str_eq(info, "Temperature") {
        Some("gpu_temperature")
    } else if str_eq(name, "GPU VR SoC") && str_eq(info, "Temperature") {
        Some("gpu_temperature")
    } else if str_eq(name, "GPU Package") && str_eq(info, "Power") {
        Some("gpu_power")
    } else if str_eq(name, "GPU Core") && str_eq(info, "Power") {
        Some("gpu_power")
    } else if str_eq(name, "GPU Core") && str_eq(info, "Clock") {
        Some("gpu_clock_rms")
    } else if str_eq(name, "GPU Memory") && str_eq(info, "Clock") {
        Some("gpu_mem_clock_rms")
    } else if str_eq(name, "GPU Core") && str_eq(info, "Load") {
        Some("gpu_usage")
    } else if str_eq(name, "Memory") && str_eq(info, "Load") {
        Some("mem_percentage")
    } else if str_eq(name, "Memory Available") && str_eq(info, "Data") {
        Some("mem_available")
    } else if str_eq(name, "Memory Used") && str_eq(info, "Data") {
        Some("mem_used")
    } else if str_eq(name, "Fully-Charged Capacity") && str_eq(info, "Energy") {
        Some("bat_capacity_max")
    } else if str_eq(name, "Remaining Capacity") && str_eq(info, "Energy") {
        Some("bat_capacity_remain")
    } else if str_eq(name, "Designed Capacity") && str_eq(info, "Energy") {
        Some("bat_capacity_designed")
    } else if str_eq(name, "Voltage") && str_eq(info, "Voltage") {
        Some("bat_voltage")
    } else if str_eq(name, "Charge Rate") && str_eq(info, "Power") {
        Some("bat_rate")
    } else if str_eq(name, "Discharge Rate") && str_eq(info, "Power") {
        Some("bat_rate")
    } else if str_eq(name, "Charge/Discharge Rate") && str_eq(info, "Power") {
        Some("bat_rate")
    } else if str_eq(name, "Temperature 1") && str_eq(info, "Temperature") {
        Some("disk_temperature_first")
    } else if matches_disk && str_eq(info, "Temperature") {
        Some("disk_temperature_last")
    } else {
        None
    }
}

/// Which sensor index answers each query key; `-1` where no sensor does.
/// A key found more than once is read at its first entry.
pub struct SensorIndexMap {
    pub entries: Vec<(String, i32)>,
}

impl View for SensorIndexMap {
    type V = Seq<(Seq<char>, i32)>;

    open spec fn view(&self) -> Seq<(Seq<char>, i32)> {
        Seq::new(self.entries@.len(), |i: int| (self.entries@[i].0@, self.entries@[i].1))
    }
}

/// The entries of `keys`, each with `-1`.
pub open spec fn unassigned(keys: Seq<Seq<char>>) -> Seq<(Seq<char>, i32)> {
    Seq::new(keys.len(), |i: int| (keys[i], -1i32))
}

proof fn lemma_lookup_unassigned(keys: Seq<Seq<char>>, k: Seq<char>)
    ensures
        lookup(unassigned(keys), k) == if keys.contains(k) { Some(-1i32) } else { None },
    decreases keys.len(),
{
    let u = unassigned(keys);
    if keys.len() > 0 {
        assert(u.drop_first() =~= unassigned(keys.drop_first()));
        lemma_lookup_unassigned(keys.drop_first(), k);
        if keys[0] != k {
            if keys.contains(k) {
                let j = choose|j: int| 0 <= j < keys.len() && keys[j] == k;
                assert(keys.drop_first()[j - 1] == k);
            }
            if keys.drop_first().contains(k) {
                let j = choose|j: int| 0 <= j < keys.drop_first().len() && keys.drop_first()[j] == k;
                assert(keys[j + 1] == k);
            }
        } else {
            assert(keys[0] == k);
        }
    }
}

impl SensorIndexMap {
    /// The index stored under `key`, if any.
    pub open spec fn spec_get(&self, key: Seq<char>) -> Option<i32> {
        lookup(self@, key)
    }

    /// Every query key with `-1`.
    pub fn unassigned() -> (m: Self)
        ensures
            forall|k: Seq<char>| #[trigger] m.spec_get(k)
                == if spec_query_statements().contains(k) { Some(-1i32) } else { None },
    {
        let keys = query_statements();
        let ghost key_views = keys@.map_values(|s: String| s@);
        let mut entries: Vec<(String, i32)> = Vec::new();
        let mut i: usize = 0;
        while i < keys.len()
            invariant
                i <= keys@.len(),
                key_views == keys@.map_values(|s: String| s@),
                entries@.len() == i,
                forall|j: int| 0 <= j < i ==> #[trigger] entries@[j].0@ == key_views[j] && entries@[j].1 == -1,
            decreases keys@.len() - i,
        {
            entries.push((keys[i].clone(), -1));
            i = i + 1;
        }
        let m = SensorIndexMap { entries };
        proof {
            assert(m@ =~= unassigned(spec_query_statements()));
            assert forall|k: Seq<char>| #[trigger] m.spec_get(k)
                == if spec_query_statements().contains(k) { Some(-1i32) } else { None } by {
                lemma_lookup_unassigned(spec_query_statements(), k);
            }
        }
        m
    }

    /// The index stored under `key`.
    pub fn get(&self, key: &str) -> (r: Option<i32>)
        ensures
            r == self.spec_get(key@),
    {
        let mut i: usize = 0;
        while i < self.entries.len()
            invariant
                i <= self.entries@.len(),
                forall|j: int| 0 <= j < i ==> self@[j].0 != key@,
            decreases self.entries@.len() - i,
        {
            if str_eq(self.entries[i].0.as_str(), key) {
                proof {
                    lemma_lookup_skip(self@, i as int, key@);
                }
                return Some(self.entries[i].1);
            }
            i = i + 1;
        }
        proof {
            lemma_lookup_skip(self@, i as int, key@);
        }
        None
    }

    /// Stores `value` under `key`, in place of what was stored there.
    pub fn set(&mut self, key: &str, value: i32)
        ensures
            forall|k: Seq<char>| #[trigger] final(self).spec_get(k)
                == if k == key@ { Some(value) } else { old(self).spec_get(k) },
    {
        let ghost e = (key@, value);
        let mut i: usize = 0;
        while i < self.entries.len()
            invariant
                i <= self.entries@.len(),
                self.entries@ == old(self).entries@,
                e == (key@, value),
                forall|j: int| 0 <= j < i ==> self@[j].0 != key@,
            decreases self.entries@.len() - i,
        {
            if str_eq(self.entries[i].0.as_str(), key) {
                let ghost before = self@;
                let ghost old_entries = self.entries@;
                assert(before[i as int].0 == old_entries[i as int].0@);
                let pair = (String::from_str(key), value);
                self.entries.set(i, pair);
                proof {
                    assert forall|j: int| 0 <= j < self@.len() implies #[trigger] self@[j] == before.update(i as int, e)[j] by {
                        if j != i {
                            assert(self.entries@[j] == old_entries[j]);
                        }
                    }
                    assert(self@ =~= before.update(i as int, e));
                    assert forall|k: Seq<char>| #[trigger] self.spec_get(k)
                        == if k == e.0 { Some(e.1) } else { lookup(before, k) } by {
                        lemma_lookup_update(before, i as int, e, k);
                    }
                }
                return;
            }
            i = i + 1;
        }
        let ghost before = self@;
        self.entries.push((String::from_str(key), value));
        proof {
            assert(self@ =~= before.push(e));
            assert forall|k: Seq<char>| #[trigger] self.spec_get(k)
                == if k == e.0 { Some(e.1) } else { lookup(before, k) } by {
                crate::util::data_container::lemma_lookup_push(before, e, k);
            }
        }
    }
}

/// The index under `key` after reading `sensors` in order, starting from
/// `initial`: the last sensor that answers the key wins.
pub open spec fn sensor_index_after(
    sensors: Seq<(Seq<char>, Seq<char>, i32)>,
    key: Seq<char>,
    initial: Option<i32>,
) -> Option<i32>
    decreases sensors.len(),
{
    if sensors.len() == 0 {
        initial
    } else if sensor_target(sensors.last().0, sensors.last().1) == Some(key) {
        Some(sensors.last().2)
    } else {
        sensor_index_after(sensors.drop_last(), key, initial)
    }
}

/// What the map holds under a key before any sensor is read.
pub open spec fn initial_index(key: Seq<char>) -> Option<i32> {
    if spec_query_statements().contains(key) {
        Some(-1i32)
    } else {
        None
    }
}

/// Maps every query key to the sensor that answers it.
pub fn build_index_map(sensors: &Vec<Sensor>, patterns: &SensorPatterns) -> (m: SensorIndexMap)
    ensures
        forall|k: Seq<char>| #[trigger] m.spec_get(k)
            == sensor_index_after(sensors_view(sensors@), k, initial_index(k)),
{
    let ghost sv = sensors_view(sensors@);
    let mut map = SensorIndexMap::unassigned();
    let mut i: usize = 0;
    proof {
        assert(sv.take(0) =~= Seq::<(Seq<char>, Seq<char>, i32)>::empty());
    }
    while i < sensors.len()
        invariant
            sv == sensors_view(sensors@),
            i <= sensors@.len(),
            forall|k: Seq<char>| #[trigger] map.spec_get(k)
                == sensor_index_after(sv.take(i as int), k, initial_index(k)),
        decreases sensors@.len() - i,
    {
        let sensor = &sensors[i];
        let ghost before = map;
        proof {
            assert(sv.take(i + 1).drop_last() =~= sv.take(i as int));
            assert(sv.take(i + 1).last() == sv[i as int]);
        }
        match sensor_target_key(sensor, patterns) {
            Some(key) => {
                map.set(key, sensor.index);
            },
            None => {},
        }
        i = i + 1;
    }
    proof {
        assert(sv.take(i as int) =~= sv);
    }
    map
}

/// Which sensor to read for `key`: the one the map holds, unless none does.
pub fn sensor_to_read(map: &SensorIndexMap, key: &str) -> (r: Option<i32>)
    ensures
        r == match map.spec_get(key@) {
            Some(i) => if i != -1 { Some(i) } else { None },
            None => None,
        },
{
    match map.get(key) {
        Some(index) => if index != -1 { Some(index) } else { None },
        None => None,
    }
}

/// What the first reading of the activation tool says: activated when it
/// reports a permanent activation, otherwise read again.
pub fn activation_from_first_read(output: &str) -> (r: Option<bool>)
    ensures
        r == if crate::util::text::occurs_in(output@, "permanently activated"@) { Some(true) } else { None },
{
    if str_contains(output, "permanently activated") {
        Some(true)
    } else {
        None
    }
}

/// What the second reading of the activation tool says: activated when it
/// reports, in Chinese, a permanent activation.
pub fn activation_from_second_read(output: &str) -> (r: bool)
    ensures
        r == crate::util::text::occurs_in(output@, "计算机已永久激活"@),
{
    str_contains(output, "计算机已永久激活")
}


/// Every query key has an entry in the index map once it is built: the
/// sensor that answers it, or `-1`.
pub proof fn law_every_query_key_indexed(sensors: Seq<(Seq<char>, Seq<char>, i32)>, key: Seq<char>)
    requires
        spec_query_statements().contains(key),
    ensures
        sensor_index_after(sensors, key, initial_index(key)) is Some,
    decreases sensors.len(),
{
    if sensors.len() > 0 {
        law_every_query_key_indexed(sensors.drop_last(), key);
    }
}


/// Which sensor answers which query key, as a table of names and types:
/// a sensor with the name and type of a row answers the row's key, unless a
/// numbered-sensor pattern listed before it already takes the name; a
/// sensor whose name fits a numbered-sensor pattern answers that pattern's
/// key, unless a row before it takes the sensor.
pub proof fn law_sensor_table()
    ensures
        sensor_target("CPU Package"@, "Temperature"@) == Some("cpu_temperature"@),
        sensor_target("Core (Tctl/Tdie)"@, "Temperature"@) == Some("cpu_temperature"@),
        sensor_target("CPU Core #1"@, "Temperature"@) == Some("cpu_temperature_first"@),
        forall|name: Seq<char>| pattern_matches(core_pattern(), name) && name != "CPU Package"@ && name != "Core (Tctl/Tdie)"@ && name != "CPU Core #1"@
            ==> #[trigger] sensor_target(name, "Temperature"@) == Some("cpu_temperature_last"@),
        !pattern_matches(core_pattern(), "CPU Core #1 Distance to TjMax"@) ==> sensor_target("CPU Core #1 Distance to TjMax"@, "Temperature"@) == Some("cpu_tjmax_first"@),
        forall|name: Seq<char>| pattern_matches(tjmax_pattern(), name) && name != "CPU Package"@ && name != "Core (Tctl/Tdie)"@ && name != "CPU Core #1"@ && name != "CPU Core #1 Distance to TjMax"@ && !pattern_matches(core_pattern(), name)
            ==> #[trigger] sensor_target(name, "Temperature"@) == Some("cpu_tjmax_last"@),
        sensor_target("CPU Package"@, "Power"@) == Some("cpu_power"@),
        sensor_target("Package"@, "Power"@) == Some("cpu_power"@),
        sensor_target("CPU Core #1"@, "Voltage"@) == Some("cpu_voltage_first"@),
        forall|name: Seq<char>| pattern_matches(core_pattern(), name) && name != "CPU Core #1"@
            ==> #[trigger] sensor_target(name, "Voltage"@) == Some("cpu_voltage_last"@),
        !pattern_matches(core_pattern(), "CPU Core"@) ==> sensor_target("CPU Core"@, "Voltage"@) == Some("cpu_voltage"@),
        !pattern_matches(core_pattern(), "Core (SVI2 TFN)"@) ==> sensor_target("Core (SVI2 TFN)"@, "Voltage"@) == Some("cpu_voltage"@),
        sensor_target("CPU Core #1"@, "Clock"@) == Some("cpu_clock_first"@),
        sensor_target("Core #1"@, "Clock"@) == Some("cpu_clock_first"@),
        forall|name: Seq<char>| pattern_matches(clock_pattern(), name) && name != "CPU Core #1"@ && name != "Core #1"@
            ==> #[trigger] sensor_target(name, "Clock"@) == Some("cpu_clock_last"@),
        sensor_target("CPU Total"@, "Load"@) == Some("cpu_usage"@),
        sensor_target("CPU Core #1"@, "Load"@) == Some("cpu_usage_first"@),
        forall|name: Seq<char>| pattern_matches(core_pattern(), name) && name != "CPU Total"@ && name != "CPU Core #1"@
            ==> #[trigger] sensor_target(name, "Load"@) == Some("cpu_usage_last"@),
        !pattern_matches(core_pattern(), "GPU Core"@) && !pattern_matches(tjmax_pattern(), "GPU Core"@) ==> sensor_target("GPU Core"@, "Temperature"@) == Some("gpu_temperature"@),
        !pattern_matches(core_pattern(), "GPU VR SoC"@) && !pattern_matches(tjmax_pattern(), "GPU VR SoC"@) ==> sensor_target("GPU VR SoC"@, "Temperature"@) == Some("gpu_temperature"@),
        sensor_target("GPU Package"@, "Power"@) == Some("gpu_power"@),
        sensor_target("GPU Core"@, "Power"@) == Some("gpu_power"@),
        !pattern_matches(clock_pattern(), "GPU Core"@) ==> sensor_target("GPU Core"@, "Clock"@) == Some("gpu_clock_rms"@),
        !pattern_matches(clock_pattern(), "GPU Memory"@) ==> sensor_target("GPU Memory"@, "Clock"@) == Some("gpu_mem_clock_rms"@),
        !pattern_matches(core_pattern(), "GPU Core"@) ==> sensor_target("GPU Core"@, "Load"@) == Some("gpu_usage"@),
        !pattern_matches(core_pattern(), "Memory"@) ==> sensor_target("Memory"@, "Load"@) == Some("mem_percentage"@),
        sensor_target("Memory Available"@, "Data"@) == Some("mem_available"@),
        sensor_target("Memory Used"@, "Data"@) == Some("mem_used"@),
        sensor_target("Fully-Charged Capacity"@, "Energy"@) == Some("bat_capacity_max"@),
        sensor_target("Remaining Capacity"@, "Energy"@) == Some("bat_capacity_remain"@),
        sensor_target("Designed Capacity"@, "Energy"@) == Some("bat_capacity_designed"@),
        !pattern_matches(core_pattern(), "Voltage"@) ==> sensor_target("Voltage"@, "Voltage"@) == Some("bat_voltage"@),
        sensor_target("Charge Rate"@, "Power"@) == Some("bat_rate"@),
        sensor_target("Discharge Rate"@, "Power"@) == Some("bat_rate"@),
        sensor_target("Charge/Discharge Rate"@, "Power"@) == Some("bat_rate"@),
        !pattern_matches(core_pattern(), "Temperature 1"@) && !pattern_matches(tjmax_pattern(), "Temperature 1"@) ==> sensor_target("Temperature 1"@, "Temperature"@) == Some("disk_temperature_first"@),
        forall|name: Seq<char>| pattern_matches(disk_pattern(), name) && name != "CPU Package"@ && name != "Core (Tctl/Tdie)"@ && name != "CPU Core #1"@ && name != "CPU Core #1 Distance to TjMax"@ && name != "GPU Core"@ && name != "GPU VR SoC"@ && name != "Temperature 1"@ && !pattern_matches(core_pattern(), name) && !pattern_matches(tjmax_pattern(), name)
            ==> #[trigger] sensor_target(name, "Temperature"@) == Some("disk_temperature_last"@),
{
    reveal_strlit("Clock");
    reveal_strlit("Data");
    reveal_strlit("Clock");
    assert("Data"@.len() != "Clock"@.len());
    reveal_strlit("Energy");
    reveal_strlit("Clock");
    assert("Energy"@.len() != "Clock"@.len());
    reveal_strlit("Data");
    assert("Energy"@.len() != "Data"@.len());
    reveal_strlit("Load");
    reveal_strlit("Clock");
    assert("Load"@.len() != "Clock"@.len());
    reveal_strlit("Data");
    assert("Load"@[0] != "Data"@[0]);
    reveal_strlit("Energy");
    assert("Load"@.len() != "Energy"@.len());
    reveal_strlit("Power");
    reveal_strlit("Clock");
    assert("Power"@[0] != "Clock"@[0]);
    reveal_strlit("Data");
    assert("Power"@.len() != "Data"@.len());
    reveal_strlit("Energy");
    assert("Power"@.len() != "Energy"@.len());
    reveal_strlit("Load");
    assert("Power"@.len() != "Load"@.len());
    reveal_strlit("Temperature");
    reveal_strlit("Clock");
    assert("Temperature"@.len() != "Clock"@.len());
    reveal_strlit("Data");
    assert("Temperature"@.len() != "Data"@.len());
    reveal_strlit("Energy");
    assert("Temperature"@.len() != "Energy"@.len());
    reveal_strlit("Load");
    assert("Temperature"@.len() != "Load"@.len());
    reveal_strlit("Power");
    assert("Temperature"@.len() != "Power"@.len());
    reveal_strlit("Voltage");
    reveal_strlit("Clock");
    assert("Voltage"@.len() != "Clock"@.len());
    reveal_strlit("Data");
    assert("Voltage"@.len() != "Data"@.len());
    reveal_strlit("Energy");
    assert("Voltage"@.len() != "Energy"@.len());
    reveal_strlit("Load");
    assert("Voltage"@.len() != "Load"@.len());
    reveal_strlit("Power");
    assert("Voltage"@.len() != "Power"@.len());
    reveal_strlit("Temperature");
    assert("Voltage"@.len() != "Temperature"@.len());
    reveal_strlit("Core (Tctl/Tdie)");
    reveal_strlit("CPU Package");
    assert("Core (Tctl/Tdie)"@.len() != "CPU Package"@.len());
    reveal_strlit("CPU Core #1");
    reveal_strlit("CPU Package");
    assert("CPU Core #1"@[4] != "CPU Package"@[4]);
    reveal_strlit("Core (Tctl/Tdie)");
    assert("CPU Core #1"@.len() != "Core (Tctl/Tdie)"@.len());
    reveal_strlit("CPU Core #1 Distance to TjMax");
    reveal_strlit("CPU Package");
    assert("CPU Core #1 Distance to TjMax"@.len() != "CPU Package"@.len());
    reveal_strlit("Core (Tctl/Tdie)");
    assert("CPU Core #1 Distance to TjMax"@.len() != "Core (Tctl/Tdie)"@.len());
    reveal_strlit("CPU Core #1");
    assert("CPU Core #1 Distance to TjMax"@.len() != "CPU Core #1"@.len());
    reveal_strlit("Package");
    reveal_strlit("CPU Package");
    assert("Package"@.len() != "CPU Package"@.len());
    reveal_strlit("CPU Core");
    reveal_strlit("CPU Core #1");
    assert("CPU Core"@.len() != "CPU Core #1"@.len());
    reveal_strlit("Core (SVI2 TFN)");
    reveal_strlit("CPU Core #1");
    assert("Core (SVI2 TFN)"@.len() != "CPU Core #1"@.len());
    reveal_strlit("CPU Core");
    assert("Core (SVI2 TFN)"@.len() != "CPU Core"@.len());
    reveal_strlit("Core #1");
    reveal_strlit("CPU Core #1");
    assert("Core #1"@.len() != "CPU Core #1"@.len());
    reveal_strlit("CPU Core #1");
    reveal_strlit("CPU Total");
    assert("CPU Core #1"@.len() != "CPU Total"@.len());
    reveal_strlit("GPU Core");
    reveal_strlit("CPU Package");
    assert("GPU Core"@.len() != "CPU Package"@.len());
    reveal_strlit("Core (Tctl/Tdie)");
    assert("GPU Core"@.len() != "Core (Tctl/Tdie)"@.len());
    reveal_strlit("CPU Core #1");
    assert("GPU Core"@.len() != "CPU Core #1"@.len());
    reveal_strlit("CPU Core #1 Distance to TjMax");
    assert("GPU Core"@.len() != "CPU Core #1 Distance to TjMax"@.len());
    reveal_strlit("GPU VR SoC");
    reveal_strlit("CPU Package");
    assert("GPU VR SoC"@.len() != "CPU Package"@.len());
    reveal_strlit("Core (Tctl/Tdie)");
    assert("GPU VR SoC"@.len() != "Core (Tctl/Tdie)"@.len());
    reveal_strlit("CPU Core #1");
    assert("GPU VR SoC"@.len() != "CPU Core #1"@.len());
    reveal_strlit("CPU Core #1 Distance to TjMax");
    assert("GPU VR SoC"@.len() != "CPU Core #1 Distance to TjMax"@.len());
    reveal_strlit("GPU Core");
    assert("GPU VR SoC"@.len() != "GPU Core"@.len());
    reveal_strlit("GPU Package");
    reveal_strlit("CPU Package");
    assert("GPU Package"@[0] != "CPU Package"@[0]);
    reveal_strlit("Package");
    assert("GPU Package"@.len() != "Package"@.len());
    reveal_strlit("GPU Core");
    reveal_strlit("CPU Package");
    assert("GPU Core"@.len() != "CPU Package"@.len());
    reveal_strlit("Package");
    assert("GPU Core"@.len() != "Package"@.len());
    reveal_strlit("GPU Package");
    assert("GPU Core"@.len() != "GPU Package"@.len());
    reveal_strlit("GPU Core");
    reveal_strlit("CPU Core #1");
    assert("GPU Core"@.len() != "CPU Core #1"@.len());
    reveal_strlit("Core #1");
    assert("GPU Core"@.len() != "Core #1"@.len());
    reveal_strlit("GPU Memory");
    reveal_strlit("CPU Core #1");
    assert("GPU Memory"@.len() != "CPU Core #1"@.len());
    reveal_strlit("Core #1");
    assert("GPU Memory"@.len() != "Core #1"@.len());
    reveal_strlit("GPU Core");
    assert("GPU Memory"@.len() != "GPU Core"@.len());
    reveal_strlit("GPU Core");
    reveal_strlit("CPU Total");
    assert("GPU Core"@.len() != "CPU Total"@.len());
    reveal_strlit("CPU Core #1");
    assert("GPU Core"@.len() != "CPU Core #1"@.len());
    reveal_strlit("Memory");
    reveal_strlit("CPU Total");
    assert("Memory"@.len() != "CPU Total"@.len());
    reveal_strlit("CPU Core #1");
    assert("Memory"@.len() != "CPU Core #1"@.len());
    reveal_strlit("GPU Core");
    assert("Memory"@.len() != "GPU Core"@.len());
    reveal_strlit("Memory Used");
    reveal_strlit("Memory Available");
    assert("Memory Used"@.len() != "Memory Available"@.len());
    reveal_strlit("Remaining Capacity");
    reveal_strlit("Fully-Charged Capacity");
    assert("Remaining Capacity"@.len() != "Fully-Charged Capacity"@.len());
    reveal_strlit("Designed Capacity");
    reveal_strlit("Fully-Charged Capacity");
    assert("Designed Capacity"@.len() != "Fully-Charged Capacity"@.len());
    reveal_strlit("Remaining Capacity");
    assert("Designed Capacity"@.len() != "Remaining Capacity"@.len());
    reveal_strlit("Voltage");
    reveal_strlit("CPU Core #1");
    assert("Voltage"@.len() != "CPU Core #1"@.len());
    reveal_strlit("CPU Core");
    assert("Voltage"@.len() != "CPU Core"@.len());
    reveal_strlit("Core (SVI2 TFN)");
    assert("Voltage"@.len() != "Core (SVI2 TFN)"@.len());
    reveal_strlit("Charge Rate");
    reveal_strlit("CPU Package");
    assert("Charge Rate"@[1] != "CPU Package"@[1]);
    reveal_strlit("Package");
    assert("Charge Rate"@.len() != "Package"@.len());
    reveal_strlit("GPU Package");
    assert("Charge Rate"@[0] != "GPU Package"@[0]);
    reveal_strlit("GPU Core");
    assert("Charge Rate"@.len() != "GPU Core"@.len());
    reveal_strlit("Discharge Rate");
    reveal_strlit("CPU Package");
    assert("Discharge Rate"@.len() != "CPU Package"@.len());
    reveal_strlit("Package");
    assert("Discharge Rate"@.len() != "Package"@.len());
    reveal_strlit("GPU Package");
    assert("Discharge Rate"@.len() != "GPU Package"@.len());
    reveal_strlit("GPU Core");
    assert("Discharge Rate"@.len() != "GPU Core"@.len());
    reveal_strlit("Charge Rate");
    assert("Discharge Rate"@.len() != "Charge Rate"@.len());
    reveal_strlit("Charge/Discharge Rate");
    reveal_strlit("CPU Package");
    assert("Charge/Discharge Rate"@.len() != "CPU Package"@.len());
    reveal_strlit("Package");
    assert("Charge/Discharge Rate"@.len() != "Package"@.len());
    reveal_strlit("GPU Package");
    assert("Charge/Discharge Rate"@.len() != "GPU Package"@.len());
    reveal_strlit("GPU Core");
    assert("Charge/Discharge Rate"@.len() != "GPU Core"@.len());
    reveal_strlit("Charge Rate");
    assert("Charge/Discharge Rate"@.len() != "Charge Rate"@.len());
    reveal_strlit("Discharge Rate");
    assert("Charge/Discharge Rate"@.len() != "Discharge Rate"@.len());
    reveal_strlit("Temperature 1");
    reveal_strlit("CPU Package");
    assert("Temperature 1"@.len() != "CPU Package"@.len());
    reveal_strlit("Core (Tctl/Tdie)");
    assert("Temperature 1"@.len() != "Core (Tctl/Tdie)"@.len());
    reveal_strlit("CPU Core #1");
    assert("Temperature 1"@.len() != "CPU Core #1"@.len());
    reveal_strlit("CPU Core #1 Distance to TjMax");
    assert("Temperature 1"@.len() != "CPU Core #1 Distance to TjMax"@.len());
    reveal_strlit("GPU Core");
    assert("Temperature 1"@.len() != "GPU Core"@.len());
    reveal_strlit("GPU VR SoC");
    assert("Temperature 1"@.len() != "GPU VR SoC"@.len());
}

} // verus!
