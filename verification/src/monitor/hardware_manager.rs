//! Committing a staged reading of the machine into the model that queries
//! read.

use vstd::prelude::*;
use crate::monitor::hardware_model::{Battery, CPU, Device, Fans, GPU, Motherboard, RAM};
use crate::util::data_container::{DataContainer, DataValue, Float64, InfoMap};

verus! {

/// A staged value replaces the stored one; without one, the stored one
/// stays.
pub open spec fn merged<T>(stored: Option<T>, temp: Option<T>) -> Option<T> {
    if temp is Some {
        temp
    } else {
        stored
    }
}

/// The fan speeds as a sequence.
pub open spec fn fan_speeds(f: Fans) -> Option<Seq<i32>> {
    match f.fan_speed {
        Some(v) => Some(v@),
        None => None,
    }
}

/// The battery once the staged values are committed.
pub open spec fn merged_battery(stored: Battery, temp: Battery) -> Battery {
    Battery {
        designed_capacity: merged(stored.designed_capacity, temp.designed_capacity),
        actually_capacity: merged(stored.actually_capacity, temp.actually_capacity),
        remain_capacity: merged(stored.remain_capacity, temp.remain_capacity),
        voltage: merged(stored.voltage, temp.voltage),
        current: merged(stored.current, temp.current),
        rate: merged(stored.rate, temp.rate),
        is_charging: merged(stored.is_charging, temp.is_charging),
    }
}

/// The processor once the staged values are committed.
pub open spec fn merged_cpu(stored: CPU, temp: CPU) -> CPU {
    CPU {
        name: merged(stored.name, temp.name),
        usage: merged(stored.usage, temp.usage),
        package_temperature: merged(stored.package_temperature, temp.package_temperature),
        average_temperature: merged(stored.average_temperature, temp.average_temperature),
        power: merged(stored.power, temp.power),
        clock_begin_index: merged(stored.clock_begin_index, temp.clock_begin_index),
        clock_end_index: merged(stored.clock_end_index, temp.clock_end_index),
        clock: merged(stored.clock, temp.clock),
        load: merged(stored.load, temp.load),
        voltage: merged(stored.voltage, temp.voltage),
    }
}

/// The graphics processor once the staged values are committed.
pub open spec fn merged_gpu(stored: GPU, temp: GPU) -> GPU {
    GPU {
        name: merged(stored.name, temp.name),
        temperature: merged(stored.temperature, temp.temperature),
        max_temperature: merged(stored.max_temperature, temp.max_temperature),
        power: merged(stored.power, temp.power),
        speed: merged(stored.speed, temp.speed),
        mem_total: merged(stored.mem_total, temp.mem_total),
        mem_free: merged(stored.mem_free, temp.mem_free),
        mem_used: merged(stored.mem_used, temp.mem_used),
        mem_usage: merged(stored.mem_usage, temp.mem_usage),
    }
}

/// The memory once the staged values are committed.
pub open spec fn merged_ram(stored: RAM, temp: RAM) -> RAM {
    RAM {
        used_size: merged(stored.used_size, temp.used_size),
        free_size: merged(stored.free_size, temp.free_size),
        total_size: merged(stored.total_size, temp.total_size),
        total_swap: merged(stored.total_swap, temp.total_swap),
        used_swap: merged(stored.used_swap, temp.used_swap),
        free_swap: merged(stored.free_swap, temp.free_swap),
    }
}

/// The motherboard once the staged values are committed.
pub open spec fn merged_motherboard(stored: Motherboard, temp: Motherboard) -> Motherboard {
    Motherboard {
        name: merged(stored.name, temp.name),
    }
}

/// A staged float as a published value.
pub open spec fn float_published(o: Option<Float64>) -> Option<DataValue> {
    match o {
        Some(f) => Some(DataValue::Float(f.bits)),
        None => None,
    }
}

/// A staged flag as a published value.
pub open spec fn bool_published(o: Option<bool>) -> Option<DataValue> {
    match o {
        Some(b) => Some(DataValue::Boolean(b)),
        None => None,
    }
}

/// A staged text as a published value.
pub open spec fn text_published(o: Option<String>) -> Option<DataValue> {
    match o {
        Some(s) => Some(DataValue::Text(s@)),
        None => None,
    }
}

/// A staged integer as a published value.
pub open spec fn int_published(o: Option<i32>) -> Option<DataValue> {
    match o {
        Some(i) => Some(DataValue::Int(i)),
        None => None,
    }
}

/// What a commit of `temp` publishes, in order: a key and the staged value
/// under it, `None` where nothing is staged.
pub open spec fn publications(temp: Device) -> Seq<(Seq<char>, Option<DataValue>)> {
    seq![
        ("bat_capacity_designed"@, float_published(temp.battery.designed_capacity)),
        ("bat_capacity_max"@, float_published(temp.battery.actually_capacity)),
        ("bat_capacity_remain"@, float_published(temp.battery.remain_capacity)),
        ("bat_voltage"@, float_published(temp.battery.voltage)),
        ("bat_rate"@, float_published(temp.battery.rate)),
        ("bat_state"@, bool_published(temp.battery.is_charging)),
        ("cpu_name"@, text_published(temp.cpu.name)),
        ("cpu_usage"@, float_published(temp.cpu.usage)),
        ("cpu_temperature"@, float_published(temp.cpu.package_temperature)),
        ("cpu_power"@, float_published(temp.cpu.power)),
        ("cpu_clock_first"@, int_published(temp.cpu.clock_begin_index)),
        ("cpu_clock_last"@, int_published(temp.cpu.clock_end_index)),
        ("cpu_clock_avg"@, float_published(temp.cpu.clock)),
        ("cpu_voltage"@, float_published(temp.cpu.voltage)),
        ("gpu_name"@, text_published(temp.gpu.name)),
        ("gpu_temperature"@, float_published(temp.gpu.temperature)),
        ("gpu_power"@, float_published(temp.gpu.power)),
        ("gpu_clock_rms"@, float_published(temp.gpu.speed)),
        ("mem_used"@, float_published(temp.ram.used_size)),
        ("mem_available"@, float_published(temp.ram.free_size)),
        ("mem_total"@, float_published(temp.ram.total_size)),
        ("mem_swap_total"@, float_published(temp.ram.total_swap)),
        ("mem_swap_used"@, float_published(temp.ram.used_swap)),
    ]
}

/// The value under `key` after the publications `pubs`, made in order on a
/// map that held `before` under it: the last publication of the key that
/// carries a value wins.
pub open spec fn published_after(
    pubs: Seq<(Seq<char>, Option<DataValue>)>,
    key: Seq<char>,
    before: Option<DataValue>,
) -> Option<DataValue>
    decreases pubs.len(),
{
    if pubs.len() == 0 {
        before
    } else if pubs.last().0 == key && pubs.last().1 is Some {
        pubs.last().1
    } else {
        published_after(pubs.drop_last(), key, before)
    }
}

/// The keys and values of staged updates.
pub open spec fn updates_view(v: Seq<(String, Option<DataContainer>)>) -> Seq<(Seq<char>, Option<DataValue>)> {
    Seq::new(v.len(), |i: int| (v[i].0@, optional_data(v[i].1)))
}

/// The value of an optional container.
pub open spec fn optional_data(o: Option<DataContainer>) -> Option<DataValue> {
    match o {
        Some(d) => Some(d@),
        None => None,
    }
}

fn float_update(key: &str, o: &Option<Float64>) -> (e: (String, Option<DataContainer>))
    ensures
        e.0@ == key@,
        optional_data(e.1) == float_published(*o),
{
    match o {
        Some(f) => (String::from_str(key), Some(DataContainer::Float(*f))),
        None => (String::from_str(key), None),
    }
}

fn bool_update(key: &str, o: &Option<bool>) -> (e: (String, Option<DataContainer>))
    ensures
        e.0@ == key@,
        optional_data(e.1) == bool_published(*o),
{
    match o {
        Some(b) => (String::from_str(key), Some(DataContainer::Boolean(*b))),
        None => (String::from_str(key), None),
    }
}

fn text_update(key: &str, o: &Option<String>) -> (e: (String, Option<DataContainer>))
    ensures
        e.0@ == key@,
        optional_data(e.1) == text_published(*o),
{
    match o {
        Some(s) => (String::from_str(key), Some(DataContainer::Text(s.clone()))),
        None => (String::from_str(key), None),
    }
}

fn int_update(key: &str, o: &Option<i32>) -> (e: (String, Option<DataContainer>))
    ensures
        e.0@ == key@,
        optional_data(e.1) == int_published(*o),
{
    match o {
        Some(i) => (String::from_str(key), Some(DataContainer::Int(*i))),
        None => (String::from_str(key), None),
    }
}

/// The updates that a commit of `temp` publishes, in order.
fn staged_updates(temp: &Device) -> (v: Vec<(String, Option<DataContainer>)>)
    ensures
        updates_view(v@) == publications(*temp),
{
    let mut v: Vec<(String, Option<DataContainer>)> = Vec::new();
    v.push(float_update("bat_capacity_designed", &temp.battery.designed_capacity));
    v.push(float_update("bat_capacity_max", &temp.battery.actually_capacity));
    v.push(float_update("bat_capacity_remain", &temp.battery.remain_capacity));
    v.push(float_update("bat_voltage", &temp.battery.voltage));
    v.push(float_update("bat_rate", &temp.battery.rate));
    v.push(bool_update("bat_state", &temp.battery.is_charging));
    v.push(text_update("cpu_name", &temp.cpu.name));
    v.push(float_update("cpu_usage", &temp.cpu.usage));
    v.push(float_update("cpu_temperature", &temp.cpu.package_temperature));
    v.push(float_update("cpu_power", &temp.cpu.power));
    v.push(int_update("cpu_clock_first", &temp.cpu.clock_begin_index));
    v.push(int_update("cpu_clock_last", &temp.cpu.clock_end_index));
    v.push(float_update("cpu_clock_avg", &temp.cpu.clock));
    v.push(float_update("cpu_voltage", &temp.cpu.voltage));
    v.push(text_update("gpu_name", &temp.gpu.name));
    v.push(float_update("gpu_temperature", &temp.gpu.temperature));
    v.push(float_update("gpu_power", &temp.gpu.power));
    v.push(float_update("gpu_clock_rms", &temp.gpu.speed));
    v.push(float_update("mem_used", &temp.ram.used_size));
    v.push(float_update("mem_available", &temp.ram.free_size));
    v.push(float_update("mem_total", &temp.ram.total_size));
    v.push(float_update("mem_swap_total", &temp.ram.total_swap));
    v.push(float_update("mem_swap_used", &temp.ram.used_swap));
    assert(updates_view(v@) =~= publications(*temp));
    v
}

/// Makes the publications `updates` on `published`, in order.
fn publish_all(published: &mut InfoMap, updates: Vec<(String, Option<DataContainer>)>)
    ensures
        forall|k: Seq<char>| #[trigger] final(published).spec_get(k)
            == published_after(updates_view(updates@), k, old(published).spec_get(k)),
{
    let ghost all = updates_view(updates@);
    let ghost start = *published;
    let n: usize = updates.len();
    let mut rest = updates;
    let mut i: usize = 0;
    while rest.len() > 0
        invariant
            all.len() == n,
            i + rest@.len() == n,
            forall|j: int| 0 <= j < rest@.len() ==> #[trigger] updates_view(rest@)[j] == all[i + j],
            forall|k: Seq<char>| #[trigger] published.spec_get(k)
                == published_after(all.take(i as int), k, start.spec_get(k)),
        decreases rest@.len(),
    {
        let ghost rest_before = rest@;
        let ghost head = updates_view(rest_before)[0];
        let (key, value) = rest.remove(0);
        proof {
            assert(head == all[i as int]);
            assert(head == (key@, optional_data(value)));
            assert(all.take(i + 1).drop_last() =~= all.take(i as int));
            assert(all.take(i + 1).last() == head);
            assert forall|j: int| 0 <= j < rest@.len() implies #[trigger] updates_view(rest@)[j] == all[i + 1 + j] by {
                assert(rest@[j] == rest_before[j + 1]);
                assert(updates_view(rest_before)[j + 1] == all[i + (j + 1)]);
            }
        }
        match value {
            Some(d) => {
                published.insert(key, d);
            },
            None => {},
        }
        i = i + 1;
    }
    assert(all.take(i as int) =~= all);
}

fn merge_copy<T: Copy>(stored: &mut Option<T>, temp: &Option<T>)
    ensures
        *final(stored) == merged(*old(stored), *temp),
{
    if let Some(v) = temp {
        *stored = Some(*v);
    }
}

fn merge_text(stored: &mut Option<String>, temp: &Option<String>)
    ensures
        *final(stored) == merged(*old(stored), *temp),
{
    if let Some(v) = temp {
        *stored = Some(v.clone());
    }
}

fn merge_speeds(stored: &mut Option<Vec<i32>>, temp: &Option<Vec<i32>>)
    ensures
        fan_speeds(Fans { fan_speed: *final(stored) }) == merged(
            fan_speeds(Fans { fan_speed: *old(stored) }),
            fan_speeds(Fans { fan_speed: *temp }),
        ),
{
    if let Some(v) = temp {
        let mut copy: Vec<i32> = Vec::new();
        let mut i: usize = 0;
        while i < v.len()
            invariant
                i <= v@.len(),
                copy@ == v@.subrange(0, i as int),
            decreases v@.len() - i,
        {
            copy.push(v[i]);
            i = i + 1;
        }
        assert(v@.subrange(0, v@.len() as int) =~= v@);
        *stored = Some(copy);
    }
}

fn commit_battery(stored: &mut Battery, temp: &Battery)
    ensures
        *final(stored) == merged_battery(*old(stored), *temp),
{
    merge_copy(&mut stored.designed_capacity, &temp.designed_capacity);
    merge_copy(&mut stored.actually_capacity, &temp.actually_capacity);
    merge_copy(&mut stored.remain_capacity, &temp.remain_capacity);
    merge_copy(&mut stored.voltage, &temp.voltage);
    merge_copy(&mut stored.current, &temp.current);
    merge_copy(&mut stored.rate, &temp.rate);
    merge_copy(&mut stored.is_charging, &temp.is_charging);
}

fn commit_cpu(stored: &mut CPU, temp: &CPU)
    ensures
        *final(stored) == merged_cpu(*old(stored), *temp),
{
    merge_text(&mut stored.name, &temp.name);
    merge_copy(&mut stored.usage, &temp.usage);
    merge_copy(&mut stored.package_temperature, &temp.package_temperature);
    merge_copy(&mut stored.average_temperature, &temp.average_temperature);
    merge_copy(&mut stored.power, &temp.power);
    merge_copy(&mut stored.clock_begin_index, &temp.clock_begin_index);
    merge_copy(&mut stored.clock_end_index, &temp.clock_end_index);
    merge_copy(&mut stored.clock, &temp.clock);
    merge_copy(&mut stored.load, &temp.load);
    merge_copy(&mut stored.voltage, &temp.voltage);
}

fn commit_gpu(stored: &mut GPU, temp: &GPU)
    ensures
        *final(stored) == merged_gpu(*old(stored), *temp),
{
    merge_text(&mut stored.name, &temp.name);
    merge_copy(&mut stored.temperature, &temp.temperature);
    merge_copy(&mut stored.max_temperature, &temp.max_temperature);
    merge_copy(&mut stored.power, &temp.power);
    merge_copy(&mut stored.speed, &temp.speed);
    merge_copy(&mut stored.mem_total, &temp.mem_total);
    merge_copy(&mut stored.mem_free, &temp.mem_free);
    merge_copy(&mut stored.mem_used, &temp.mem_used);
    merge_copy(&mut stored.mem_usage, &temp.mem_usage);
}

fn commit_ram(stored: &mut RAM, temp: &RAM)
    ensures
        *final(stored) == merged_ram(*old(stored), *temp),
{
    merge_copy(&mut stored.used_size, &temp.used_size);
    merge_copy(&mut stored.free_size, &temp.free_size);
    merge_copy(&mut stored.total_size, &temp.total_size);
    merge_copy(&mut stored.total_swap, &temp.total_swap);
    merge_copy(&mut stored.used_swap, &temp.used_swap);
    merge_copy(&mut stored.free_swap, &temp.free_swap);
}

/// The model that queries read, and a staging copy that readers of the
/// sensors fill in.
#[derive(Debug, Default)]
pub struct HardwareManager {
    real_model: Device,
    pub temp_model: Device,
}

impl HardwareManager {
    /// The committed model.
    pub closed spec fn committed(&self) -> Device {
        self.real_model
    }

    /// The staged model.
    pub closed spec fn staged(&self) -> Device {
        self.temp_model
    }

    /// A manager with nothing committed and nothing staged.
    pub fn new() -> (m: Self)
        ensures
            m.committed().is_blank(),
            m.staged().is_blank(),
    {
        HardwareManager { real_model: Device::default(), temp_model: Device::default() }
    }

    /// The committed model.
    pub fn real_model(&self) -> (d: &Device)
        ensures
            *d == self.committed(),
    {
        &self.real_model
    }

    /// Replaces the staging copy with `staged`; the committed model stays.
    pub fn stage(&mut self, staged: Device)
        ensures
            final(self).staged() == staged,
            final(self).committed() == old(self).committed(),
    {
        self.temp_model = staged;
    }

    /// Moves every staged value into the committed model, where it replaces
    /// the stored value, publishes the staged values that clients may query
    /// under their keys, and empties the staging copy.
    pub fn commit(&mut self, published: &mut InfoMap)
        ensures
            final(self).staged().is_blank(),
            final(self).committed().battery == merged_battery(old(self).committed().battery, old(self).staged().battery),
            final(self).committed().cpu == merged_cpu(old(self).committed().cpu, old(self).staged().cpu),
            final(self).committed().gpu == merged_gpu(old(self).committed().gpu, old(self).staged().gpu),
            final(self).committed().ram == merged_ram(old(self).committed().ram, old(self).staged().ram),
            final(self).committed().motherboard == merged_motherboard(old(self).committed().motherboard, old(self).staged().motherboard),
            fan_speeds(final(self).committed().fans) == merged(fan_speeds(old(self).committed().fans), fan_speeds(old(self).staged().fans)),
            final(self).committed().battery.designed_capacity == if old(self).staged().battery.designed_capacity is Some {
                old(self).staged().battery.designed_capacity
            } else {
                old(self).committed().battery.designed_capacity
            },
            final(self).committed().battery.actually_capacity == if old(self).staged().battery.actually_capacity is Some {
                old(self).staged().battery.actually_capacity
            } else {
                old(self).committed().battery.actually_capacity
            },
            final(self).committed().battery.remain_capacity == if old(self).staged().battery.remain_capacity is Some {
                old(self).staged().battery.remain_capacity
            } else {
                old(self).committed().battery.remain_capacity
            },
            final(self).committed().battery.voltage == if old(self).staged().battery.voltage is Some {
                old(self).staged().battery.voltage
            } else {
                old(self).committed().battery.voltage
            },
            final(self).committed().battery.current == if old(self).staged().battery.current is Some {
                old(self).staged().battery.current
            } else {
                old(self).committed().battery.current
            },
            final(self).committed().battery.rate == if old(self).staged().battery.rate is Some {
                old(self).staged().battery.rate
            } else {
                old(self).committed().battery.rate
            },
            final(self).committed().battery.is_charging == if old(self).staged().battery.is_charging is Some {
                old(self).staged().battery.is_charging
            } else {
                old(self).committed().battery.is_charging
            },
            final(self).committed().cpu.name == if old(self).staged().cpu.name is Some {
                old(self).staged().cpu.name
            } else {
                old(self).committed().cpu.name
            },
            final(self).committed().cpu.usage == if old(self).staged().cpu.usage is Some {
                old(self).staged().cpu.usage
            } else {
                old(self).committed().cpu.usage
            },
            final(self).committed().cpu.package_temperature == if old(self).staged().cpu.package_temperature is Some {
                old(self).staged().cpu.package_temperature
            } else {
                old(self).committed().cpu.package_temperature
            },
            final(self).committed().cpu.average_temperature == if old(self).staged().cpu.average_temperature is Some {
                old(self).staged().cpu.average_temperature
            } else {
                old(self).committed().cpu.average_temperature
            },
            final(self).committed().cpu.power == if old(self).staged().cpu.power is Some {
                old(self).staged().cpu.power
            } else {
                old(self).committed().cpu.power
            },
            final(self).committed().cpu.clock_begin_index == if old(self).staged().cpu.clock_begin_index is Some {
                old(self).staged().cpu.clock_begin_index
            } else {
                old(self).committed().cpu.clock_begin_index
            },
            final(self).committed().cpu.clock_end_index == if old(self).staged().cpu.clock_end_index is Some {
                old(self).staged().cpu.clock_end_index
            } else {
                old(self).committed().cpu.clock_end_index
            },
            final(self).committed().cpu.clock == if old(self).staged().cpu.clock is Some {
                old(self).staged().cpu.clock
            } else {
                old(self).committed().cpu.clock
            },
            final(self).committed().cpu.load == if old(self).staged().cpu.load is Some {
                old(self).staged().cpu.load
            } else {
                old(self).committed().cpu.load
            },
            final(self).committed().cpu.voltage == if old(self).staged().cpu.voltage is Some {
                old(self).staged().cpu.voltage
            } else {
                old(self).committed().cpu.voltage
            },
            final(self).committed().gpu.name == if old(self).staged().gpu.name is Some {
                old(self).staged().gpu.name
            } else {
                old(self).committed().gpu.name
            },
            final(self).committed().gpu.temperature == if old(self).staged().gpu.temperature is Some {
                old(self).staged().gpu.temperature
            } else {
                old(self).committed().gpu.temperature
            },
            final(self).committed().gpu.max_temperature == if old(self).staged().gpu.max_temperature is Some {
                old(self).staged().gpu.max_temperature
            } else {
                old(self).committed().gpu.max_temperature
            },
            final(self).committed().gpu.power == if old(self).staged().gpu.power is Some {
                old(self).staged().gpu.power
            } else {
                old(self).committed().gpu.power
            },
            final(self).committed().gpu.speed == if old(self).staged().gpu.speed is Some {
                old(self).staged().gpu.speed
            } else {
                old(self).committed().gpu.speed
            },
            final(self).committed().gpu.mem_total == if old(self).staged().gpu.mem_total is Some {
                old(self).staged().gpu.mem_total
            } else {
                old(self).committed().gpu.mem_total
            },
            final(self).committed().gpu.mem_free == if old(self).staged().gpu.mem_free is Some {
                old(self).staged().gpu.mem_free
            } else {
                old(self).committed().gpu.mem_free
            },
            final(self).committed().gpu.mem_used == if old(self).staged().gpu.mem_used is Some {
                old(self).staged().gpu.mem_used
            } else {
                old(self).committed().gpu.mem_used
            },
            final(self).committed().gpu.mem_usage == if old(self).staged().gpu.mem_usage is Some {
                old(self).staged().gpu.mem_usage
            } else {
                old(self).committed().gpu.mem_usage
            },
            final(self).committed().ram.used_size == if old(self).staged().ram.used_size is Some {
                old(self).staged().ram.used_size
            } else {
                old(self).committed().ram.used_size
            },
            final(self).committed().ram.free_size == if old(self).staged().ram.free_size is Some {
                old(self).staged().ram.free_size
            } else {
                old(self).committed().ram.free_size
            },
            final(self).committed().ram.total_size == if old(self).staged().ram.total_size is Some {
                old(self).staged().ram.total_size
            } else {
                old(self).committed().ram.total_size
            },
            final(self).committed().ram.total_swap == if old(self).staged().ram.total_swap is Some {
                old(self).staged().ram.total_swap
            } else {
                old(self).committed().ram.total_swap
            },
            final(self).committed().ram.used_swap == if old(self).staged().ram.used_swap is Some {
                old(self).staged().ram.used_swap
            } else {
                old(self).committed().ram.used_swap
            },
            final(self).committed().ram.free_swap == if old(self).staged().ram.free_swap is Some {
                old(self).staged().ram.free_swap
            } else {
                old(self).committed().ram.free_swap
            },
            final(self).committed().motherboard.name == if old(self).staged().motherboard.name is Some {
                old(self).staged().motherboard.name
            } else {
                old(self).committed().motherboard.name
            },
            fan_speeds(final(self).committed().fans) == if old(self).staged().fans.fan_speed is Some {
                fan_speeds(old(self).staged().fans)
            } else {
                fan_speeds(old(self).committed().fans)
            },
            forall|k: Seq<char>| #[trigger] final(published).spec_get(k)
                == published_after(publications(old(self).staged()), k, old(published).spec_get(k)),
    {
        let updates = staged_updates(&self.temp_model);
        publish_all(published, updates);
        commit_battery(&mut self.real_model.battery, &self.temp_model.battery);
        commit_cpu(&mut self.real_model.cpu, &self.temp_model.cpu);
        commit_gpu(&mut self.real_model.gpu, &self.temp_model.gpu);
        commit_ram(&mut self.real_model.ram, &self.temp_model.ram);
        merge_text(&mut self.real_model.motherboard.name, &self.temp_model.motherboard.name);
        merge_speeds(&mut self.real_model.fans.fan_speed, &self.temp_model.fans.fan_speed);
        self.temp_model = Device::default();
    }
}


proof fn lemma_nothing_published(pubs: Seq<(Seq<char>, Option<DataValue>)>, key: Seq<char>, before: Option<DataValue>)
    requires
        forall|i: int| 0 <= i < pubs.len() ==> (#[trigger] pubs[i]).1 is None,
    ensures
        published_after(pubs, key, before) == before,
    decreases pubs.len(),
{
    if pubs.len() > 0 {
        assert(pubs.last() == pubs[pubs.len() - 1]);
        lemma_nothing_published(pubs.drop_last(), key, before);
    }
}

/// A commit with nothing staged changes nothing: the committed model stays
/// as it is, and no published value changes. Since a commit leaves nothing
/// staged, committing twice in a row is committing once.
pub proof fn law_empty_commit_changes_nothing(committed: Device, staged: Device, key: Seq<char>, before: Option<DataValue>)
    requires
        staged.is_blank(),
    ensures
        merged_battery(committed.battery, staged.battery) == committed.battery,
        merged_cpu(committed.cpu, staged.cpu) == committed.cpu,
        merged_gpu(committed.gpu, staged.gpu) == committed.gpu,
        merged_ram(committed.ram, staged.ram) == committed.ram,
        merged_motherboard(committed.motherboard, staged.motherboard) == committed.motherboard,
        merged(fan_speeds(committed.fans), fan_speeds(staged.fans)) == fan_speeds(committed.fans),
        published_after(publications(staged), key, before) == before,
{
    lemma_nothing_published(publications(staged), key, before);
}


/// A commit takes each field of the committed model from the same field of
/// the staging copy where a value was staged there, and keeps the committed
/// field otherwise; no field is taken from another.
pub proof fn law_commit_field_by_field(committed: Device, staged: Device)
    ensures
        merged_battery(committed.battery, staged.battery).designed_capacity == if staged.battery.designed_capacity is Some {
            staged.battery.designed_capacity
        } else {
            committed.battery.designed_capacity
        },
        merged_battery(committed.battery, staged.battery).actually_capacity == if staged.battery.actually_capacity is Some {
            staged.battery.actually_capacity
        } else {
            committed.battery.actually_capacity
        },
        merged_battery(committed.battery, staged.battery).remain_capacity == if staged.battery.remain_capacity is Some {
            staged.battery.remain_capacity
        } else {
            committed.battery.remain_capacity
        },
        merged_battery(committed.battery, staged.battery).voltage == if staged.battery.voltage is Some {
            staged.battery.voltage
        } else {
            committed.battery.voltage
        },
        merged_battery(committed.battery, staged.battery).current == if staged.battery.current is Some {
            staged.battery.current
        } else {
            committed.battery.current
        },
        merged_battery(committed.battery, staged.battery).rate == if staged.battery.rate is Some {
            staged.battery.rate
        } else {
            committed.battery.rate
        },
        merged_battery(committed.battery, staged.battery).is_charging == if staged.battery.is_charging is Some {
            staged.battery.is_charging
        } else {
            committed.battery.is_charging
        },
        merged_cpu(committed.cpu, staged.cpu).name == if staged.cpu.name is Some {
            staged.cpu.name
        } else {
            committed.cpu.name
        },
        merged_cpu(committed.cpu, staged.cpu).usage == if staged.cpu.usage is Some {
            staged.cpu.usage
        } else {
            committed.cpu.usage
        },
        merged_cpu(committed.cpu, staged.cpu).package_temperature == if staged.cpu.package_temperature is Some {
            staged.cpu.package_temperature
        } else {
            committed.cpu.package_temperature
        },
        merged_cpu(committed.cpu, staged.cpu).average_temperature == if staged.cpu.average_temperature is Some {
            staged.cpu.average_temperature
        } else {
            committed.cpu.average_temperature
        },
        merged_cpu(committed.cpu, staged.cpu).power == if staged.cpu.power is Some {
            staged.cpu.power
        } else {
            committed.cpu.power
        },
        merged_cpu(committed.cpu, staged.cpu).clock_begin_index == if staged.cpu.clock_begin_index is Some {
            staged.cpu.clock_begin_index
        } else {
            committed.cpu.clock_begin_index
        },
        merged_cpu(committed.cpu, staged.cpu).clock_end_index == if staged.cpu.clock_end_index is Some {
            staged.cpu.clock_end_index
        } else {
            committed.cpu.clock_end_index
        },
        merged_cpu(committed.cpu, staged.cpu).clock == if staged.cpu.clock is Some {
            staged.cpu.clock
        } else {
            committed.cpu.clock
        },
        merged_cpu(committed.cpu, staged.cpu).load == if staged.cpu.load is Some {
            staged.cpu.load
        } else {
            committed.cpu.load
        },
        merged_cpu(committed.cpu, staged.cpu).voltage == if staged.cpu.voltage is Some {
            staged.cpu.voltage
        } else {
            committed.cpu.voltage
        },
        merged_gpu(committed.gpu, staged.gpu).name == if staged.gpu.name is Some {
            staged.gpu.name
        } else {
            committed.gpu.name
        },
        merged_gpu(committed.gpu, staged.gpu).temperature == if staged.gpu.temperature is Some {
            staged.gpu.temperature
        } else {
            committed.gpu.temperature
        },
        merged_gpu(committed.gpu, staged.gpu).max_temperature == if staged.gpu.max_temperature is Some {
            staged.gpu.max_temperature
        } else {
            committed.gpu.max_temperature
        },
        merged_gpu(committed.gpu, staged.gpu).power == if staged.gpu.power is Some {
            staged.gpu.power
        } else {
            committed.gpu.power
        },
        merged_gpu(committed.gpu, staged.gpu).speed == if staged.gpu.speed is Some {
            staged.gpu.speed
        } else {
            committed.gpu.speed
        },
        merged_gpu(committed.gpu, staged.gpu).mem_total == if staged.gpu.mem_total is Some {
            staged.gpu.mem_total
        } else {
            committed.gpu.mem_total
        },
        merged_gpu(committed.gpu, staged.gpu).mem_free == if staged.gpu.mem_free is Some {
            staged.gpu.mem_free
        } else {
            committed.gpu.mem_free
        },
        merged_gpu(committed.gpu, staged.gpu).mem_used == if staged.gpu.mem_used is Some {
            staged.gpu.mem_used
        } else {
            committed.gpu.mem_used
        },
        merged_gpu(committed.gpu, staged.gpu).mem_usage == if staged.gpu.mem_usage is Some {
            staged.gpu.mem_usage
        } else {
            committed.gpu.mem_usage
        },
        merged_ram(committed.ram, staged.ram).used_size == if staged.ram.used_size is Some {
            staged.ram.used_size
        } else {
            committed.ram.used_size
        },
        merged_ram(committed.ram, staged.ram).free_size == if staged.ram.free_size is Some {
            staged.ram.free_size
        } else {
            committed.ram.free_size
        },
        merged_ram(committed.ram, staged.ram).total_size == if staged.ram.total_size is Some {
            staged.ram.total_size
        } else {
            committed.ram.total_size
        },
        merged_ram(committed.ram, staged.ram).total_swap == if staged.ram.total_swap is Some {
            staged.ram.total_swap
        } else {
            committed.ram.total_swap
        },
        merged_ram(committed.ram, staged.ram).used_swap == if staged.ram.used_swap is Some {
            staged.ram.used_swap
        } else {
            committed.ram.used_swap
        },
        merged_ram(committed.ram, staged.ram).free_swap == if staged.ram.free_swap is Some {
            staged.ram.free_swap
        } else {
            committed.ram.free_swap
        },
        merged_motherboard(committed.motherboard, staged.motherboard).name == if staged.motherboard.name is Some {
            staged.motherboard.name
        } else {
            committed.motherboard.name
        },
{
}


proof fn lemma_published_absent(pubs: Seq<(Seq<char>, Option<DataValue>)>, key: Seq<char>, before: Option<DataValue>)
    requires
        forall|i: int| 0 <= i < pubs.len() ==> (#[trigger] pubs[i]).0 != key,
    ensures
        published_after(pubs, key, before) == before,
    decreases pubs.len(),
{
    if pubs.len() > 0 {
        assert(pubs.last() == pubs[pubs.len() - 1]);
        lemma_published_absent(pubs.drop_last(), key, before);
    }
}

proof fn lemma_published_once(pubs: Seq<(Seq<char>, Option<DataValue>)>, j: int, key: Seq<char>, before: Option<DataValue>)
    requires
        0 <= j < pubs.len(),
        pubs[j].0 == key,
        forall|i: int| 0 <= i < pubs.len() && i != j ==> (#[trigger] pubs[i]).0 != key,
    ensures
        published_after(pubs, key, before) == if pubs[j].1 is Some { pubs[j].1 } else { before },
    decreases pubs.len(),
{
    let rest = pubs.drop_last();
    assert(pubs.last() == pubs[pubs.len() - 1]);
    if j == pubs.len() - 1 {
        assert forall|i: int| 0 <= i < rest.len() implies (#[trigger] rest[i]).0 != key by {
            assert(rest[i] == pubs[i]);
        }
        lemma_published_absent(rest, key, before);
    } else {
        assert forall|i: int| 0 <= i < rest.len() && i != j implies (#[trigger] rest[i]).0 != key by {
            assert(rest[i] == pubs[i]);
        }
        lemma_published_once(rest, j, key, before);
    }
}

proof fn lemma_publishes_bat_capacity_designed(staged: Device, before: Option<DataValue>)
    ensures
        published_after(publications(staged), "bat_capacity_designed"@, before) == (match staged.battery.designed_capacity { Some(x) => Some(DataValue::Float(x.bits)), None => before }),
{
    reveal_strlit("bat_capacity_designed");
    reveal_strlit("bat_capacity_max");
    assert("bat_capacity_designed"@.len() != "bat_capacity_max"@.len());
    reveal_strlit("bat_capacity_remain");
    assert("bat_capacity_designed"@.len() != "bat_capacity_remain"@.len());
    reveal_strlit("bat_voltage");
    assert("bat_capacity_designed"@.len() != "bat_voltage"@.len());
    reveal_strlit("bat_rate");
    assert("bat_capacity_designed"@.len() != "bat_rate"@.len());
    reveal_strlit("bat_state");
    assert("bat_capacity_designed"@.len() != "bat_state"@.len());
    reveal_strlit("cpu_name");
    assert("bat_capacity_designed"@.len() != "cpu_name"@.len());
    reveal_strlit("cpu_usage");
    assert("bat_capacity_designed"@.len() != "cpu_usage"@.len());
    reveal_strlit("cpu_temperature");
    assert("bat_capacity_designed"@.len() != "cpu_temperature"@.len());
    reveal_strlit("cpu_power");
    assert("bat_capacity_designed"@.len() != "cpu_power"@.len());
    reveal_strlit("cpu_clock_first");
    assert("bat_capacity_designed"@.len() != "cpu_clock_first"@.len());
    reveal_strlit("cpu_clock_last");
    assert("bat_capacity_designed"@.len() != "cpu_clock_last"@.len());
    reveal_strlit("cpu_clock_avg");
    assert("bat_capacity_designed"@.len() != "cpu_clock_avg"@.len());
    reveal_strlit("cpu_voltage");
    assert("bat_capacity_designed"@.len() != "cpu_voltage"@.len());
    reveal_strlit("gpu_name");
    assert("bat_capacity_designed"@.len() != "gpu_name"@.len());
    reveal_strlit("gpu_temperature");
    assert("bat_capacity_designed"@.len() != "gpu_temperature"@.len());
    reveal_strlit("gpu_power");
    assert("bat_capacity_designed"@.len() != "gpu_power"@.len());
    reveal_strlit("gpu_clock_rms");
    assert("bat_capacity_designed"@.len() != "gpu_clock_rms"@.len());
    reveal_strlit("mem_used");
    assert("bat_capacity_designed"@.len() != "mem_used"@.len());
    reveal_strlit("mem_available");
    assert("bat_capacity_designed"@.len() != "mem_available"@.len());
    reveal_strlit("mem_total");
    assert("bat_capacity_designed"@.len() != "mem_total"@.len());
    reveal_strlit("mem_swap_total");
    assert("bat_capacity_designed"@.len() != "mem_swap_total"@.len());
    reveal_strlit("mem_swap_used");
    assert("bat_capacity_designed"@.len() != "mem_swap_used"@.len());
    let p = publications(staged);
    assert forall|i: int| 0 <= i < p.len() && i != 0 implies (#[trigger] p[i]).0 != "bat_capacity_designed"@ by {}
    lemma_published_once(p, 0, "bat_capacity_designed"@, before);
}

proof fn lemma_publishes_bat_capacity_max(staged: Device, before: Option<DataValue>)
    ensures
        published_after(publications(staged), "bat_capacity_max"@, before) == (match staged.battery.actually_capacity { Some(x) => Some(DataValue::Float(x.bits)), None => before }),
{
    reveal_strlit("bat_capacity_max");
    reveal_strlit("bat_capacity_designed");
    assert("bat_capacity_max"@.len() != "bat_capacity_designed"@.len());
    reveal_strlit("bat_capacity_remain");
    assert("bat_capacity_max"@.len() != "bat_capacity_remain"@.len());
    reveal_strlit("bat_voltage");
    assert("bat_capacity_max"@.len() != "bat_voltage"@.len());
    reveal_strlit("bat_rate");
    assert("bat_capacity_max"@.len() != "bat_rate"@.len());
    reveal_strlit("bat_state");
    assert("bat_capacity_max"@.len() != "bat_state"@.len());
    reveal_strlit("cpu_name");
    assert("bat_capacity_max"@.len() != "cpu_name"@.len());
    reveal_strlit("cpu_usage");
    assert("bat_capacity_max"@.len() != "cpu_usage"@.len());
    reveal_strlit("cpu_temperature");
    assert("bat_capacity_max"@.len() != "cpu_temperature"@.len());
    reveal_strlit("cpu_power");
    assert("bat_capacity_max"@.len() != "cpu_power"@.len());
    reveal_strlit("cpu_clock_first");
    assert("bat_capacity_max"@.len() != "cpu_clock_first"@.len());
    reveal_strlit("cpu_clock_last");
    assert("bat_capacity_max"@.len() != "cpu_clock_last"@.len());
    reveal_strlit("cpu_clock_avg");
    assert("bat_capacity_max"@.len() != "cpu_clock_avg"@.len());
    reveal_strlit("cpu_voltage");
    assert("bat_capacity_max"@.len() != "cpu_voltage"@.len());
    reveal_strlit("gpu_name");
    assert("bat_capacity_max"@.len() != "gpu_name"@.len());
    reveal_strlit("gpu_temperature");
    assert("bat_capacity_max"@.len() != "gpu_temperature"@.len());
    reveal_strlit("gpu_power");
    assert("bat_capacity_max"@.len() != "gpu_power"@.len());
    reveal_strlit("gpu_clock_rms");
    assert("bat_capacity_max"@.len() != "gpu_clock_rms"@.len());
    reveal_strlit("mem_used");
    assert("bat_capacity_max"@.len() != "mem_used"@.len());
    reveal_strlit("mem_available");
    assert("bat_capacity_max"@.len() != "mem_available"@.len());
    reveal_strlit("mem_total");
    assert("bat_capacity_max"@.len() != "mem_total"@.len());
    reveal_strlit("mem_swap_total");
    assert("bat_capacity_max"@.len() != "mem_swap_total"@.len());
    reveal_strlit("mem_swap_used");
    assert("bat_capacity_max"@.len() != "mem_swap_used"@.len());
    let p = publications(staged);
    assert forall|i: int| 0 <= i < p.len() && i != 1 implies (#[trigger] p[i]).0 != "bat_capacity_max"@ by {}
    lemma_published_once(p, 1, "bat_capacity_max"@, before);
}

proof fn lemma_publishes_bat_capacity_remain(staged: Device, before: Option<DataValue>)
    ensures
        published_after(publications(staged), "bat_capacity_remain"@, before) == (match staged.battery.remain_capacity { Some(x) => Some(DataValue::Float(x.bits)), None => before }),
{
    reveal_strlit("bat_capacity_remain");
    reveal_strlit("bat_capacity_designed");
    assert("bat_capacity_remain"@.len() != "bat_capacity_designed"@.len());
    reveal_strlit("bat_capacity_max");
    assert("bat_capacity_remain"@.len() != "bat_capacity_max"@.len());
    reveal_strlit("bat_voltage");
    assert("bat_capacity_remain"@.len() != "bat_voltage"@.len());
    reveal_strlit("bat_rate");
    assert("bat_capacity_remain"@.len() != "bat_rate"@.len());
    reveal_strlit("bat_state");
    assert("bat_capacity_remain"@.len() != "bat_state"@.len());
    reveal_strlit("cpu_name");
    assert("bat_capacity_remain"@.len() != "cpu_name"@.len());
    reveal_strlit("cpu_usage");
    assert("bat_capacity_remain"@.len() != "cpu_usage"@.len());
    reveal_strlit("cpu_temperature");
    assert("bat_capacity_remain"@.len() != "cpu_temperature"@.len());
    reveal_strlit("cpu_power");
    assert("bat_capacity_remain"@.len() != "cpu_power"@.len());
    reveal_strlit("cpu_clock_first");
    assert("bat_capacity_remain"@.len() != "cpu_clock_first"@.len());
    reveal_strlit("cpu_clock_last");
    assert("bat_capacity_remain"@.len() != "cpu_clock_last"@.len());
    reveal_strlit("cpu_clock_avg");
    assert("bat_capacity_remain"@.len() != "cpu_clock_avg"@.len());
    reveal_strlit("cpu_voltage");
    assert("bat_capacity_remain"@.len() != "cpu_voltage"@.len());
    reveal_strlit("gpu_name");
    assert("bat_capacity_remain"@.len() != "gpu_name"@.len());
    reveal_strlit("gpu_temperature");
    assert("bat_capacity_remain"@.len() != "gpu_temperature"@.len());
    reveal_strlit("gpu_power");
    assert("bat_capacity_remain"@.len() != "gpu_power"@.len());
    reveal_strlit("gpu_clock_rms");
    assert("bat_capacity_remain"@.len() != "gpu_clock_rms"@.len());
    reveal_strlit("mem_used");
    assert("bat_capacity_remain"@.len() != "mem_used"@.len());
    reveal_strlit("mem_available");
    assert("bat_capacity_remain"@.len() != "mem_available"@.len());
    reveal_strlit("mem_total");
    assert("bat_capacity_remain"@.len() != "mem_total"@.len());
    reveal_strlit("mem_swap_total");
    assert("bat_capacity_remain"@.len() != "mem_swap_total"@.len());
    reveal_strlit("mem_swap_used");
    assert("bat_capacity_remain"@.len() != "mem_swap_used"@.len());
    let p = publications(staged);
    assert forall|i: int| 0 <= i < p.len() && i != 2 implies (#[trigger] p[i]).0 != "bat_capacity_remain"@ by {}
    lemma_published_once(p, 2, "bat_capacity_remain"@, before);
}

proof fn lemma_publishes_bat_voltage(staged: Device, before: Option<DataValue>)
    ensures
        published_after(publications(staged), "bat_voltage"@, before) == (match staged.battery.voltage { Some(x) => Some(DataValue::Float(x.bits)), None => before }),
{
    reveal_strlit("bat_voltage");
    reveal_strlit("bat_capacity_designed");
    assert("bat_voltage"@.len() != "bat_capacity_designed"@.len());
    reveal_strlit("bat_capacity_max");
    assert("bat_voltage"@.len() != "bat_capacity_max"@.len());
    reveal_strlit("bat_capacity_remain");
    assert("bat_voltage"@.len() != "bat_capacity_remain"@.len());
    reveal_strlit("bat_rate");
    assert("bat_voltage"@.len() != "bat_rate"@.len());
    reveal_strlit("bat_state");
    assert("bat_voltage"@.len() != "bat_state"@.len());
    reveal_strlit("cpu_name");
    assert("bat_voltage"@.len() != "cpu_name"@.len());
    reveal_strlit("cpu_usage");
    assert("bat_voltage"@.len() != "cpu_usage"@.len());
    reveal_strlit("cpu_temperature");
    assert("bat_voltage"@.len() != "cpu_temperature"@.len());
    reveal_strlit("cpu_power");
    assert("bat_voltage"@.len() != "cpu_power"@.len());
    reveal_strlit("cpu_clock_first");
    assert("bat_voltage"@.len() != "cpu_clock_first"@.len());
    reveal_strlit("cpu_clock_last");
    assert("bat_voltage"@.len() != "cpu_clock_last"@.len());
    reveal_strlit("cpu_clock_avg");
    assert("bat_voltage"@.len() != "cpu_clock_avg"@.len());
    reveal_strlit("cpu_voltage");
    assert("bat_voltage"@[0] != "cpu_voltage"@[0]);
    reveal_strlit("gpu_name");
    assert("bat_voltage"@.len() != "gpu_name"@.len());
    reveal_strlit("gpu_temperature");
    assert("bat_voltage"@.len() != "gpu_temperature"@.len());
    reveal_strlit("gpu_power");
    assert("bat_voltage"@.len() != "gpu_power"@.len());
    reveal_strlit("gpu_clock_rms");
    assert("bat_voltage"@.len() != "gpu_clock_rms"@.len());
    reveal_strlit("mem_used");
    assert("bat_voltage"@.len() != "mem_used"@.len());
    reveal_strlit("mem_available");
    assert("bat_voltage"@.len() != "mem_available"@.len());
    reveal_strlit("mem_total");
    assert("bat_voltage"@.len() != "mem_total"@.len());
    reveal_strlit("mem_swap_total");
    assert("bat_voltage"@.len() != "mem_swap_total"@.len());
    reveal_strlit("mem_swap_used");
    assert("bat_voltage"@.len() != "mem_swap_used"@.len());
    let p = publications(staged);
    assert forall|i: int| 0 <= i < p.len() && i != 3 implies (#[trigger] p[i]).0 != "bat_voltage"@ by {}
    lemma_published_once(p, 3, "bat_voltage"@, before);
}

proof fn lemma_publishes_bat_rate(staged: Device, before: Option<DataValue>)
    ensures
        published_after(publications(staged), "bat_rate"@, before) == (match staged.battery.rate { Some(x) => Some(DataValue::Float(x.bits)), None => before }),
{
    reveal_strlit("bat_rate");
    reveal_strlit("bat_capacity_designed");
    assert("bat_rate"@.len() != "bat_capacity_designed"@.len());
    reveal_strlit("bat_capacity_max");
    assert("bat_rate"@.len() != "bat_capacity_max"@.len());
    reveal_strlit("bat_capacity_remain");
    assert("bat_rate"@.len() != "bat_capacity_remain"@.len());
    reveal_strlit("bat_voltage");
    assert("bat_rate"@.len() != "bat_voltage"@.len());
    reveal_strlit("bat_state");
    assert("bat_rate"@.len() != "bat_state"@.len());
    reveal_strlit("cpu_name");
    assert("bat_rate"@[0] != "cpu_name"@[0]);
    reveal_strlit("cpu_usage");
    assert("bat_rate"@.len() != "cpu_usage"@.len());
    reveal_strlit("cpu_temperature");
    assert("bat_rate"@.len() != "cpu_temperature"@.len());
    reveal_strlit("cpu_power");
    assert("bat_rate"@.len() != "cpu_power"@.len());
    reveal_strlit("cpu_clock_first");
    assert("bat_rate"@.len() != "cpu_clock_first"@.len());
    reveal_strlit("cpu_clock_last");
    assert("bat_rate"@.len() != "cpu_clock_last"@.len());
    reveal_strlit("cpu_clock_avg");
    assert("bat_rate"@.len() != "cpu_clock_avg"@.len());
    reveal_strlit("cpu_voltage");
    assert("bat_rate"@.len() != "cpu_voltage"@.len());
    reveal_strlit("gpu_name");
    assert("bat_rate"@[0] != "gpu_name"@[0]);
    reveal_strlit("gpu_temperature");
    assert("bat_rate"@.len() != "gpu_temperature"@.len());
    reveal_strlit("gpu_power");
    assert("bat_rate"@.len() != "gpu_power"@.len());
    reveal_strlit("gpu_clock_rms");
    assert("bat_rate"@.len() != "gpu_clock_rms"@.len());
    reveal_strlit("mem_used");
    assert("bat_rate"@[0] != "mem_used"@[0]);
    reveal_strlit("mem_available");
    assert("bat_rate"@.len() != "mem_available"@.len());
    reveal_strlit("mem_total");
    assert("bat_rate"@.len() != "mem_total"@.len());
    reveal_strlit("mem_swap_total");
    assert("bat_rate"@.len() != "mem_swap_total"@.len());
    reveal_strlit("mem_swap_used");
    assert("bat_rate"@.len() != "mem_swap_used"@.len());
    let p = publications(staged);
    assert forall|i: int| 0 <= i < p.len() && i != 4 implies (#[trigger] p[i]).0 != "bat_rate"@ by {}
    lemma_published_once(p, 4, "bat_rate"@, before);
}

proof fn lemma_publishes_bat_state(staged: Device, before: Option<DataValue>)
    ensures
        published_after(publications(staged), "bat_state"@, before) == (match staged.battery.is_charging { Some(x) => Some(DataValue::Boolean(x)), None => before }),
{
    reveal_strlit("bat_state");
    reveal_strlit("bat_capacity_designed");
    assert("bat_state"@.len() != "bat_capacity_designed"@.len());
    reveal_strlit("bat_capacity_max");
    assert("bat_state"@.len() != "bat_capacity_max"@.len());
    reveal_strlit("bat_capacity_remain");
    assert("bat_state"@.len() != "bat_capacity_remain"@.len());
    reveal_strlit("bat_voltage");
    assert("bat_state"@.len() != "bat_voltage"@.len());
    reveal_strlit("bat_rate");
    assert("bat_state"@.len() != "bat_rate"@.len());
    reveal_strlit("cpu_name");
    assert("bat_state"@.len() != "cpu_name"@.len());
    reveal_strlit("cpu_usage");
    assert("bat_state"@[0] != "cpu_usage"@[0]);
    reveal_strlit("cpu_temperature");
    assert("bat_state"@.len() != "cpu_temperature"@.len());
    reveal_strlit("cpu_power");
    assert("bat_state"@[0] != "cpu_power"@[0]);
    reveal_strlit("cpu_clock_first");
    assert("bat_state"@.len() != "cpu_clock_first"@.len());
    reveal_strlit("cpu_clock_last");
    assert("bat_state"@.len() != "cpu_clock_last"@.len());
    reveal_strlit("cpu_clock_avg");
    assert("bat_state"@.len() != "cpu_clock_avg"@.len());
    reveal_strlit("cpu_voltage");
    assert("bat_state"@.len() != "cpu_voltage"@.len());
    reveal_strlit("gpu_name");
    assert("bat_state"@.len() != "gpu_name"@.len());
    reveal_strlit("gpu_temperature");
    assert("bat_state"@.len() != "gpu_temperature"@.len());
    reveal_strlit("gpu_power");
    assert("bat_state"@[0] != "gpu_power"@[0]);
    reveal_strlit("gpu_clock_rms");
    assert("bat_state"@.len() != "gpu_clock_rms"@.len());
    reveal_strlit("mem_used");
    assert("bat_state"@.len() != "mem_used"@.len());
    reveal_strlit("mem_available");
    assert("bat_state"@.len() != "mem_available"@.len());
    reveal_strlit("mem_total");
    assert("bat_state"@[0] != "mem_total"@[0]);
    reveal_strlit("mem_swap_total");
    assert("bat_state"@.len() != "mem_swap_total"@.len());
    reveal_strlit("mem_swap_used");
    assert("bat_state"@.len() != "mem_swap_used"@.len());
    let p = publications(staged);
    assert forall|i: int| 0 <= i < p.len() && i != 5 implies (#[trigger] p[i]).0 != "bat_state"@ by {}
    lemma_published_once(p, 5, "bat_state"@, before);
}

proof fn lemma_publishes_cpu_name(staged: Device, before: Option<DataValue>)
    ensures
        published_after(publications(staged), "cpu_name"@, before) == (match staged.cpu.name { Some(x) => Some(DataValue::Text(x@)), None => before }),
{
    reveal_strlit("cpu_name");
    reveal_strlit("bat_capacity_designed");
    assert("cpu_name"@.len() != "bat_capacity_designed"@.len());
    reveal_strlit("bat_capacity_max");
    assert("cpu_name"@.len() != "bat_capacity_max"@.len());
    reveal_strlit("bat_capacity_remain");
    assert("cpu_name"@.len() != "bat_capacity_remain"@.len());
    reveal_strlit("bat_voltage");
    assert("cpu_name"@.len() != "bat_voltage"@.len());
    reveal_strlit("bat_rate");
    assert("cpu_name"@[0] != "bat_rate"@[0]);
    reveal_strlit("bat_state");
    assert("cpu_name"@.len() != "bat_state"@.len());
    reveal_strlit("cpu_usage");
    assert("cpu_name"@.len() != "cpu_usage"@.len());
    reveal_strlit("cpu_temperature");
    assert("cpu_name"@.len() != "cpu_temperature"@.len());
    reveal_strlit("cpu_power");
    assert("cpu_name"@.len() != "cpu_power"@.len());
    reveal_strlit("cpu_clock_first");
    assert("cpu_name"@.len() != "cpu_clock_first"@.len());
    reveal_strlit("cpu_clock_last");
    assert("cpu_name"@.len() != "cpu_clock_last"@.len());
    reveal_strlit("cpu_clock_avg");
    assert("cpu_name"@.len() != "cpu_clock_avg"@.len());
    reveal_strlit("cpu_voltage");
    assert("cpu_name"@.len() != "cpu_voltage"@.len());
    reveal_strlit("gpu_name");
    assert("cpu_name"@[0] != "gpu_name"@[0]);
    reveal_strlit("gpu_temperature");
    assert("cpu_name"@.len() != "gpu_temperature"@.len());
    reveal_strlit("gpu_power");
    assert("cpu_name"@.len() != "gpu_power"@.len());
    reveal_strlit("gpu_clock_rms");
    assert("cpu_name"@.len() != "gpu_clock_rms"@.len());
    reveal_strlit("mem_used");
    assert("cpu_name"@[0] != "mem_used"@[0]);
    reveal_strlit("mem_available");
    assert("cpu_name"@.len() != "mem_available"@.len());
    reveal_strlit("mem_total");
    assert("cpu_name"@.len() != "mem_total"@.len());
    reveal_strlit("mem_swap_total");
    assert("cpu_name"@.len() != "mem_swap_total"@.len());
    reveal_strlit("mem_swap_used");
    assert("cpu_name"@.len() != "mem_swap_used"@.len());
    let p = publications(staged);
    assert forall|i: int| 0 <= i < p.len() && i != 6 implies (#[trigger] p[i]).0 != "cpu_name"@ by {}
    lemma_published_once(p, 6, "cpu_name"@, before);
}

proof fn lemma_publishes_cpu_usage(staged: Device, before: Option<DataValue>)
    ensures
        published_after(publications(staged), "cpu_usage"@, before) == (match staged.cpu.usage { Some(x) => Some(DataValue::Float(x.bits)), None => before }),
{
    reveal_strlit("cpu_usage");
    reveal_strlit("bat_capacity_designed");
    assert("cpu_usage"@.len() != "bat_capacity_designed"@.len());
    reveal_strlit("bat_capacity_max");
    assert("cpu_usage"@.len() != "bat_capacity_max"@.len());
    reveal_strlit("bat_capacity_remain");
    assert("cpu_usage"@.len() != "bat_capacity_remain"@.len());
    reveal_strlit("bat_voltage");
    assert("cpu_usage"@.len() != "bat_voltage"@.len());
    reveal_strlit("bat_rate");
    assert("cpu_usage"@.len() != "bat_rate"@.len());
    reveal_strlit("bat_state");
    assert("cpu_usage"@[0] != "bat_state"@[0]);
    reveal_strlit("cpu_name");
    assert("cpu_usage"@.len() != "cpu_name"@.len());
    reveal_strlit("cpu_temperature");
    assert("cpu_usage"@.len() != "cpu_temperature"@.len());
    reveal_strlit("cpu_power");
    assert("cpu_usage"@[4] != "cpu_power"@[4]);
    reveal_strlit("cpu_clock_first");
    assert("cpu_usage"@.len() != "cpu_clock_first"@.len());
    reveal_strlit("cpu_clock_last");
    assert("cpu_usage"@.len() != "cpu_clock_last"@.len());
    reveal_strlit("cpu_clock_avg");
    assert("cpu_usage"@.len() != "cpu_clock_avg"@.len());
    reveal_strlit("cpu_voltage");
    assert("cpu_usage"@.len() != "cpu_voltage"@.len());
    reveal_strlit("gpu_name");
    assert("cpu_usage"@.len() != "gpu_name"@.len());
    reveal_strlit("gpu_temperature");
    assert("cpu_usage"@.len() != "gpu_temperature"@.len());
    reveal_strlit("gpu_power");
    assert("cpu_usage"@[0] != "gpu_power"@[0]);
    reveal_strlit("gpu_clock_rms");
    assert("cpu_usage"@.len() != "gpu_clock_rms"@.len());
    reveal_strlit("mem_used");
    assert("cpu_usage"@.len() != "mem_used"@.len());
    reveal_strlit("mem_available");
    assert("cpu_usage"@.len() != "mem_available"@.len());
    reveal_strlit("mem_total");
    assert("cpu_usage"@[0] != "mem_total"@[0]);
    reveal_strlit("mem_swap_total");
    assert("cpu_usage"@.len() != "mem_swap_total"@.len());
    reveal_strlit("mem_swap_used");
    assert("cpu_usage"@.len() != "mem_swap_used"@.len());
    let p = publications(staged);
    assert forall|i: int| 0 <= i < p.len() && i != 7 implies (#[trigger] p[i]).0 != "cpu_usage"@ by {}
    lemma_published_once(p, 7, "cpu_usage"@, before);
}

proof fn lemma_publishes_cpu_temperature(staged: Device, before: Option<DataValue>)
    ensures
        published_after(publications(staged), "cpu_temperature"@, before) == (match staged.cpu.package_temperature { Some(x) => Some(DataValue::Float(x.bits)), None => before }),
{
    reveal_strlit("cpu_temperature");
    reveal_strlit("bat_capacity_designed");
    assert("cpu_temperature"@.len() != "bat_capacity_designed"@.len());
    reveal_strlit("bat_capacity_max");
    assert("cpu_temperature"@.len() != "bat_capacity_max"@.len());
    reveal_strlit("bat_capacity_remain");
    assert("cpu_temperature"@.len() != "bat_capacity_remain"@.len());
    reveal_strlit("bat_voltage");
    assert("cpu_temperature"@.len() != "bat_voltage"@.len());
    reveal_strlit("bat_rate");
    assert("cpu_temperature"@.len() != "bat_rate"@.len());
    reveal_strlit("bat_state");
    assert("cpu_temperature"@.len() != "bat_state"@.len());
    reveal_strlit("cpu_name");
    assert("cpu_temperature"@.len() != "cpu_name"@.len());
    reveal_strlit("cpu_usage");
    assert("cpu_temperature"@.len() != "cpu_usage"@.len());
    reveal_strlit("cpu_power");
    assert("cpu_temperature"@.len() != "cpu_power"@.len());
    reveal_strlit("cpu_clock_first");
    assert("cpu_temperature"@[4] != "cpu_clock_first"@[4]);
    reveal_strlit("cpu_clock_last");
    assert("cpu_temperature"@.len() != "cpu_clock_last"@.len());
    reveal_strlit("cpu_clock_avg");
    assert("cpu_temperature"@.len() != "cpu_clock_avg"@.len());
    reveal_strlit("cpu_voltage");
    assert("cpu_temperature"@.len() != "cpu_voltage"@.len());
    reveal_strlit("gpu_name");
    assert("cpu_temperature"@.len() != "gpu_name"@.len());
    reveal_strlit("gpu_temperature");
    assert("cpu_temperature"@[0] != "gpu_temperature"@[0]);
    reveal_strlit("gpu_power");
    assert("cpu_temperature"@.len() != "gpu_power"@.len());
    reveal_strlit("gpu_clock_rms");
    assert("cpu_temperature"@.len() != "gpu_clock_rms"@.len());
    reveal_strlit("mem_used");
    assert("cpu_temperature"@.len() != "mem_used"@.len());
    reveal_strlit("mem_available");
    assert("cpu_temperature"@.len() != "mem_available"@.len());
    reveal_strlit("mem_total");
    assert("cpu_temperature"@.len() != "mem_total"@.len());
    reveal_strlit("mem_swap_total");
    assert("cpu_temperature"@.len() != "mem_swap_total"@.len());
    reveal_strlit("mem_swap_used");
    assert("cpu_temperature"@.len() != "mem_swap_used"@.len());
    let p = publications(staged);
    assert forall|i: int| 0 <= i < p.len() && i != 8 implies (#[trigger] p[i]).0 != "cpu_temperature"@ by {}
    lemma_published_once(p, 8, "cpu_temperature"@, before);
}

proof fn lemma_publishes_cpu_power(staged: Device, before: Option<DataValue>)
    ensures
        published_after(publications(staged), "cpu_power"@, before) == (match staged.cpu.power { Some(x) => Some(DataValue::Float(x.bits)), None => before }),
{
    reveal_strlit("cpu_power");
    reveal_strlit("bat_capacity_designed");
    assert("cpu_power"@.len() != "bat_capacity_designed"@.len());
    reveal_strlit("bat_capacity_max");
    assert("cpu_power"@.len() != "bat_capacity_max"@.len());
    reveal_strlit("bat_capacity_remain");
    assert("cpu_power"@.len() != "bat_capacity_remain"@.len());
    reveal_strlit("bat_voltage");
    assert("cpu_power"@.len() != "bat_voltage"@.len());
    reveal_strlit("bat_rate");
    assert("cpu_power"@.len() != "bat_rate"@.len());
    reveal_strlit("bat_state");
    assert("cpu_power"@[0] != "bat_state"@[0]);
    reveal_strlit("cpu_name");
    assert("cpu_power"@.len() != "cpu_name"@.len());
    reveal_strlit("cpu_usage");
    assert("cpu_power"@[4] != "cpu_usage"@[4]);
    reveal_strlit("cpu_temperature");
    assert("cpu_power"@.len() != "cpu_temperature"@.len());
    reveal_strlit("cpu_clock_first");
    assert("cpu_power"@.len() != "cpu_clock_first"@.len());
    reveal_strlit("cpu_clock_last");
    assert("cpu_power"@.len() != "cpu_clock_last"@.len());
    reveal_strlit("cpu_clock_avg");
    assert("cpu_power"@.len() != "cpu_clock_avg"@.len());
    reveal_strlit("cpu_voltage");
    assert("cpu_power"@.len() != "cpu_voltage"@.len());
    reveal_strlit("gpu_name");
    assert("cpu_power"@.len() != "gpu_name"@.len());
    reveal_strlit("gpu_temperature");
    assert("cpu_power"@.len() != "gpu_temperature"@.len());
    reveal_strlit("gpu_power");
    assert("cpu_power"@[0] != "gpu_power"@[0]);
    reveal_strlit("gpu_clock_rms");
    assert("cpu_power"@.len() != "gpu_clock_rms"@.len());
    reveal_strlit("mem_used");
    assert("cpu_power"@.len() != "mem_used"@.len());
    reveal_strlit("mem_available");
    assert("cpu_power"@.len() != "mem_available"@.len());
    reveal_strlit("mem_total");
    assert("cpu_power"@[0] != "mem_total"@[0]);
    reveal_strlit("mem_swap_total");
    assert("cpu_power"@.len() != "mem_swap_total"@.len());
    reveal_strlit("mem_swap_used");
    assert("cpu_power"@.len() != "mem_swap_used"@.len());
    let p = publications(staged);
    assert forall|i: int| 0 <= i < p.len() && i != 9 implies (#[trigger] p[i]).0 != "cpu_power"@ by {}
    lemma_published_once(p, 9, "cpu_power"@, before);
}

proof fn lemma_publishes_cpu_clock_first(staged: Device, before: Option<DataValue>)
    ensures
        published_after(publications(staged), "cpu_clock_first"@, before) == (match staged.cpu.clock_begin_index { Some(x) => Some(DataValue::Int(x)), None => before }),
{
    reveal_strlit("cpu_clock_first");
    reveal_strlit("bat_capacity_designed");
    assert("cpu_clock_first"@.len() != "bat_capacity_designed"@.len());
    reveal_strlit("bat_capacity_max");
    assert("cpu_clock_first"@.len() != "bat_capacity_max"@.len());
    reveal_strlit("bat_capacity_remain");
    assert("cpu_clock_first"@.len() != "bat_capacity_remain"@.len());
    reveal_strlit("bat_voltage");
    assert("cpu_clock_first"@.len() != "bat_voltage"@.len());
    reveal_strlit("bat_rate");
    assert("cpu_clock_first"@.len() != "bat_rate"@.len());
    reveal_strlit("bat_state");
    assert("cpu_clock_first"@.len() != "bat_state"@.len());
    reveal_strlit("cpu_name");
    assert("cpu_clock_first"@.len() != "cpu_name"@.len());
    reveal_strlit("cpu_usage");
    assert("cpu_clock_first"@.len() != "cpu_usage"@.len());
    reveal_strlit("cpu_temperature");
    assert("cpu_clock_first"@[4] != "cpu_temperature"@[4]);
    reveal_strlit("cpu_power");
    assert("cpu_clock_first"@.len() != "cpu_power"@.len());
    reveal_strlit("cpu_clock_last");
    assert("cpu_clock_first"@.len() != "cpu_clock_last"@.len());
    reveal_strlit("cpu_clock_avg");
    assert("cpu_clock_first"@.len() != "cpu_clock_avg"@.len());
    reveal_strlit("cpu_voltage");
    assert("cpu_clock_first"@.len() != "cpu_voltage"@.len());
    reveal_strlit("gpu_name");
    assert("cpu_clock_first"@.len() != "gpu_name"@.len());
    reveal_strlit("gpu_temperature");
    assert("cpu_clock_first"@[0] != "gpu_temperature"@[0]);
    reveal_strlit("gpu_power");
    assert("cpu_clock_first"@.len() != "gpu_power"@.len());
    reveal_strlit("gpu_clock_rms");
    assert("cpu_clock_first"@.len() != "gpu_clock_rms"@.len());
    reveal_strlit("mem_used");
    assert("cpu_clock_first"@.len() != "mem_used"@.len());
    reveal_strlit("mem_available");
    assert("cpu_clock_first"@.len() != "mem_available"@.len());
    reveal_strlit("mem_total");
    assert("cpu_clock_first"@.len() != "mem_total"@.len());
    reveal_strlit("mem_swap_total");
    assert("cpu_clock_first"@.len() != "mem_swap_total"@.len());
    reveal_strlit("mem_swap_used");
    assert("cpu_clock_first"@.len() != "mem_swap_used"@.len());
    let p = publications(staged);
    assert forall|i: int| 0 <= i < p.len() && i != 10 implies (#[trigger] p[i]).0 != "cpu_clock_first"@ by {}
    lemma_published_once(p, 10, "cpu_clock_first"@, before);
}

proof fn lemma_publishes_cpu_clock_last(staged: Device, before: Option<DataValue>)
    ensures
        published_after(publications(staged), "cpu_clock_last"@, before) == (match staged.cpu.clock_end_index { Some(x) => Some(DataValue::Int(x)), None => before }),
{
    reveal_strlit("cpu_clock_last");
    reveal_strlit("bat_capacity_designed");
    assert("cpu_clock_last"@.len() != "bat_capacity_designed"@.len());
    reveal_strlit("bat_capacity_max");
    assert("cpu_clock_last"@.len() != "bat_capacity_max"@.len());
    reveal_strlit("bat_capacity_remain");
    assert("cpu_clock_last"@.len() != "bat_capacity_remain"@.len());
    reveal_strlit("bat_voltage");
    assert("cpu_clock_last"@.len() != "bat_voltage"@.len());
    reveal_strlit("bat_rate");
    assert("cpu_clock_last"@.len() != "bat_rate"@.len());
    reveal_strlit("bat_state");
    assert("cpu_clock_last"@.len() != "bat_state"@.len());
    reveal_strlit("cpu_name");
    assert("cpu_clock_last"@.len() != "cpu_name"@.len());
    reveal_strlit("cpu_usage");
    assert("cpu_clock_last"@.len() != "cpu_usage"@.len());
    reveal_strlit("cpu_temperature");
    assert("cpu_clock_last"@.len() != "cpu_temperature"@.len());
    reveal_strlit("cpu_power");
    assert("cpu_clock_last"@.len() != "cpu_power"@.len());
    reveal_strlit("cpu_clock_first");
    assert("cpu_clock_last"@.len() != "cpu_clock_first"@.len());
    reveal_strlit("cpu_clock_avg");
    assert("cpu_clock_last"@.len() != "cpu_clock_avg"@.len());
    reveal_strlit("cpu_voltage");
    assert("cpu_clock_last"@.len() != "cpu_voltage"@.len());
    reveal_strlit("gpu_name");
    assert("cpu_clock_last"@.len() != "gpu_name"@.len());
    reveal_strlit("gpu_temperature");
    assert("cpu_clock_last"@.len() != "gpu_temperature"@.len());
    reveal_strlit("gpu_power");
    assert("cpu_clock_last"@.len() != "gpu_power"@.len());
    reveal_strlit("gpu_clock_rms");
    assert("cpu_clock_last"@.len() != "gpu_clock_rms"@.len());
    reveal_strlit("mem_used");
    assert("cpu_clock_last"@.len() != "mem_used"@.len());
    reveal_strlit("mem_available");
    assert("cpu_clock_last"@.len() != "mem_available"@.len());
    reveal_strlit("mem_total");
    assert("cpu_clock_last"@.len() != "mem_total"@.len());
    reveal_strlit("mem_swap_total");
    assert("cpu_clock_last"@[0] != "mem_swap_total"@[0]);
    reveal_strlit("mem_swap_used");
    assert("cpu_clock_last"@.len() != "mem_swap_used"@.len());
    let p = publications(staged);
    assert forall|i: int| 0 <= i < p.len() && i != 11 implies (#[trigger] p[i]).0 != "cpu_clock_last"@ by {}
    lemma_published_once(p, 11, "cpu_clock_last"@, before);
}

proof fn lemma_publishes_cpu_clock_avg(staged: Device, before: Option<DataValue>)
    ensures
        published_after(publications(staged), "cpu_clock_avg"@, before) == (match staged.cpu.clock { Some(x) => Some(DataValue::Float(x.bits)), None => before }),
{
    reveal_strlit("cpu_clock_avg");
    reveal_strlit("bat_capacity_designed");
    assert("cpu_clock_avg"@.len() != "bat_capacity_designed"@.len());
    reveal_strlit("bat_capacity_max");
    assert("cpu_clock_avg"@.len() != "bat_capacity_max"@.len());
    reveal_strlit("bat_capacity_remain");
    assert("cpu_clock_avg"@.len() != "bat_capacity_remain"@.len());
    reveal_strlit("bat_voltage");
    assert("cpu_clock_avg"@.len() != "bat_voltage"@.len());
    reveal_strlit("bat_rate");
    assert("cpu_clock_avg"@.len() != "bat_rate"@.len());
    reveal_strlit("bat_state");
    assert("cpu_clock_avg"@.len() != "bat_state"@.len());
    reveal_strlit("cpu_name");
    assert("cpu_clock_avg"@.len() != "cpu_name"@.len());
    reveal_strlit("cpu_usage");
    assert("cpu_clock_avg"@.len() != "cpu_usage"@.len());
    reveal_strlit("cpu_temperature");
    assert("cpu_clock_avg"@.len() != "cpu_temperature"@.len());
    reveal_strlit("cpu_power");
    assert("cpu_clock_avg"@.len() != "cpu_power"@.len());
    reveal_strlit("cpu_clock_first");
    assert("cpu_clock_avg"@.len() != "cpu_clock_first"@.len());
    reveal_strlit("cpu_clock_last");
    assert("cpu_clock_avg"@.len() != "cpu_clock_last"@.len());
    reveal_strlit("cpu_voltage");
    assert("cpu_clock_avg"@.len() != "cpu_voltage"@.len());
    reveal_strlit("gpu_name");
    assert("cpu_clock_avg"@.len() != "gpu_name"@.len());
    reveal_strlit("gpu_temperature");
    assert("cpu_clock_avg"@.len() != "gpu_temperature"@.len());
    reveal_strlit("gpu_power");
    assert("cpu_clock_avg"@.len() != "gpu_power"@.len());
    reveal_strlit("gpu_clock_rms");
    assert("cpu_clock_avg"@[0] != "gpu_clock_rms"@[0]);
    reveal_strlit("mem_used");
    assert("cpu_clock_avg"@.len() != "mem_used"@.len());
    reveal_strlit("mem_available");
    assert("cpu_clock_avg"@[0] != "mem_available"@[0]);
    reveal_strlit("mem_total");
    assert("cpu_clock_avg"@.len() != "mem_total"@.len());
    reveal_strlit("mem_swap_total");
    assert("cpu_clock_avg"@.len() != "mem_swap_total"@.len());
    reveal_strlit("mem_swap_used");
    assert("cpu_clock_avg"@[0] != "mem_swap_used"@[0]);
    let p = publications(staged);
    assert forall|i: int| 0 <= i < p.len() && i != 12 implies (#[trigger] p[i]).0 != "cpu_clock_avg"@ by {}
    lemma_published_once(p, 12, "cpu_clock_avg"@, before);
}

proof fn lemma_publishes_cpu_voltage(staged: Device, before: Option<DataValue>)
    ensures
        published_after(publications(staged), "cpu_voltage"@, before) == (match staged.cpu.voltage { Some(x) => Some(DataValue::Float(x.bits)), None => before }),
{
    reveal_strlit("cpu_voltage");
    reveal_strlit("bat_capacity_designed");
    assert("cpu_voltage"@.len() != "bat_capacity_designed"@.len());
    reveal_strlit("bat_capacity_max");
    assert("cpu_voltage"@.len() != "bat_capacity_max"@.len());
    reveal_strlit("bat_capacity_remain");
    assert("cpu_voltage"@.len() != "bat_capacity_remain"@.len());
    reveal_strlit("bat_voltage");
    assert("cpu_voltage"@[0] != "bat_voltage"@[0]);
    reveal_strlit("bat_rate");
    assert("cpu_voltage"@.len() != "bat_rate"@.len());
    reveal_strlit("bat_state");
    assert("cpu_voltage"@.len() != "bat_state"@.len());
    reveal_strlit("cpu_name");
    assert("cpu_voltage"@.len() != "cpu_name"@.len());
    reveal_strlit("cpu_usage");
    assert("cpu_voltage"@.len() != "cpu_usage"@.len());
    reveal_strlit("cpu_temperature");
    assert("cpu_voltage"@.len() != "cpu_temperature"@.len());
    reveal_strlit("cpu_power");
    assert("cpu_voltage"@.len() != "cpu_power"@.len());
    reveal_strlit("cpu_clock_first");
    assert("cpu_voltage"@.len() != "cpu_clock_first"@.len());
    reveal_strlit("cpu_clock_last");
    assert("cpu_voltage"@.len() != "cpu_clock_last"@.len());
    reveal_strlit("cpu_clock_avg");
    assert("cpu_voltage"@.len() != "cpu_clock_avg"@.len());
    reveal_strlit("gpu_name");
    assert("cpu_voltage"@.len() != "gpu_name"@.len());
    reveal_strlit("gpu_temperature");
    assert("cpu_voltage"@.len() != "gpu_temperature"@.len());
    reveal_strlit("gpu_power");
    assert("cpu_voltage"@.len() != "gpu_power"@.len());
    reveal_strlit("gpu_clock_rms");
    assert("cpu_voltage"@.len() != "gpu_clock_rms"@.len());
    reveal_strlit("mem_used");
    assert("cpu_voltage"@.len() != "mem_used"@.len());
    reveal_strlit("mem_available");
    assert("cpu_voltage"@.len() != "mem_available"@.len());
    reveal_strlit("mem_total");
    assert("cpu_voltage"@.len() != "mem_total"@.len());
    reveal_strlit("mem_swap_total");
    assert("cpu_voltage"@.len() != "mem_swap_total"@.len());
    reveal_strlit("mem_swap_used");
    assert("cpu_voltage"@.len() != "mem_swap_used"@.len());
    let p = publications(staged);
    assert forall|i: int| 0 <= i < p.len() && i != 13 implies (#[trigger] p[i]).0 != "cpu_voltage"@ by {}
    lemma_published_once(p, 13, "cpu_voltage"@, before);
}

proof fn lemma_publishes_gpu_name(staged: Device, before: Option<DataValue>)
    ensures
        published_after(publications(staged), "gpu_name"@, before) == (match staged.gpu.name { Some(x) => Some(DataValue::Text(x@)), None => before }),
{
    reveal_strlit("gpu_name");
    reveal_strlit("bat_capacity_designed");
    assert("gpu_name"@.len() != "bat_capacity_designed"@.len());
    reveal_strlit("bat_capacity_max");
    assert("gpu_name"@.len() != "bat_capacity_max"@.len());
    reveal_strlit("bat_capacity_remain");
    assert("gpu_name"@.len() != "bat_capacity_remain"@.len());
    reveal_strlit("bat_voltage");
    assert("gpu_name"@.len() != "bat_voltage"@.len());
    reveal_strlit("bat_rate");
    assert("gpu_name"@[0] != "bat_rate"@[0]);
    reveal_strlit("bat_state");
    assert("gpu_name"@.len() != "bat_state"@.len());
    reveal_strlit("cpu_name");
    assert("gpu_name"@[0] != "cpu_name"@[0]);
    reveal_strlit("cpu_usage");
    assert("gpu_name"@.len() != "cpu_usage"@.len());
    reveal_strlit("cpu_temperature");
    assert("gpu_name"@.len() != "cpu_temperature"@.len());
    reveal_strlit("cpu_power");
    assert("gpu_name"@.len() != "cpu_power"@.len());
    reveal_strlit("cpu_clock_first");
    assert("gpu_name"@.len() != "cpu_clock_first"@.len());
    reveal_strlit("cpu_clock_last");
    assert("gpu_name"@.len() != "cpu_clock_last"@.len());
    reveal_strlit("cpu_clock_avg");
    assert("gpu_name"@.len() != "cpu_clock_avg"@.len());
    reveal_strlit("cpu_voltage");
    assert("gpu_name"@.len() != "cpu_voltage"@.len());
    reveal_strlit("gpu_temperature");
    assert("gpu_name"@.len() != "gpu_temperature"@.len());
    reveal_strlit("gpu_power");
    assert("gpu_name"@.len() != "gpu_power"@.len());
    reveal_strlit("gpu_clock_rms");
    assert("gpu_name"@.len() != "gpu_clock_rms"@.len());
    reveal_strlit("mem_used");
    assert("gpu_name"@[0] != "mem_used"@[0]);
    reveal_strlit("mem_available");
    assert("gpu_name"@.len() != "mem_available"@.len());
    reveal_strlit("mem_total");
    assert("gpu_name"@.len() != "mem_total"@.len());
    reveal_strlit("mem_swap_total");
    assert("gpu_name"@.len() != "mem_swap_total"@.len());
    reveal_strlit("mem_swap_used");
    assert("gpu_name"@.len() != "mem_swap_used"@.len());
    let p = publications(staged);
    assert forall|i: int| 0 <= i < p.len() && i != 14 implies (#[trigger] p[i]).0 != "gpu_name"@ by {}
    lemma_published_once(p, 14, "gpu_name"@, before);
}

proof fn lemma_publishes_gpu_temperature(staged: Device, before: Option<DataValue>)
    ensures
        published_after(publications(staged), "gpu_temperature"@, before) == (match staged.gpu.temperature { Some(x) => Some(DataValue::Float(x.bits)), None => before }),
{
    reveal_strlit("gpu_temperature");
    reveal_strlit("bat_capacity_designed");
    assert("gpu_temperature"@.len() != "bat_capacity_designed"@.len());
    reveal_strlit("bat_capacity_max");
    assert("gpu_temperature"@.len() != "bat_capacity_max"@.len());
    reveal_strlit("bat_capacity_remain");
    assert("gpu_temperature"@.len() != "bat_capacity_remain"@.len());
    reveal_strlit("bat_voltage");
    assert("gpu_temperature"@.len() != "bat_voltage"@.len());
    reveal_strlit("bat_rate");
    assert("gpu_temperature"@.len() != "bat_rate"@.len());
    reveal_strlit("bat_state");
    assert("gpu_temperature"@.len() != "bat_state"@.len());
    reveal_strlit("cpu_name");
    assert("gpu_temperature"@.len() != "cpu_name"@.len());
    reveal_strlit("cpu_usage");
    assert("gpu_temperature"@.len() != "cpu_usage"@.len());
    reveal_strlit("cpu_temperature");
    assert("gpu_temperature"@[0] != "cpu_temperature"@[0]);
    reveal_strlit("cpu_power");
    assert("gpu_temperature"@.len() != "cpu_power"@.len());
    reveal_strlit("cpu_clock_first");
    assert("gpu_temperature"@[0] != "cpu_clock_first"@[0]);
    reveal_strlit("cpu_clock_last");
    assert("gpu_temperature"@.len() != "cpu_clock_last"@.len());
    reveal_strlit("cpu_clock_avg");
    assert("gpu_temperature"@.len() != "cpu_clock_avg"@.len());
    reveal_strlit("cpu_voltage");
    assert("gpu_temperature"@.len() != "cpu_voltage"@.len());
    reveal_strlit("gpu_name");
    assert("gpu_temperature"@.len() != "gpu_name"@.len());
    reveal_strlit("gpu_power");
    assert("gpu_temperature"@.len() != "gpu_power"@.len());
    reveal_strlit("gpu_clock_rms");
    assert("gpu_temperature"@.len() != "gpu_clock_rms"@.len());
    reveal_strlit("mem_used");
    assert("gpu_temperature"@.len() != "mem_used"@.len());
    reveal_strlit("mem_available");
    assert("gpu_temperature"@.len() != "mem_available"@.len());
    reveal_strlit("mem_total");
    assert("gpu_temperature"@.len() != "mem_total"@.len());
    reveal_strlit("mem_swap_total");
    assert("gpu_temperature"@.len() != "mem_swap_total"@.len());
    reveal_strlit("mem_swap_used");
    assert("gpu_temperature"@.len() != "mem_swap_used"@.len());
    let p = publications(staged);
    assert forall|i: int| 0 <= i < p.len() && i != 15 implies (#[trigger] p[i]).0 != "gpu_temperature"@ by {}
    lemma_published_once(p, 15, "gpu_temperature"@, before);
}

proof fn lemma_publishes_gpu_power(staged: Device, before: Option<DataValue>)
    ensures
        published_after(publications(staged), "gpu_power"@, before) == (match staged.gpu.power { Some(x) => Some(DataValue::Float(x.bits)), None => before }),
{
    reveal_strlit("gpu_power");
    reveal_strlit("bat_capacity_designed");
    assert("gpu_power"@.len() != "bat_capacity_designed"@.len());
    reveal_strlit("bat_capacity_max");
    assert("gpu_power"@.len() != "bat_capacity_max"@.len());
    reveal_strlit("bat_capacity_remain");
    assert("gpu_power"@.len() != "bat_capacity_remain"@.len());
    reveal_strlit("bat_voltage");
    assert("gpu_power"@.len() != "bat_voltage"@.len());
    reveal_strlit("bat_rate");
    assert("gpu_power"@.len() != "bat_rate"@.len());
    reveal_strlit("bat_state");
    assert("gpu_power"@[0] != "bat_state"@[0]);
    reveal_strlit("cpu_name");
    assert("gpu_power"@.len() != "cpu_name"@.len());
    reveal_strlit("cpu_usage");
    assert("gpu_power"@[0] != "cpu_usage"@[0]);
    reveal_strlit("cpu_temperature");
    assert("gpu_power"@.len() != "cpu_temperature"@.len());
    reveal_strlit("cpu_power");
    assert("gpu_power"@[0] != "cpu_power"@[0]);
    reveal_strlit("cpu_clock_first");
    assert("gpu_power"@.len() != "cpu_clock_first"@.len());
    reveal_strlit("cpu_clock_last");
    assert("gpu_power"@.len() != "cpu_clock_last"@.len());
    reveal_strlit("cpu_clock_avg");
    assert("gpu_power"@.len() != "cpu_clock_avg"@.len());
    reveal_strlit("cpu_voltage");
    assert("gpu_power"@.len() != "cpu_voltage"@.len());
    reveal_strlit("gpu_name");
    assert("gpu_power"@.len() != "gpu_name"@.len());
    reveal_strlit("gpu_temperature");
    assert("gpu_power"@.len() != "gpu_temperature"@.len());
    reveal_strlit("gpu_clock_rms");
    assert("gpu_power"@.len() != "gpu_clock_rms"@.len());
    reveal_strlit("mem_used");
    assert("gpu_power"@.len() != "mem_used"@.len());
    reveal_strlit("mem_available");
    assert("gpu_power"@.len() != "mem_available"@.len());
    reveal_strlit("mem_total");
    assert("gpu_power"@[0] != "mem_total"@[0]);
    reveal_strlit("mem_swap_total");
    assert("gpu_power"@.len() != "mem_swap_total"@.len());
    reveal_strlit("mem_swap_used");
    assert("gpu_power"@.len() != "mem_swap_used"@.len());
    let p = publications(staged);
    assert forall|i: int| 0 <= i < p.len() && i != 16 implies (#[trigger] p[i]).0 != "gpu_power"@ by {}
    lemma_published_once(p, 16, "gpu_power"@, before);
}

proof fn lemma_publishes_gpu_clock_rms(staged: Device, before: Option<DataValue>)
    ensures
        published_after(publications(staged), "gpu_clock_rms"@, before) == (match staged.gpu.speed { Some(x) => Some(DataValue::Float(x.bits)), None => before }),
{
    reveal_strlit("gpu_clock_rms");
    reveal_strlit("bat_capacity_designed");
    assert("gpu_clock_rms"@.len() != "bat_capacity_designed"@.len());
    reveal_strlit("bat_capacity_max");
    assert("gpu_clock_rms"@.len() != "bat_capacity_max"@.len());
    reveal_strlit("bat_capacity_remain");
    assert("gpu_clock_rms"@.len() != "bat_capacity_remain"@.len());
    reveal_strlit("bat_voltage");
    assert("gpu_clock_rms"@.len() != "bat_voltage"@.len());
    reveal_strlit("bat_rate");
    assert("gpu_clock_rms"@.len() != "bat_rate"@.len());
    reveal_strlit("bat_state");
    assert("gpu_clock_rms"@.len() != "bat_state"@.len());
    reveal_strlit("cpu_name");
    assert("gpu_clock_rms"@.len() != "cpu_name"@.len());
    reveal_strlit("cpu_usage");
    assert("gpu_clock_rms"@.len() != "cpu_usage"@.len());
    reveal_strlit("cpu_temperature");
    assert("gpu_clock_rms"@.len() != "cpu_temperature"@.len());
    reveal_strlit("cpu_power");
    assert("gpu_clock_rms"@.len() != "cpu_power"@.len());
    reveal_strlit("cpu_clock_first");
    assert("gpu_clock_rms"@.len() != "cpu_clock_first"@.len());
    reveal_strlit("cpu_clock_last");
    assert("gpu_clock_rms"@.len() != "cpu_clock_last"@.len());
    reveal_strlit("cpu_clock_avg");
    assert("gpu_clock_rms"@[0] != "cpu_clock_avg"@[0]);
    reveal_strlit("cpu_voltage");
    assert("gpu_clock_rms"@.len() != "cpu_voltage"@.len());
    reveal_strlit("gpu_name");
    assert("gpu_clock_rms"@.len() != "gpu_name"@.len());
    reveal_strlit("gpu_temperature");
    assert("gpu_clock_rms"@.len() != "gpu_temperature"@.len());
    reveal_strlit("gpu_power");
    assert("gpu_clock_rms"@.len() != "gpu_power"@.len());
    reveal_strlit("mem_used");
    assert("gpu_clock_rms"@.len() != "mem_used"@.len());
    reveal_strlit("mem_available");
    assert("gpu_clock_rms"@[0] != "mem_available"@[0]);
    reveal_strlit("mem_total");
    assert("gpu_clock_rms"@.len() != "mem_total"@.len());
    reveal_strlit("mem_swap_total");
    assert("gpu_clock_rms"@.len() != "mem_swap_total"@.len());
    reveal_strlit("mem_swap_used");
    assert("gpu_clock_rms"@[0] != "mem_swap_used"@[0]);
    let p = publications(staged);
    assert forall|i: int| 0 <= i < p.len() && i != 17 implies (#[trigger] p[i]).0 != "gpu_clock_rms"@ by {}
    lemma_published_once(p, 17, "gpu_clock_rms"@, before);
}

proof fn lemma_publishes_mem_used(staged: Device, before: Option<DataValue>)
    ensures
        published_after(publications(staged), "mem_used"@, before) == (match staged.ram.used_size { Some(x) => Some(DataValue::Float(x.bits)), None => before }),
{
    reveal_strlit("mem_used");
    reveal_strlit("bat_capacity_designed");
    assert("mem_used"@.len() != "bat_capacity_designed"@.len());
    reveal_strlit("bat_capacity_max");
    assert("mem_used"@.len() != "bat_capacity_max"@.len());
    reveal_strlit("bat_capacity_remain");
    assert("mem_used"@.len() != "bat_capacity_remain"@.len());
    reveal_strlit("bat_voltage");
    assert("mem_used"@.len() != "bat_voltage"@.len());
    reveal_strlit("bat_rate");
    assert("mem_used"@[0] != "bat_rate"@[0]);
    reveal_strlit("bat_state");
    assert("mem_used"@.len() != "bat_state"@.len());
    reveal_strlit("cpu_name");
    assert("mem_used"@[0] != "cpu_name"@[0]);
    reveal_strlit("cpu_usage");
    assert("mem_used"@.len() != "cpu_usage"@.len());
    reveal_strlit("cpu_temperature");
    assert("mem_used"@.len() != "cpu_temperature"@.len());
    reveal_strlit("cpu_power");
    assert("mem_used"@.len() != "cpu_power"@.len());
    reveal_strlit("cpu_clock_first");
    assert("mem_used"@.len() != "cpu_clock_first"@.len());
    reveal_strlit("cpu_clock_last");
    assert("mem_used"@.len() != "cpu_clock_last"@.len());
    reveal_strlit("cpu_clock_avg");
    assert("mem_used"@.len() != "cpu_clock_avg"@.len());
    reveal_strlit("cpu_voltage");
    assert("mem_used"@.len() != "cpu_voltage"@.len());
    reveal_strlit("gpu_name");
    assert("mem_used"@[0] != "gpu_name"@[0]);
    reveal_strlit("gpu_temperature");
    assert("mem_used"@.len() != "gpu_temperature"@.len());
    reveal_strlit("gpu_power");
    assert("mem_used"@.len() != "gpu_power"@.len());
    reveal_strlit("gpu_clock_rms");
    assert("mem_used"@.len() != "gpu_clock_rms"@.len());
    reveal_strlit("mem_available");
    assert("mem_used"@.len() != "mem_available"@.len());
    reveal_strlit("mem_total");
    assert("mem_used"@.len() != "mem_total"@.len());
    reveal_strlit("mem_swap_total");
    assert("mem_used"@.len() != "mem_swap_total"@.len());
    reveal_strlit("mem_swap_used");
    assert("mem_used"@.len() != "mem_swap_used"@.len());
    let p = publications(staged);
    assert forall|i: int| 0 <= i < p.len() && i != 18 implies (#[trigger] p[i]).0 != "mem_used"@ by {}
    lemma_published_once(p, 18, "mem_used"@, before);
}

proof fn lemma_publishes_mem_available(staged: Device, before: Option<DataValue>)
    ensures
        published_after(publications(staged), "mem_available"@, before) == (match staged.ram.free_size { Some(x) => Some(DataValue::Float(x.bits)), None => before }),
{
    reveal_strlit("mem_available");
    reveal_strlit("bat_capacity_designed");
    assert("mem_available"@.len() != "bat_capacity_designed"@.len());
    reveal_strlit("bat_capacity_max");
    assert("mem_available"@.len() != "bat_capacity_max"@.len());
    reveal_strlit("bat_capacity_remain");
    assert("mem_available"@.len() != "bat_capacity_remain"@.len());
    reveal_strlit("bat_voltage");
    assert("mem_available"@.len() != "bat_voltage"@.len());
    reveal_strlit("bat_rate");
    assert("mem_available"@.len() != "bat_rate"@.len());
    reveal_strlit("bat_state");
    assert("mem_available"@.len() != "bat_state"@.len());
    reveal_strlit("cpu_name");
    assert("mem_available"@.len() != "cpu_name"@.len());
    reveal_strlit("cpu_usage");
    assert("mem_available"@.len() != "cpu_usage"@.len());
    reveal_strlit("cpu_temperature");
    assert("mem_available"@.len() != "cpu_temperature"@.len());
    reveal_strlit("cpu_power");
    assert("mem_available"@.len() != "cpu_power"@.len());
    reveal_strlit("cpu_clock_first");
    assert("mem_available"@.len() != "cpu_clock_first"@.len());
    reveal_strlit("cpu_clock_last");
    assert("mem_available"@.len() != "cpu_clock_last"@.len());
    reveal_strlit("cpu_clock_avg");
    assert("mem_available"@[0] != "cpu_clock_avg"@[0]);
    reveal_strlit("cpu_voltage");
    assert("mem_available"@.len() != "cpu_voltage"@.len());
    reveal_strlit("gpu_name");
    assert("mem_available"@.len() != "gpu_name"@.len());
    reveal_strlit("gpu_temperature");
    assert("mem_available"@.len() != "gpu_temperature"@.len());
    reveal_strlit("gpu_power");
    assert("mem_available"@.len() != "gpu_power"@.len());
    reveal_strlit("gpu_clock_rms");
    assert("mem_available"@[0] != "gpu_clock_rms"@[0]);
    reveal_strlit("mem_used");
    assert("mem_available"@.len() != "mem_used"@.len());
    reveal_strlit("mem_total");
    assert("mem_available"@.len() != "mem_total"@.len());
    reveal_strlit("mem_swap_total");
    assert("mem_available"@.len() != "mem_swap_total"@.len());
    reveal_strlit("mem_swap_used");
    assert("mem_available"@[4] != "mem_swap_used"@[4]);
    let p = publications(staged);
    assert forall|i: int| 0 <= i < p.len() && i != 19 implies (#[trigger] p[i]).0 != "mem_available"@ by {}
    lemma_published_once(p, 19, "mem_available"@, before);
}

proof fn lemma_publishes_mem_total(staged: Device, before: Option<DataValue>)
    ensures
        published_after(publications(staged), "mem_total"@, before) == (match staged.ram.total_size { Some(x) => Some(DataValue::Float(x.bits)), None => before }),
{
    reveal_strlit("mem_total");
    reveal_strlit("bat_capacity_designed");
    assert("mem_total"@.len() != "bat_capacity_designed"@.len());
    reveal_strlit("bat_capacity_max");
    assert("mem_total"@.len() != "bat_capacity_max"@.len());
    reveal_strlit("bat_capacity_remain");
    assert("mem_total"@.len() != "bat_capacity_remain"@.len());
    reveal_strlit("bat_voltage");
    assert("mem_total"@.len() != "bat_voltage"@.len());
    reveal_strlit("bat_rate");
    assert("mem_total"@.len() != "bat_rate"@.len());
    reveal_strlit("bat_state");
    assert("mem_total"@[0] != "bat_state"@[0]);
    reveal_strlit("cpu_name");
    assert("mem_total"@.len() != "cpu_name"@.len());
    reveal_strlit("cpu_usage");
    assert("mem_total"@[0] != "cpu_usage"@[0]);
    reveal_strlit("cpu_temperature");
    assert("mem_total"@.len() != "cpu_temperature"@.len());
    reveal_strlit("cpu_power");
    assert("mem_total"@[0] != "cpu_power"@[0]);
    reveal_strlit("cpu_clock_first");
    assert("mem_total"@.len() != "cpu_clock_first"@.len());
    reveal_strlit("cpu_clock_last");
    assert("mem_total"@.len() != "cpu_clock_last"@.len());
    reveal_strlit("cpu_clock_avg");
    assert("mem_total"@.len() != "cpu_clock_avg"@.len());
    reveal_strlit("cpu_voltage");
    assert("mem_total"@.len() != "cpu_voltage"@.len());
    reveal_strlit("gpu_name");
    assert("mem_total"@.len() != "gpu_name"@.len());
    reveal_strlit("gpu_temperature");
    assert("mem_total"@.len() != "gpu_temperature"@.len());
    reveal_strlit("gpu_power");
    assert("mem_total"@[0] != "gpu_power"@[0]);
    reveal_strlit("gpu_clock_rms");
    assert("mem_total"@.len() != "gpu_clock_rms"@.len());
    reveal_strlit("mem_used");
    assert("mem_total"@.len() != "mem_used"@.len());
    reveal_strlit("mem_available");
    assert("mem_total"@.len() != "mem_available"@.len());
    reveal_strlit("mem_swap_total");
    assert("mem_total"@.len() != "mem_swap_total"@.len());
    reveal_strlit("mem_swap_used");
    assert("mem_total"@.len() != "mem_swap_used"@.len());
    let p = publications(staged);
    assert forall|i: int| 0 <= i < p.len() && i != 20 implies (#[trigger] p[i]).0 != "mem_total"@ by {}
    lemma_published_once(p, 20, "mem_total"@, before);
}

proof fn lemma_publishes_mem_swap_total(staged: Device, before: Option<DataValue>)
    ensures
        published_after(publications(staged), "mem_swap_total"@, before) == (match staged.ram.total_swap { Some(x) => Some(DataValue::Float(x.bits)), None => before }),
{
    reveal_strlit("mem_swap_total");
    reveal_strlit("bat_capacity_designed");
    assert("mem_swap_total"@.len() != "bat_capacity_designed"@.len());
    reveal_strlit("bat_capacity_max");
    assert("mem_swap_total"@.len() != "bat_capacity_max"@.len());
    reveal_strlit("bat_capacity_remain");
    assert("mem_swap_total"@.len() != "bat_capacity_remain"@.len());
    reveal_strlit("bat_voltage");
    assert("mem_swap_total"@.len() != "bat_voltage"@.len());
    reveal_strlit("bat_rate");
    assert("mem_swap_total"@.len() != "bat_rate"@.len());
    reveal_strlit("bat_state");
    assert("mem_swap_total"@.len() != "bat_state"@.len());
    reveal_strlit("cpu_name");
    assert("mem_swap_total"@.len() != "cpu_name"@.len());
    reveal_strlit("cpu_usage");
    assert("mem_swap_total"@.len() != "cpu_usage"@.len());
    reveal_strlit("cpu_temperature");
    assert("mem_swap_total"@.len() != "cpu_temperature"@.len());
    reveal_strlit("cpu_power");
    assert("mem_swap_total"@.len() != "cpu_power"@.len());
    reveal_strlit("cpu_clock_first");
    assert("mem_swap_total"@.len() != "cpu_clock_first"@.len());
    reveal_strlit("cpu_clock_last");
    assert("mem_swap_total"@[0] != "cpu_clock_last"@[0]);
    reveal_strlit("cpu_clock_avg");
    assert("mem_swap_total"@.len() != "cpu_clock_avg"@.len());
    reveal_strlit("cpu_voltage");
    assert("mem_swap_total"@.len() != "cpu_voltage"@.len());
    reveal_strlit("gpu_name");
    assert("mem_swap_total"@.len() != "gpu_name"@.len());
    reveal_strlit("gpu_temperature");
    assert("mem_swap_total"@.len() != "gpu_temperature"@.len());
    reveal_strlit("gpu_power");
    assert("mem_swap_total"@.len() != "gpu_power"@.len());
    reveal_strlit("gpu_clock_rms");
    assert("mem_swap_total"@.len() != "gpu_clock_rms"@.len());
    reveal_strlit("mem_used");
    assert("mem_swap_total"@.len() != "mem_used"@.len());
    reveal_strlit("mem_available");
    assert("mem_swap_total"@.len() != "mem_available"@.len());
    reveal_strlit("mem_total");
    assert("mem_swap_total"@.len() != "mem_total"@.len());
    reveal_strlit("mem_swap_used");
    assert("mem_swap_total"@.len() != "mem_swap_used"@.len());
    let p = publications(staged);
    assert forall|i: int| 0 <= i < p.len() && i != 21 implies (#[trigger] p[i]).0 != "mem_swap_total"@ by {}
    lemma_published_once(p, 21, "mem_swap_total"@, before);
}

proof fn lemma_publishes_mem_swap_used(staged: Device, before: Option<DataValue>)
    ensures
        published_after(publications(staged), "mem_swap_used"@, before) == (match staged.ram.used_swap { Some(x) => Some(DataValue::Float(x.bits)), None => before }),
{
    reveal_strlit("mem_swap_used");
    reveal_strlit("bat_capacity_designed");
    assert("mem_swap_used"@.len() != "bat_capacity_designed"@.len());
    reveal_strlit("bat_capacity_max");
    assert("mem_swap_used"@.len() != "bat_capacity_max"@.len());
    reveal_strlit("bat_capacity_remain");
    assert("mem_swap_used"@.len() != "bat_capacity_remain"@.len());
    reveal_strlit("bat_voltage");
    assert("mem_swap_used"@.len() != "bat_voltage"@.len());
    reveal_strlit("bat_rate");
    assert("mem_swap_used"@.len() != "bat_rate"@.len());
    reveal_strlit("bat_state");
    assert("mem_swap_used"@.len() != "bat_state"@.len());
    reveal_strlit("cpu_name");
    assert("mem_swap_used"@.len() != "cpu_name"@.len());
    reveal_strlit("cpu_usage");
    assert("mem_swap_used"@.len() != "cpu_usage"@.len());
    reveal_strlit("cpu_temperature");
    assert("mem_swap_used"@.len() != "cpu_temperature"@.len());
    reveal_strlit("cpu_power");
    assert("mem_swap_used"@.len() != "cpu_power"@.len());
    reveal_strlit("cpu_clock_first");
    assert("mem_swap_used"@.len() != "cpu_clock_first"@.len());
    reveal_strlit("cpu_clock_last");
    assert("mem_swap_used"@.len() != "cpu_clock_last"@.len());
    reveal_strlit("cpu_clock_avg");
    assert("mem_swap_used"@[0] != "cpu_clock_avg"@[0]);
    reveal_strlit("cpu_voltage");
    assert("mem_swap_used"@.len() != "cpu_voltage"@.len());
    reveal_strlit("gpu_name");
    assert("mem_swap_used"@.len() != "gpu_name"@.len());
    reveal_strlit("gpu_temperature");
    assert("mem_swap_used"@.len() != "gpu_temperature"@.len());
    reveal_strlit("gpu_power");
    assert("mem_swap_used"@.len() != "gpu_power"@.len());
    reveal_strlit("gpu_clock_rms");
    assert("mem_swap_used"@[0] != "gpu_clock_rms"@[0]);
    reveal_strlit("mem_used");
    assert("mem_swap_used"@.len() != "mem_used"@.len());
    reveal_strlit("mem_available");
    assert("mem_swap_used"@[4] != "mem_available"@[4]);
    reveal_strlit("mem_total");
    assert("mem_swap_used"@.len() != "mem_total"@.len());
    reveal_strlit("mem_swap_total");
    assert("mem_swap_used"@.len() != "mem_swap_total"@.len());
    let p = publications(staged);
    assert forall|i: int| 0 <= i < p.len() && i != 22 implies (#[trigger] p[i]).0 != "mem_swap_used"@ by {}
    lemma_published_once(p, 22, "mem_swap_used"@, before);
}

/// What a commit publishes under each key it publishes: the staged value of
/// the field the key names when one was staged, and what was published
/// before otherwise.
pub proof fn law_publication_keys(staged: Device, before: Option<DataValue>)
    ensures
        published_after(publications(staged), "bat_capacity_designed"@, before) == (match staged.battery.designed_capacity { Some(x) => Some(DataValue::Float(x.bits)), None => before }),
        published_after(publications(staged), "bat_capacity_max"@, before) == (match staged.battery.actually_capacity { Some(x) => Some(DataValue::Float(x.bits)), None => before }),
        published_after(publications(staged), "bat_capacity_remain"@, before) == (match staged.battery.remain_capacity { Some(x) => Some(DataValue::Float(x.bits)), None => before }),
        published_after(publications(staged), "bat_voltage"@, before) == (match staged.battery.voltage { Some(x) => Some(DataValue::Float(x.bits)), None => before }),
        published_after(publications(staged), "bat_rate"@, before) == (match staged.battery.rate { Some(x) => Some(DataValue::Float(x.bits)), None => before }),
        published_after(publications(staged), "bat_state"@, before) == (match staged.battery.is_charging { Some(x) => Some(DataValue::Boolean(x)), None => before }),
        published_after(publications(staged), "cpu_name"@, before) == (match staged.cpu.name { Some(x) => Some(DataValue::Text(x@)), None => before }),
        published_after(publications(staged), "cpu_usage"@, before) == (match staged.cpu.usage { Some(x) => Some(DataValue::Float(x.bits)), None => before }),
        published_after(publications(staged), "cpu_temperature"@, before) == (match staged.cpu.package_temperature { Some(x) => Some(DataValue::Float(x.bits)), None => before }),
        published_after(publications(staged), "cpu_power"@, before) == (match staged.cpu.power { Some(x) => Some(DataValue::Float(x.bits)), None => before }),
        published_after(publications(staged), "cpu_clock_first"@, before) == (match staged.cpu.clock_begin_index { Some(x) => Some(DataValue::Int(x)), None => before }),
        published_after(publications(staged), "cpu_clock_last"@, before) == (match staged.cpu.clock_end_index { Some(x) => Some(DataValue::Int(x)), None => before }),
        published_after(publications(staged), "cpu_clock_avg"@, before) == (match staged.cpu.clock { Some(x) => Some(DataValue::Float(x.bits)), None => before }),
        published_after(publications(staged), "cpu_voltage"@, before) == (match staged.cpu.voltage { Some(x) => Some(DataValue::Float(x.bits)), None => before }),
        published_after(publications(staged), "gpu_name"@, before) == (match staged.gpu.name { Some(x) => Some(DataValue::Text(x@)), None => before }),
        published_after(publications(staged), "gpu_temperature"@, before) == (match staged.gpu.temperature { Some(x) => Some(DataValue::Float(x.bits)), None => before }),
        published_after(publications(staged), "gpu_power"@, before) == (match staged.gpu.power { Some(x) => Some(DataValue::Float(x.bits)), None => before }),
        published_after(publications(staged), "gpu_clock_rms"@, before) == (match staged.gpu.speed { Some(x) => Some(DataValue::Float(x.bits)), None => before }),
        published_after(publications(staged), "mem_used"@, before) == (match staged.ram.used_size { Some(x) => Some(DataValue::Float(x.bits)), None => before }),
        published_after(publications(staged), "mem_available"@, before) == (match staged.ram.free_size { Some(x) => Some(DataValue::Float(x.bits)), None => before }),
        published_after(publications(staged), "mem_total"@, before) == (match staged.ram.total_size { Some(x) => Some(DataValue::Float(x.bits)), None => before }),
        published_after(publications(staged), "mem_swap_total"@, before) == (match staged.ram.total_swap { Some(x) => Some(DataValue::Float(x.bits)), None => before }),
        published_after(publications(staged), "mem_swap_used"@, before) == (match staged.ram.used_swap { Some(x) => Some(DataValue::Float(x.bits)), None => before }),
{
    lemma_publishes_bat_capacity_designed(staged, before);
    lemma_publishes_bat_capacity_max(staged, before);
    lemma_publishes_bat_capacity_remain(staged, before);
    lemma_publishes_bat_voltage(staged, before);
    lemma_publishes_bat_rate(staged, before);
    lemma_publishes_bat_state(staged, before);
    lemma_publishes_cpu_name(staged, before);
    lemma_publishes_cpu_usage(staged, before);
    lemma_publishes_cpu_temperature(staged, before);
    lemma_publishes_cpu_power(staged, before);
    lemma_publishes_cpu_clock_first(staged, before);
    lemma_publishes_cpu_clock_last(staged, before);
    lemma_publishes_cpu_clock_avg(staged, before);
    lemma_publishes_cpu_voltage(staged, before);
    lemma_publishes_gpu_name(staged, before);
    lemma_publishes_gpu_temperature(staged, before);
    lemma_publishes_gpu_power(staged, before);
    lemma_publishes_gpu_clock_rms(staged, before);
    lemma_publishes_mem_used(staged, before);
    lemma_publishes_mem_available(staged, before);
    lemma_publishes_mem_total(staged, before);
    lemma_publishes_mem_swap_total(staged, before);
    lemma_publishes_mem_swap_used(staged, before);
}

} // verus!
