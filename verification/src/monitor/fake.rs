//! A sensor reader that makes up a fixed machine, for running the engine
//! where no real sensors can be read.

use vstd::prelude::*;
use crate::EngineError;
use crate::monitor::model::Model;
use crate::util::data_container::Float64;

verus! {

/// Whether `o` holds the float with the bit pattern `bits`.
pub open spec fn float_is(o: Option<Float64>, bits: u64) -> bool {
    o == Some(Float64 { bits })
}

/// Whether `o` holds the text `t`.
pub open spec fn text_is(o: Option<String>, t: Seq<char>) -> bool {
    o matches Some(s) && s@ == t
}

/// Whether the model shows the made-up machine (floats by their IEEE-754
/// bit patterns: 100.0, 95.0, 80.0, 12.0 and so on).
pub open spec fn shows_fake_readings(m: Model) -> bool {
    &&& text_is(m.system.os_name, "fake-os"@)
    &&& text_is(m.system.os_version, "0.0"@)
    &&& text_is(m.system.kernel_version, "0.0"@)
    &&& text_is(m.system.host_name, "fake-host"@)
    &&& m.system.is_activated == Some(true)
    &&& float_is(m.battery.designed_capacity, 0x4059000000000000)
    &&& float_is(m.battery.actually_capacity, 0x4057c00000000000)
    &&& float_is(m.battery.remain_capacity, 0x4054000000000000)
    &&& float_is(m.battery.voltage, 0x4028000000000000)
    &&& float_is(m.battery.current, 0x3ff0000000000000)
    &&& float_is(m.battery.rate, 0x403e000000000000)
    &&& m.battery.is_charging == Some(false)
    &&& text_is(m.cpu.name, "fake-cpu"@)
    &&& float_is(m.cpu.usage, 0x4024000000000000)
    &&& float_is(m.cpu.package_temperature, 0x4046800000000000)
    &&& float_is(m.cpu.average_temperature, 0x4045000000000000)
    &&& float_is(m.cpu.power, 0x4034000000000000)
    &&& float_is(m.cpu.clock, 0x400999999999999a)
    &&& float_is(m.cpu.load, 0x4024000000000000)
    &&& float_is(m.cpu.voltage, 0x3ff199999999999a)
    &&& text_is(m.gpu.name, "fake-gpu"@)
    &&& float_is(m.gpu.power_usage, 0x4041800000000000)
    &&& float_is(m.gpu.temperature, 0x4049000000000000)
    &&& m.gpu.clock == Some(1200i32)
    &&& m.gpu.mem_clock == Some(1600i32)
    &&& float_is(m.ram.total_size, 0x4030000000000000)
    &&& float_is(m.ram.used_size, 0x4020000000000000)
    &&& float_is(m.ram.free_size, 0x4020000000000000)
    &&& float_is(m.ram.total_swap, 0x4020000000000000)
    &&& float_is(m.ram.used_swap, 0x3ff0000000000000)
    &&& float_is(m.ram.free_swap, 0x401c000000000000)
    &&& m.fans.cpu_speed == Some(1200i32)
    &&& m.fans.gpu_speed == Some(1000i32)
    &&& m.fans.mid_speed == Some(900i32)
    &&& text_is(m.motherboard.name, "fake-board"@)
}

/// Whether `after` keeps every field of `before` that the made-up machine
/// does not set.
pub open spec fn keeps_unset_fields(before: Model, after: Model) -> bool {
    &&& after.system.package_manager == before.system.package_manager
    &&& after.cpu.clock_begin_index == before.cpu.clock_begin_index
    &&& after.cpu.clock_end_index == before.cpu.clock_end_index
    &&& after.gpu.max_temperature == before.gpu.max_temperature
    &&& after.gpu.power == before.gpu.power
    &&& after.gpu.speed == before.gpu.speed
    &&& after.gpu.mem_total == before.gpu.mem_total
    &&& after.gpu.mem_free == before.gpu.mem_free
    &&& after.gpu.mem_used == before.gpu.mem_used
    &&& after.gpu.mem_usage == before.gpu.mem_usage
    &&& after.disk == before.disk
}

fn float(bits: u64) -> (f: Option<Float64>)
    ensures
        f == Some(Float64 { bits }),
{
    Some(Float64 { bits })
}

fn text(t: &str) -> (s: Option<String>)
    ensures
        text_is(s, t@),
{
    Some(String::from_str(t))
}

/// The made-up sensor reader.
#[derive(Debug)]
pub struct Fake {}

impl Fake {
    /// Brings the made-up reader up; this cannot fail.
    pub fn build() -> (r: Result<Fake, EngineError>)
        ensures
            r is Ok,
    {
        Ok(Fake {})
    }

    /// Fills in the made-up machine once, at start.
    pub fn update_once(&mut self, device: &mut Model) -> (r: Result<(), EngineError>)
        ensures
            r is Ok,
            shows_fake_readings(*final(device)),
            keeps_unset_fields(*old(device), *final(device)),
    {
        device.system.os_name = text("fake-os");
        device.system.os_version = text("0.0");
        device.system.kernel_version = text("0.0");
        device.system.host_name = text("fake-host");
        device.system.is_activated = Some(true);

        device.battery.designed_capacity = float(0x4059000000000000);
        device.battery.actually_capacity = float(0x4057c00000000000);
        device.battery.remain_capacity = float(0x4054000000000000);
        device.battery.voltage = float(0x4028000000000000);
        device.battery.current = float(0x3ff0000000000000);
        device.battery.rate = float(0x403e000000000000);
        device.battery.is_charging = Some(false);

        device.cpu.name = text("fake-cpu");
        device.cpu.usage = float(0x4024000000000000);
        device.cpu.package_temperature = float(0x4046800000000000);
        device.cpu.average_temperature = float(0x4045000000000000);
        device.cpu.power = float(0x4034000000000000);
        device.cpu.clock = float(0x400999999999999a);
        device.cpu.load = float(0x4024000000000000);
        device.cpu.voltage = float(0x3ff199999999999a);

        device.gpu.name = text("fake-gpu");
        device.gpu.power_usage = float(0x4041800000000000);
        device.gpu.temperature = float(0x4049000000000000);
        device.gpu.clock = Some(1200);
        device.gpu.mem_clock = Some(1600);

        device.ram.total_size = float(0x4030000000000000);
        device.ram.used_size = float(0x4020000000000000);
        device.ram.free_size = float(0x4020000000000000);
        device.ram.total_swap = float(0x4020000000000000);
        device.ram.used_swap = float(0x3ff0000000000000);
        device.ram.free_swap = float(0x401c000000000000);

        device.fans.cpu_speed = Some(1200);
        device.fans.gpu_speed = Some(1000);
        device.fans.mid_speed = Some(900);

        device.motherboard.name = text("fake-board");

        Ok(())
    }

    /// Nothing changes slowly on the made-up machine.
    pub fn update_slow(&mut self, device: &mut Model) -> (r: Result<(), EngineError>)
        ensures
            r is Ok,
            *final(device) == *old(device),
    {
        Ok(())
    }

    /// Nothing changes on the made-up machine.
    pub fn update(&mut self, device: &mut Model) -> (r: Result<(), EngineError>)
        ensures
            r is Ok,
            *final(device) == *old(device),
    {
        Ok(())
    }

    /// Nothing has to be released.
    pub fn shutdown(&mut self) -> (r: Result<(), EngineError>)
        ensures
            r is Ok,
    {
        Ok(())
    }
}

} // verus!
