//! An earlier model of the machine, filled in a staging copy and committed
//! in one step.

use vstd::prelude::*;
use crate::util::data_container::Float64;

verus! {

/// The machine, part by part.
#[derive(Debug, Clone, PartialEq)]
pub struct Device {
    pub battery: Battery,
    pub cpu: CPU,
    pub gpu: GPU,
    pub ram: RAM,
    pub fans: Fans,
    pub motherboard: Motherboard,
    pub disk: Disk,
    pub network: Network,
}

impl Device {
    /// Nothing is known of the machine.
    pub open spec fn is_blank(&self) -> bool {
        &&& self.battery.is_blank()
        &&& self.cpu.is_blank()
        &&& self.gpu.is_blank()
        &&& self.ram.is_blank()
        &&& self.fans.fan_speed is None
        &&& self.motherboard.is_blank()
    }
}

impl Default for Device {
    /// Nothing known yet.
    fn default() -> (d: Self)
        ensures
            d.is_blank(),
    {
        Device {
            battery: Battery::default(),
            cpu: CPU::default(),
            gpu: GPU::default(),
            ram: RAM::default(),
            fans: Fans { fan_speed: None },
            motherboard: Motherboard::default(),
            disk: Disk,
            network: Network,
        }
    }
}

/// The battery.
#[derive(Debug, Clone, PartialEq)]
pub struct Battery {
    pub designed_capacity: Option<Float64>,
    pub actually_capacity: Option<Float64>,
    pub remain_capacity: Option<Float64>,
    pub voltage: Option<Float64>,
    pub current: Option<Float64>,
    pub rate: Option<Float64>,
    pub is_charging: Option<bool>,
}

impl Battery {
    /// Nothing is known of this part.
    pub open spec fn is_blank(&self) -> bool {
        &&& self.designed_capacity is None
        &&& self.actually_capacity is None
        &&& self.remain_capacity is None
        &&& self.voltage is None
        &&& self.current is None
        &&& self.rate is None
        &&& self.is_charging is None
    }
}

impl Default for Battery {
    /// Nothing known yet.
    fn default() -> (r: Self)
        ensures
            r.is_blank(),
    {
        Battery {
            designed_capacity: None,
            actually_capacity: None,
            remain_capacity: None,
            voltage: None,
            current: None,
            rate: None,
            is_charging: None,
        }
    }
}

/// The processor.
#[derive(Debug, Clone, PartialEq)]
pub struct CPU {
    pub name: Option<String>,
    pub usage: Option<Float64>,
    pub package_temperature: Option<Float64>,
    pub average_temperature: Option<Float64>,
    pub power: Option<Float64>,
    pub clock_begin_index: Option<i32>,
    pub clock_end_index: Option<i32>,
    pub clock: Option<Float64>,
    pub load: Option<Float64>,
    pub voltage: Option<Float64>,
}

impl CPU {
    /// Nothing is known of this part.
    pub open spec fn is_blank(&self) -> bool {
        &&& self.name is None
        &&& self.usage is None
        &&& self.package_temperature is None
        &&& self.average_temperature is None
        &&& self.power is None
        &&& self.clock_begin_index is None
        &&& self.clock_end_index is None
        &&& self.clock is None
        &&& self.load is None
        &&& self.voltage is None
    }
}

impl Default for CPU {
    /// Nothing known yet.
    fn default() -> (r: Self)
        ensures
            r.is_blank(),
    {
        CPU {
            name: None,
            usage: None,
            package_temperature: None,
            average_temperature: None,
            power: None,
            clock_begin_index: None,
            clock_end_index: None,
            clock: None,
            load: None,
            voltage: None,
        }
    }
}

/// The graphics processor.
#[derive(Debug, Clone, PartialEq)]
pub struct GPU {
    pub name: Option<String>,
    pub temperature: Option<Float64>,
    pub max_temperature: Option<Float64>,
    pub power: Option<Float64>,
    pub speed: Option<Float64>,
    pub mem_total: Option<Float64>,
    pub mem_free: Option<Float64>,
    pub mem_used: Option<Float64>,
    pub mem_usage: Option<Float64>,
}

impl GPU {
    /// Nothing is known of this part.
    pub open spec fn is_blank(&self) -> bool {
        &&& self.name is None
        &&& self.temperature is None
        &&& self.max_temperature is None
        &&& self.power is None
        &&& self.speed is None
        &&& self.mem_total is None
        &&& self.mem_free is None
        &&& self.mem_used is None
        &&& self.mem_usage is None
    }
}

impl Default for GPU {
    /// Nothing known yet.
    fn default() -> (r: Self)
        ensures
            r.is_blank(),
    {
        GPU {
            name: None,
            temperature: None,
            max_temperature: None,
            power: None,
            speed: None,
            mem_total: None,
            mem_free: None,
            mem_used: None,
            mem_usage: None,
        }
    }
}

/// The memory.
#[derive(Debug, Clone, PartialEq)]
pub struct RAM {
    pub used_size: Option<Float64>,
    pub free_size: Option<Float64>,
    pub total_size: Option<Float64>,
    pub total_swap: Option<Float64>,
    pub used_swap: Option<Float64>,
    pub free_swap: Option<Float64>,
}

impl RAM {
    /// Nothing is known of this part.
    pub open spec fn is_blank(&self) -> bool {
        &&& self.used_size is None
        &&& self.free_size is None
        &&& self.total_size is None
        &&& self.total_swap is None
        &&& self.used_swap is None
        &&& self.free_swap is None
    }
}

impl Default for RAM {
    /// Nothing known yet.
    fn default() -> (r: Self)
        ensures
            r.is_blank(),
    {
        RAM {
            used_size: None,
            free_size: None,
            total_size: None,
            total_swap: None,
            used_swap: None,
            free_swap: None,
        }
    }
}

/// The motherboard.
#[derive(Debug, Clone, PartialEq)]
pub struct Motherboard {
    pub name: Option<String>,
}

impl Motherboard {
    /// Nothing is known of this part.
    pub open spec fn is_blank(&self) -> bool {
        &&& self.name is None
    }
}

impl Default for Motherboard {
    /// Nothing known yet.
    fn default() -> (r: Self)
        ensures
            r.is_blank(),
    {
        Motherboard {
            name: None,
        }
    }
}

/// The fans, by their speeds in RPM.
#[derive(Debug, Clone, PartialEq)]
pub struct Fans {
    pub fan_speed: Option<Vec<i32>>,
}

/// The disks.
#[derive(Debug, Clone, Copy, PartialEq, Eq, Structural)]
pub struct Disk;

/// The network.
#[derive(Debug, Clone, Copy, PartialEq, Eq, Structural)]
pub struct Network;

} // verus!
