//! CPU rows: loads, the CPU record of a snapshot, and the rows that join
//! a CPU record to the load of each core.

use vstd::prelude::*;

verus! {

/// Shares of CPU time by state, as single-precision bit patterns.
#[derive(Clone, Copy, Debug, PartialEq, Eq, Structural)]
pub struct CpuLoad {
    pub id_cpu_load: i32,
    pub user: u32,
    pub nice: u32,
    pub system: u32,
    pub interrupt: u32,
    pub idle: u32,
}

impl CpuLoad {
    /// A row that is not stored yet: its key is 0.
    pub fn new(user: u32, nice: u32, system: u32, interrupt: u32, idle: u32) -> (r: Self)
        ensures
            r == (CpuLoad {
                id_cpu_load: 0,
                user,
                nice,
                system,
                interrupt,
                idle,
            }),
    {
        CpuLoad {
            id_cpu_load: 0,
            user,
            nice,
            system,
            interrupt,
            idle,
        }
    }

    /// The row as stored, under the key that the storage generated.
    pub fn with_id(self, id: i32) -> (r: Self)
        ensures
            r == (CpuLoad { id_cpu_load: id, ..self }),
    {
        CpuLoad {
            id_cpu_load: id,
            user: self.user,
            nice: self.nice,
            system: self.system,
            interrupt: self.interrupt,
            idle: self.idle,
        }
    }
}

/// The CPU record of a snapshot; it names the row of its aggregate load.
#[derive(Clone, Copy, Debug, PartialEq, Eq, Structural)]
pub struct CpuInformation {
    pub id_cpu_information: i32,
    pub system_information_id: i32,
    pub temperature: u32,
    pub aggregate_load_id: i32,
}

impl CpuInformation {
    /// A row that is not stored yet: its key is 0.
    pub fn new(system_information_id: i32, temperature: u32, aggregate_load_id: i32) -> (r: Self)
        ensures
            r == (CpuInformation {
                id_cpu_information: 0,
                system_information_id,
                temperature,
                aggregate_load_id,
            }),
    {
        CpuInformation {
            id_cpu_information: 0,
            system_information_id,
            temperature,
            aggregate_load_id,
        }
    }

    /// The row as stored, under the key that the storage generated.
    pub fn with_id(self, id: i32) -> (r: Self)
        ensures
            r == (CpuInformation { id_cpu_information: id, ..self }),
    {
        CpuInformation {
            id_cpu_information: id,
            system_information_id: self.system_information_id,
            temperature: self.temperature,
            aggregate_load_id: self.aggregate_load_id,
        }
    }
}

/// Joins a CPU record to the load of one core.
#[derive(Clone, Copy, Debug, PartialEq, Eq, Structural)]
pub struct CpuCoreLoad {
    pub id_cpu_core_load: i32,
    pub cpu_information_id: i32,
    pub cpu_load_id: i32,
}

impl CpuCoreLoad {
    /// A row that is not stored yet: its key is 0.
    pub fn new(cpu_information_id: i32, cpu_load_id: i32) -> (r: Self)
        ensures
            r == (CpuCoreLoad {
                id_cpu_core_load: 0,
                cpu_information_id,
                cpu_load_id,
            }),
    {
        CpuCoreLoad {
            id_cpu_core_load: 0,
            cpu_information_id,
            cpu_load_id,
        }
    }

    /// The row as stored, under the key that the storage generated.
    pub fn with_id(self, id: i32) -> (r: Self)
        ensures
            r == (CpuCoreLoad { id_cpu_core_load: id, ..self }),
    {
        CpuCoreLoad {
            id_cpu_core_load: id,
            cpu_information_id: self.cpu_information_id,
            cpu_load_id: self.cpu_load_id,
        }
    }
}
} // verus!
