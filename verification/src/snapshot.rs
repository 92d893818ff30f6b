//! The record of one completed collection.

use crate::ratio::Ratio;
use vstd::prelude::*;

verus! {

/// The state of the machine at one moment.  A snapshot exists only once every
/// fact in it has been gathered: there is no empty or half-filled snapshot.
#[derive(Clone, Debug, PartialEq, Eq)]
pub struct SystemSnapshot {
    /// The name of the host.
    pub hostname: String,
    /// The seconds since the machine was started.
    pub uptime_seconds: u64,
    /// The name of the user who runs the collection.
    pub current_user: String,
    /// The utilisation of all processors together, in hundredths of a
    /// percent, as the source reported it.
    pub cpu_usage_hundredths: u64,
    /// The memory in use out of the memory installed, in bytes.
    pub memory_usage_ratio: Ratio,
    /// The bytes taken out of the bytes in total over all volumes.
    pub disk_usage_ratio: Ratio,
    /// The home directory of the current user.
    pub home_directory: String,
    /// The name of the operating system.
    pub os_name: String,
    /// The version of the kernel.
    pub kernel_version: String,
    /// The long description of the platform.
    pub architecture_descriptor: String,
    /// The number of physical cores; 0 where the platform could not tell.
    pub physical_core_count: u64,
    /// The number of processes.
    pub process_count: u64,
}

/// The mathematical value of a [`SystemSnapshot`].
pub struct SnapshotModel {
    pub hostname: Seq<char>,
    pub uptime_seconds: nat,
    pub current_user: Seq<char>,
    pub cpu_usage_hundredths: nat,
    pub used_memory_bytes: nat,
    pub total_memory_bytes: nat,
    pub used_disk_bytes: nat,
    pub total_disk_bytes: nat,
    pub home_directory: Seq<char>,
    pub os_name: Seq<char>,
    pub kernel_version: Seq<char>,
    pub architecture_descriptor: Seq<char>,
    pub physical_core_count: nat,
    pub process_count: nat,
}

impl SnapshotModel {
    /// Both totals are above zero, so both usage fractions are defined.
    pub open spec fn has_defined_ratios(self) -> bool {
        self.total_memory_bytes > 0 && self.total_disk_bytes > 0
    }

    /// The memory usage fraction lies in the closed interval from 0 to 1.
    pub open spec fn memory_ratio_in_unit_interval(self) -> bool {
        0 < self.total_memory_bytes && self.used_memory_bytes <= self.total_memory_bytes
    }

    /// The disk usage fraction lies in the closed interval from 0 to 1.
    pub open spec fn disk_ratio_in_unit_interval(self) -> bool {
        0 < self.total_disk_bytes && self.used_disk_bytes <= self.total_disk_bytes
    }
}

impl View for SystemSnapshot {
    type V = SnapshotModel;

    open spec fn view(&self) -> SnapshotModel {
        SnapshotModel {
            hostname: self.hostname@,
            uptime_seconds: self.uptime_seconds as nat,
            current_user: self.current_user@,
            cpu_usage_hundredths: self.cpu_usage_hundredths as nat,
            used_memory_bytes: self.memory_usage_ratio.part() as nat,
            total_memory_bytes: self.memory_usage_ratio.whole() as nat,
            used_disk_bytes: self.disk_usage_ratio.part() as nat,
            total_disk_bytes: self.disk_usage_ratio.whole() as nat,
            home_directory: self.home_directory@,
            os_name: self.os_name@,
            kernel_version: self.kernel_version@,
            architecture_descriptor: self.architecture_descriptor@,
            physical_core_count: self.physical_core_count as nat,
            process_count: self.process_count as nat,
        }
    }
}

impl SystemSnapshot {
    /// The memory installed, in bytes; never zero.
    pub fn total_memory_bytes(&self) -> (bytes: u64)
        ensures
            bytes == self@.total_memory_bytes,
            bytes > 0,
    {
        self.memory_usage_ratio.whole()
    }

    /// The bytes in total over all volumes; never zero.
    pub fn total_disk_bytes(&self) -> (bytes: u64)
        ensures
            bytes == self@.total_disk_bytes,
            bytes > 0,
    {
        self.disk_usage_ratio.whole()
    }
}

} // verus!
