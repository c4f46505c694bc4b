//! The host's resources as the dashboard shows them.

use vstd::prelude::*;

verus! {

/// One sample of the host's resources. Sizes are in bytes, the uptime in
/// seconds.
#[derive(Debug, Clone, Copy, PartialEq, Eq, Structural)]
pub struct SystemStats {
    /// The load of the processors in percent: the bits of a 32-bit float,
    /// which the dashboard carries and does not compute with.
    pub cpu_usage_bits: u32,
    pub ram_used: u64,
    pub ram_total: u64,
    pub disk_used: u64,
    pub disk_total: u64,
    pub uptime: u64,
}

/// The bytes of a mebibyte.
pub const MIB: u64 = 1_048_576;

impl SystemStats {
    /// The sample that stands in before the host was asked: no load, nothing
    /// used, and totals of one byte so that a share of them can be taken.
    pub open spec fn placeholder() -> SystemStats {
        SystemStats {
            cpu_usage_bits: 0,
            ram_used: 0,
            ram_total: 1,
            disk_used: 0,
            disk_total: 1,
            uptime: 0,
        }
    }

    /// `bytes` in whole mebibytes.
    pub fn mebibytes(bytes: u64) -> (whole: u64)
        ensures
            whole == bytes / MIB,
    {
        bytes / 1024 / 1024
    }

    /// The uptime in whole hours and the minutes beyond them.
    pub fn uptime_hours_minutes(&self) -> (parts: (u64, u64))
        ensures
            parts.0 == self.uptime / 3600,
            parts.1 == (self.uptime / 60) % 60,
            parts.0 * 3600 + parts.1 * 60 <= self.uptime < parts.0 * 3600 + parts.1 * 60 + 60,
    {
        let minutes = self.uptime / 60;
        (minutes / 60, minutes % 60)
    }
}

impl Default for SystemStats {
    fn default() -> (stats: SystemStats)
        ensures
            stats == SystemStats::placeholder(),
    {
        SystemStats {
            cpu_usage_bits: 0,
            ram_used: 0,
            ram_total: 1,
            disk_used: 0,
            disk_total: 1,
            uptime: 0,
        }
    }
}

} // verus!
