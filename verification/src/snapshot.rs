//! Memory sample data model.
//!
//! [`SysData`] mirrors the shape in which the window host reports a raw
//! physical-memory query (total and used bytes plus a load percentage), and
//! [`MemorySnapshot`] is the validated, immutable sample the rest of the core
//! works with: its invariant guarantees `used_bytes <= total_bytes` and a load
//! percentage within `[0, 100]`.

use vstd::prelude::*;

verus! {

/// One raw physical-memory sample, as assembled from the operating system's
/// answer: used and total bytes of physical memory, and the OS-reported load
/// percentage.  Nothing is assumed about the relation of the fields; the
/// validated form is [`MemorySnapshot`].
#[derive(Clone, Copy, Debug, PartialEq, Eq)]
pub struct SysData {
    pub mem_used: u64,
    pub mem_total: u64,
    pub memory_load: u32,
}

impl SysData {
    /// Builds a sample from the raw figures a physical-memory query yields:
    /// the total number of bytes, the number of bytes still available, and
    /// the load percentage.  Used memory is total minus available; if the
    /// reported available exceeds the total (which a sane OS answer never
    /// does), used memory degrades to zero instead of underflowing.
    pub fn from_raw(total_phys: u64, avail_phys: u64, load: u32) -> (d: SysData)
        ensures
            d.mem_total == total_phys,
            d.memory_load == load,
            avail_phys <= total_phys ==> d.mem_used == total_phys - avail_phys,
            avail_phys > total_phys ==> d.mem_used == 0,
    {
        let used: u64 = if avail_phys <= total_phys {
            total_phys - avail_phys
        } else {
            0
        };
        SysData { mem_used: used, mem_total: total_phys, memory_load: load }
    }
}

impl Default for SysData {
    /// The all-zero sample, used when the memory query fails.
    fn default() -> (d: SysData)
        ensures
            d.mem_used == 0,
            d.mem_total == 0,
            d.memory_load == 0,
    {
        SysData { mem_used: 0, mem_total: 0, memory_load: 0 }
    }
}

/// One validated, immutable sample of physical-memory statistics.
#[derive(Clone, Copy, Debug, PartialEq, Eq)]
pub struct MemorySnapshot {
    pub total_bytes: u64,
    pub used_bytes: u64,
    pub load_percent: u32,
}

/// The all-zero snapshot: what a failed memory query degrades to.
pub open spec fn zero_snapshot() -> MemorySnapshot {
    MemorySnapshot { total_bytes: 0, used_bytes: 0, load_percent: 0 }
}

/// The snapshot a raw sample validates to: used bytes are capped at the
/// total, the load percentage at 100.
pub open spec fn snapshot_of_sys(d: SysData) -> MemorySnapshot {
    MemorySnapshot {
        total_bytes: d.mem_total,
        used_bytes: if d.mem_used <= d.mem_total {
            d.mem_used
        } else {
            d.mem_total
        },
        load_percent: if d.memory_load <= 100 {
            d.memory_load
        } else {
            100u32
        },
    }
}

/// What the metric sampler yields for a query outcome: the validated sample
/// on success, the all-zero snapshot when the query failed.
pub open spec fn spec_sample(q: Option<SysData>) -> MemorySnapshot {
    match q {
        Some(d) => snapshot_of_sys(d),
        None => zero_snapshot(),
    }
}

impl MemorySnapshot {
    /// The snapshot invariant: used memory never exceeds total memory, and
    /// the load percentage is within `[0, 100]`.
    pub open spec fn wf(self) -> bool {
        &&& self.used_bytes <= self.total_bytes
        &&& self.load_percent <= 100
    }

    /// The all-zero snapshot.
    pub fn zeroed() -> (s: MemorySnapshot)
        ensures
            s == zero_snapshot(),
            s.wf(),
    {
        MemorySnapshot { total_bytes: 0, used_bytes: 0, load_percent: 0 }
    }

    /// Validates a raw sample into a snapshot, establishing the invariant by
    /// capping used bytes at the total and the load percentage at 100.
    pub fn from_sys(d: &SysData) -> (s: MemorySnapshot)
        ensures
            s == snapshot_of_sys(*d),
            s.wf(),
    {
        MemorySnapshot {
            total_bytes: d.mem_total,
            used_bytes: if d.mem_used <= d.mem_total {
                d.mem_used
            } else {
                d.mem_total
            },
            load_percent: if d.memory_load <= 100 {
                d.memory_load
            } else {
                100
            },
        }
    }

    /// The metric sampler's decision: a failed query (`None`) degrades
    /// silently to the all-zero snapshot, a successful one is validated.
    pub fn sample_from(q: Option<SysData>) -> (s: MemorySnapshot)
        ensures
            s == spec_sample(q),
            s.wf(),
    {
        match q {
            Some(d) => MemorySnapshot::from_sys(&d),
            None => MemorySnapshot::zeroed(),
        }
    }
}

} // verus!
