use vstd::prelude::*;
use std::sync::atomic::{AtomicU32, Ordering};
use crate::gauge::{cpu_gauge, memory_gauge, within_scale, GAUGE_MAX};

verus! {

/// The two published gauges, shared between one sampling loop that writes
/// them and any number of readers.
///
/// Each gauge is a single atomic word, so a reader sees either the previous
/// or the newly published value, never a torn one. The two gauges are
/// published independently of each other.
pub struct SystemStats {
    cpu_usage: AtomicU32,
    memory_usage: AtomicU32,
}

impl SystemStats {
    /// Both gauges start at zero.
    pub fn new() -> SystemStats {
        SystemStats { cpu_usage: AtomicU32::new(0), memory_usage: AtomicU32::new(0) }
    }

    /// Publishes one round of readings: CPU in hundredths of a percent, and
    /// total and used physical memory in the same unit.
    pub fn publish(&self, cpu_scaled: u32, total_memory: u64, used_memory: u64) {
        let cpu = cpu_gauge(cpu_scaled);
        self.cpu_usage.store(cpu, Ordering::Relaxed);
        let memory = memory_gauge(total_memory, used_memory);
        self.memory_usage.store(memory, Ordering::Relaxed);
    }

    // Only `publish` writes the gauges, and it writes values within scale.
    // A loaded word carries no such fact of its own, so a read holds it to
    // scale once more; for a published value that changes nothing.

    /// The latest published CPU gauge, in [0, 10000].
    pub fn cpu_gauge(&self) -> (r: u32)
        ensures
            r <= GAUGE_MAX,
    {
        within_scale(self.cpu_usage.load(Ordering::Relaxed))
    }

    /// The latest published memory gauge, in [0, 10000].
    pub fn memory_gauge(&self) -> (r: u32)
        ensures
            r <= GAUGE_MAX,
    {
        within_scale(self.memory_usage.load(Ordering::Relaxed))
    }
}

} // verus!
