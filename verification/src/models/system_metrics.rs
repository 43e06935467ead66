use crate::models::payloads::{MetricPayload, ARGENTINA_OFFSET_SECS};
use vstd::prelude::*;

verus! {

/// One reading of a machine: `f32` bit patterns (`f32::to_bits`) of CPU use,
/// RAM use, disk use and temperature.
#[derive(Debug, Clone, Copy, PartialEq, Eq, Default)]
pub struct SystemMetrics {
    pub cpu_usage: u32,
    pub ram_usage: u32,
    pub disk_space: u32,
    pub temperature: u32,
}

impl SystemMetrics {
    pub fn new(cpu_usage: u32, ram_usage: u32, disk_space: u32, temperature: u32) -> (r: SystemMetrics)
        ensures
            r == (SystemMetrics { cpu_usage, ram_usage, disk_space, temperature }),
    {
        SystemMetrics { cpu_usage, ram_usage, disk_space, temperature }
    }

    /// The payload that carries these readings for `server_id`, without timestamp.
    pub fn into_payload(self, server_id: &str) -> (r: MetricPayload)
        ensures
            r.server_id@ == server_id@,
            r.cpu_usage == self.cpu_usage,
            r.ram_usage == self.ram_usage,
            r.disk_space == self.disk_space,
            r.temperature == self.temperature,
            r.timestamp is None,
    {
        MetricPayload::new(server_id, self.cpu_usage, self.ram_usage, self.disk_space, self.temperature)
    }

    /// The payload that carries these readings for `server_id`, stamped now in
    /// Argentina time.
    pub fn into_payload_with_timestamp(self, server_id: &str) -> (r: MetricPayload)
        ensures
            r.server_id@ == server_id@,
            r.cpu_usage == self.cpu_usage,
            r.ram_usage == self.ram_usage,
            r.disk_space == self.disk_space,
            r.temperature == self.temperature,
            r.timestamp matches Some(t) && t.offset_secs == ARGENTINA_OFFSET_SECS
                && t.instant.nanos < 1_000_000_000,
    {
        MetricPayload::new_with_timestamp(
            server_id,
            self.cpu_usage,
            self.ram_usage,
            self.disk_space,
            self.temperature,
        )
    }
}

} // verus!
