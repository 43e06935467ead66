use crate::time::{since_epoch, system_time_now};
use vstd::prelude::*;
use vstd::string::*;

verus! {

/// A reading of the local machine: server id, Unix time in seconds, CPU use and
/// RAM use (`f64` bit patterns).
#[derive(Debug, Clone, PartialEq, Eq)]
pub struct Metrica {
    pub servidor_id: String,
    pub timestamp: u64,
    pub cpu_usage: u64,
    pub ram_usage: u64,
}

/// `15.5_f64.to_bits()`.
pub const SAMPLE_CPU_USAGE: u64 = 0x402f_0000_0000_0000u64;

/// `2048.0_f64.to_bits()`.
pub const SAMPLE_RAM_USAGE: u64 = 0x40a0_0000_0000_0000u64;

/// The fixed sample reading for `servidor-ejemplo-01` (15.5 % CPU, 2048 MB RAM)
/// stamped with `timestamp`.
pub fn metrica_at(timestamp: u64) -> (r: Metrica)
    ensures
        r.servidor_id@ == "servidor-ejemplo-01"@,
        r.timestamp == timestamp,
        r.cpu_usage == SAMPLE_CPU_USAGE,
        r.ram_usage == SAMPLE_RAM_USAGE,
{
    Metrica {
        servidor_id: String::from_str("servidor-ejemplo-01"),
        timestamp,
        cpu_usage: SAMPLE_CPU_USAGE,
        ram_usage: SAMPLE_RAM_USAGE,
    }
}

/// The fixed sample reading stamped with the current Unix time; the time is 0
/// if the clock reads before the epoch.
pub fn recolectar_metricas() -> (r: Metrica)
    ensures
        r.servidor_id@ == "servidor-ejemplo-01"@,
        r.cpu_usage == SAMPLE_CPU_USAGE,
        r.ram_usage == SAMPLE_RAM_USAGE,
{
    let timestamp_actual = match since_epoch(system_time_now()) {
        Ok((secs, _)) => secs,
        Err(_) => 0,
    };
    metrica_at(timestamp_actual)
}

} // verus!
