use crate::models::system_metrics::SystemMetrics;
use crate::text::{contains, contains_spec};
use vstd::prelude::*;
use vstd::string::*;

verus! {

/// The servers simulated when none are named: one web, one database and one API
/// server.
pub fn default_servers() -> (r: Vec<String>)
    ensures
        r@.len() == 3,
        r@[0]@ == "server-web-01"@,
        r@[1]@ == "server-db-01"@,
        r@[2]@ == "server-api-01"@,
{
    let mut v: Vec<String> = Vec::new();
    v.push(String::from_str("server-web-01"));
    v.push(String::from_str("server-db-01"));
    v.push(String::from_str("server-api-01"));
    v
}

/// The role a simulated server plays, read from its id.
#[derive(Debug, Clone, Copy, PartialEq, Eq)]
pub enum ServerKind {
    Web,
    Db,
    Api,
    Generic,
}

/// The role of a server id: the first of `web`, `db`, `api` that it contains.
pub open spec fn server_kind_spec(server_id: Seq<char>) -> ServerKind {
    if contains_spec(server_id, "web"@) {
        ServerKind::Web
    } else if contains_spec(server_id, "db"@) {
        ServerKind::Db
    } else if contains_spec(server_id, "api"@) {
        ServerKind::Api
    } else {
        ServerKind::Generic
    }
}

/// The role of a simulated server.
pub fn server_kind(server_id: &str) -> (r: ServerKind)
    ensures
        r == server_kind_spec(server_id@),
{
    if contains(server_id, "web") {
        ServerKind::Web
    } else if contains(server_id, "db") {
        ServerKind::Db
    } else if contains(server_id, "api") {
        ServerKind::Api
    } else {
        ServerKind::Generic
    }
}

/// The typical readings of a role (`f32` bit patterns): web 45/60/40/50, db
/// 35/80/70/55, api 55/45/30/48, others 50 each (CPU, RAM, disk, temperature).
pub open spec fn base_readings_spec(kind: ServerKind) -> SystemMetrics {
    match kind {
        ServerKind::Web => SystemMetrics {
            cpu_usage: 0x4234_0000,
            ram_usage: 0x4270_0000,
            disk_space: 0x4220_0000,
            temperature: 0x4248_0000,
        },
        ServerKind::Db => SystemMetrics {
            cpu_usage: 0x420c_0000,
            ram_usage: 0x42a0_0000,
            disk_space: 0x428c_0000,
            temperature: 0x425c_0000,
        },
        ServerKind::Api => SystemMetrics {
            cpu_usage: 0x425c_0000,
            ram_usage: 0x4234_0000,
            disk_space: 0x41f0_0000,
            temperature: 0x4240_0000,
        },
        ServerKind::Generic => SystemMetrics {
            cpu_usage: 0x4248_0000,
            ram_usage: 0x4248_0000,
            disk_space: 0x4248_0000,
            temperature: 0x4248_0000,
        },
    }
}

/// The typical readings of a role, from which a simulated server's own base
/// readings are drawn.
pub fn base_readings(kind: ServerKind) -> (r: SystemMetrics)
    ensures
        r == base_readings_spec(kind),
{
    match kind {
        ServerKind::Web => SystemMetrics::new(0x4234_0000, 0x4270_0000, 0x4220_0000, 0x4248_0000),
        ServerKind::Db => SystemMetrics::new(0x420c_0000, 0x42a0_0000, 0x428c_0000, 0x425c_0000),
        ServerKind::Api => SystemMetrics::new(0x425c_0000, 0x4234_0000, 0x41f0_0000, 0x4240_0000),
        ServerKind::Generic => SystemMetrics::new(
            0x4248_0000,
            0x4248_0000,
            0x4248_0000,
            0x4248_0000,
        ),
    }
}

/// How far (`f32` bit patterns) a server's base readings may lie from its role's
/// typical readings, each way: CPU 10, RAM 15, disk 20, temperature 10.
pub fn base_spreads() -> (r: SystemMetrics)
    ensures
        r == (SystemMetrics {
            cpu_usage: 0x4120_0000,
            ram_usage: 0x4170_0000,
            disk_space: 0x41a0_0000,
            temperature: 0x4120_0000,
        }),
{
    SystemMetrics::new(0x4120_0000, 0x4170_0000, 0x41a0_0000, 0x4120_0000)
}

/// How far (`f32` bit pattern of 5.0) a reading may wander from its base each time.
pub const FLUCTUATION_SPREAD: u32 = 0x40a0_0000u32;

/// The part of the day a clock time falls in.
#[derive(Debug, Clone, Copy, PartialEq, Eq)]
pub enum TimeBand {
    /// 09:00 through 17:00.
    Business,
    /// 18:00 through 22:00.
    Evening,
    /// 23:00 through 06:00.
    Night,
    /// Any other time.
    Other,
}

/// The band of the time `hour:minute`, by minutes since midnight.
pub open spec fn time_band_spec(hour: u32, minute: u32) -> TimeBand {
    let m = hour * 60 + minute;
    if 540 <= m && m <= 1020 {
        TimeBand::Business
    } else if 1080 <= m && m <= 1320 {
        TimeBand::Evening
    } else if m >= 1380 || m <= 360 {
        TimeBand::Night
    } else {
        TimeBand::Other
    }
}

/// The band of the time `hour:minute` (with `minute < 60`); the same as testing
/// `hour + minute / 60` against 9, 17, 18, 22, 23 and 6.
pub fn time_band(hour: u32, minute: u32) -> (r: TimeBand)
    requires
        hour < 24,
        minute < 60,
    ensures
        r == time_band_spec(hour, minute),
{
    let m = hour * 60 + minute;
    if 540 <= m && m <= 1020 {
        TimeBand::Business
    } else if 1080 <= m && m <= 1320 {
        TimeBand::Evening
    } else if m >= 1380 || m <= 360 {
        TimeBand::Night
    } else {
        TimeBand::Other
    }
}

/// The shift (`f32` bit pattern) a band adds to readings: 0.3 in business hours,
/// 0.1 in the evening, -0.4 at night, 0.2 otherwise.
pub open spec fn time_factor_spec(band: TimeBand) -> u32 {
    match band {
        TimeBand::Business => 0x3e99_999a,
        TimeBand::Evening => 0x3dcc_cccd,
        TimeBand::Night => 0xbecc_cccd,
        TimeBand::Other => 0x3e4c_cccd,
    }
}

/// The shift a band adds to readings.
pub fn time_factor(band: TimeBand) -> (r: u32)
    ensures
        r == time_factor_spec(band),
{
    match band {
        TimeBand::Business => 0x3e99_999a,
        TimeBand::Evening => 0x3dcc_cccd,
        TimeBand::Night => 0xbecc_cccd,
        TimeBand::Other => 0x3e4c_cccd,
    }
}

} // verus!
