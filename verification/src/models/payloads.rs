use crate::float_bits::{f32_is_finite, f32_is_finite_spec, f32_le, f32_le_spec};
use crate::text::{is_blank, is_blank_spec};
use crate::time::Timestamp;
use vstd::prelude::*;
use vstd::string::*;

verus! {

/// An instant together with the UTC offset (seconds east of UTC) of the zone it
/// is shown in: a `DateTime<FixedOffset>`.
#[derive(Debug, Clone, Copy, PartialEq, Eq)]
pub struct OffsetTimestamp {
    pub instant: Timestamp,
    pub offset_secs: i32,
}

/// The body sent for one server's readings. The four readings are `f32` bit
/// patterns (`f32::to_bits`).
#[derive(Debug, Clone, PartialEq, Eq)]
pub struct MetricPayload {
    pub server_id: String,
    pub cpu_usage: u32,
    pub ram_usage: u32,
    pub disk_space: u32,
    pub temperature: u32,
    pub timestamp: Option<OffsetTimestamp>,
}

/// The offset of Argentina (UTC-3): three hours west of UTC.
pub const ARGENTINA_OFFSET_SECS: i32 = -10800i32;

/// `100.0_f32.to_bits()`.
pub const HUNDRED_F32: u32 = 0x42c8_0000u32;

/// The text chrono gives for an instant shown at an offset with the pattern
/// `%Y-%m-%d %H:%M:%S %z`, or nothing when chrono cannot represent the instant
/// or the offset.
pub uninterp spec fn chrono_local_format(secs: i64, nanos: u32, offset_secs: i32) -> Option<Seq<char>>;

/// The last second of the year 9999 (`9999-12-31T23:59:59Z`), in seconds since
/// the epoch.
pub const LAST_SECOND_OF_9999: i64 = 253_402_300_799i64;

/// Instants from the epoch through the year 9999 with a sub-second part below one
/// second, at an offset of less than a day: chrono represents all of them.
pub open spec fn chrono_represents(secs: i64, nanos: u32, offset_secs: i32) -> bool {
    &&& 0 <= secs <= LAST_SECOND_OF_9999
    &&& nanos < 1_000_000_000
    &&& -86400 < offset_secs < 86400
}

/// Formats an instant at an offset through chrono: builds the `DateTime<Utc>`
/// (`DateTime::from_timestamp`) and the `FixedOffset` (`FixedOffset::east_opt`),
/// converts (`with_timezone`) and formats with `%Y-%m-%d %H:%M:%S %z`. The text
/// is the one `chrono_local_format` names for these arguments. `east_opt` refuses
/// offsets of a day or more, and then nothing comes back; `from_timestamp`
/// accepts every instant from the epoch through the year 9999 whose nanoseconds
/// are below one second. What the calendar text is, is left to chrono and not
/// stated here.
#[verifier::external_body]
fn format_local_timestamp(secs: i64, nanos: u32, offset_secs: i32) -> (r: Option<String>)
    ensures
        r is Some <==> chrono_local_format(secs, nanos, offset_secs) is Some,
        r matches Some(s) ==> chrono_local_format(secs, nanos, offset_secs) == Some(s@),
        !(-86400 < offset_secs < 86400) ==> r is None,
        chrono_represents(secs, nanos, offset_secs) ==> r is Some,
{
    let utc = chrono::DateTime::from_timestamp(secs, nanos)?;
    let offset = chrono::FixedOffset::east_opt(offset_secs)?;
    Some(utc.with_timezone(&offset).format("%Y-%m-%d %H:%M:%S %z").to_string())
}

/// A reading lies in `0.0..=100.0` (false for NaN).
pub open spec fn in_percent_range(v: u32) -> bool {
    f32_le_spec(0, v) && f32_le_spec(v, HUNDRED_F32)
}

/// The message `MetricPayload::validate` rejects a payload with, if any.
pub open spec fn payload_validation_error(p: MetricPayload) -> Option<Seq<char>> {
    if is_blank_spec(p.server_id@) {
        Some("server_id vacío"@)
    } else if !in_percent_range(p.cpu_usage) {
        Some("cpu_usage debe estar entre 0 y 100"@)
    } else if !in_percent_range(p.ram_usage) {
        Some("ram_usage debe estar entre 0 y 100"@)
    } else if !in_percent_range(p.disk_space) {
        Some("disk_space debe estar entre 0 y 100"@)
    } else if !(f32_is_finite_spec(p.cpu_usage) && f32_is_finite_spec(p.ram_usage)
        && f32_is_finite_spec(p.disk_space) && f32_is_finite_spec(p.temperature)) {
        Some("Los valores no pueden ser NaN o infinitos"@)
    } else {
        None
    }
}

fn in_percent(v: u32) -> (r: bool)
    ensures
        r == in_percent_range(v),
{
    f32_le(0, v) && f32_le(v, HUNDRED_F32)
}

impl MetricPayload {
    /// A payload without timestamp.
    pub fn new(
        server_id: &str,
        cpu_usage: u32,
        ram_usage: u32,
        disk_space: u32,
        temperature: u32,
    ) -> (r: MetricPayload)
        ensures
            r.server_id@ == server_id@,
            r.cpu_usage == cpu_usage,
            r.ram_usage == ram_usage,
            r.disk_space == disk_space,
            r.temperature == temperature,
            r.timestamp is None,
    {
        MetricPayload {
            server_id: String::from_str(server_id),
            cpu_usage,
            ram_usage,
            disk_space,
            temperature,
            timestamp: None,
        }
    }

    /// A payload stamped with the current instant, shown in Argentina time.
    pub fn new_with_timestamp(
        server_id: &str,
        cpu_usage: u32,
        ram_usage: u32,
        disk_space: u32,
        temperature: u32,
    ) -> (r: MetricPayload)
        ensures
            r.server_id@ == server_id@,
            r.cpu_usage == cpu_usage,
            r.ram_usage == ram_usage,
            r.disk_space == disk_space,
            r.temperature == temperature,
            r.timestamp matches Some(t) && t.offset_secs == ARGENTINA_OFFSET_SECS
                && t.instant.nanos < 1_000_000_000,
    {
        let now = Timestamp::now();
        MetricPayload::new_with_timestamp_at(server_id, cpu_usage, ram_usage, disk_space, temperature, now)
    }

    /// `new_with_timestamp` with the instant given.
    pub fn new_with_timestamp_at(
        server_id: &str,
        cpu_usage: u32,
        ram_usage: u32,
        disk_space: u32,
        temperature: u32,
        now: Timestamp,
    ) -> (r: MetricPayload)
        ensures
            r.server_id@ == server_id@,
            r.cpu_usage == cpu_usage,
            r.ram_usage == ram_usage,
            r.disk_space == disk_space,
            r.temperature == temperature,
            r.timestamp == Some(OffsetTimestamp { instant: now, offset_secs: ARGENTINA_OFFSET_SECS }),
    {
        MetricPayload {
            server_id: String::from_str(server_id),
            cpu_usage,
            ram_usage,
            disk_space,
            temperature,
            timestamp: Some(OffsetTimestamp { instant: now, offset_secs: ARGENTINA_OFFSET_SECS }),
        }
    }

    /// The timestamp as local text (`%Y-%m-%d %H:%M:%S %z`), if there is one.
    pub fn formatted_timestamp(&self) -> (r: Option<String>)
        ensures
            match self.timestamp {
                None => r is None,
                Some(t) => (r is Some <==> chrono_local_format(
                    t.instant.secs,
                    t.instant.nanos,
                    t.offset_secs,
                ) is Some) && (r matches Some(s) ==> chrono_local_format(
                    t.instant.secs,
                    t.instant.nanos,
                    t.offset_secs,
                ) == Some(s@)) && (chrono_represents(t.instant.secs, t.instant.nanos, t.offset_secs)
                    ==> r is Some),
            },
    {
        match self.timestamp {
            None => None,
            Some(t) => format_local_timestamp(t.instant.secs, t.instant.nanos, t.offset_secs),
        }
    }

    /// Checks the payload before it is sent: a non-blank server id, CPU, RAM and
    /// disk readings in `0..=100`, and finite readings.
    pub fn validate(&self) -> (r: Result<(), String>)
        ensures
            match payload_validation_error(*self) {
                Some(msg) => r matches Err(e) && e@ == msg,
                None => r is Ok,
            },
    {
        if is_blank(self.server_id.as_str()) {
            return Err(String::from_str("server_id vacío"));
        }
        if !in_percent(self.cpu_usage) {
            return Err(String::from_str("cpu_usage debe estar entre 0 y 100"));
        }
        if !in_percent(self.ram_usage) {
            return Err(String::from_str("ram_usage debe estar entre 0 y 100"));
        }
        if !in_percent(self.disk_space) {
            return Err(String::from_str("disk_space debe estar entre 0 y 100"));
        }
        if !f32_is_finite(self.cpu_usage) || !f32_is_finite(self.ram_usage) || !f32_is_finite(
            self.disk_space,
        ) || !f32_is_finite(self.temperature) {
            return Err(String::from_str("Los valores no pueden ser NaN o infinitos"));
        }
        Ok(())
    }
}

/// A reading within `0..=100` is finite, so of the readings only the
/// temperature can fail the finiteness check of a payload whose percentages
/// passed theirs.
pub proof fn law_percent_readings_are_finite(v: u32)
    requires
        in_percent_range(v),
    ensures
        f32_is_finite_spec(v),
{
}

/// A reading lies in `0.0..=100.0` exactly when its bit pattern is that of a
/// number from `+0.0` through `100.0`, or is `-0.0`.
pub proof fn law_percent_range_bits(v: u32)
    ensures
        in_percent_range(v) <==> (v <= 0x42c8_0000 || v == 0x8000_0000),
{
}

/// `validate` accepts exactly the payloads whose server id is not blank, whose
/// CPU, RAM and disk readings each lie in `0.0..=100.0`, and whose temperature is
/// finite.
pub proof fn law_payload_accepted_exactly(p: MetricPayload)
    ensures
        payload_validation_error(p) is None <==> (!is_blank_spec(p.server_id@) && (p.cpu_usage
            <= 0x42c8_0000 || p.cpu_usage == 0x8000_0000) && (p.ram_usage <= 0x42c8_0000
            || p.ram_usage == 0x8000_0000) && (p.disk_space <= 0x42c8_0000 || p.disk_space
            == 0x8000_0000) && f32_is_finite_spec(p.temperature)),
{
    law_percent_range_bits(p.cpu_usage);
    law_percent_range_bits(p.ram_usage);
    law_percent_range_bits(p.disk_space);
}

} // verus!
