//! Points in time, held as seconds and nanoseconds since the Unix epoch (UTC).
use vstd::prelude::*;

verus! {

/// An instant: whole seconds since 1970-01-01T00:00:00Z and the nanoseconds
/// past that second. Values read from the clock have `nanos < 1_000_000_000`.
#[derive(Debug, Clone, Copy, PartialEq, Eq, PartialOrd, Ord, Hash)]
pub struct Timestamp {
    pub secs: i64,
    pub nanos: u32,
}

pub const NANOS_PER_SEC: i128 = 1_000_000_000i128;

/// Division rounding toward zero, as Rust's `/` on signed integers does.
pub open spec fn trunc_div(a: int, b: int) -> int
    recommends
        b > 0,
{
    if a >= 0 {
        a / b
    } else {
        -((-a) / b)
    }
}

/// The signed number of nanoseconds from `earlier` to `later`.
pub open spec fn nanos_between(later: Timestamp, earlier: Timestamp) -> int {
    (later.secs - earlier.secs) * 1_000_000_000 + (later.nanos - earlier.nanos)
}

/// `later.signed_duration_since(earlier).num_minutes()`: the span in whole
/// seconds (rounded toward zero), then in whole minutes (rounded toward zero).
pub open spec fn whole_minutes_between(later: Timestamp, earlier: Timestamp) -> int {
    trunc_div(trunc_div(nanos_between(later, earlier), 1_000_000_000), 60)
}

#[verifier::external_type_specification]
#[verifier::external_body]
pub struct ExSystemTime(std::time::SystemTime);

/// The system clock now (`SystemTime::now`). Which instant it reads is the
/// clock's and not stated.
#[verifier::external_body]
pub fn system_time_now() -> std::time::SystemTime {
    std::time::SystemTime::now()
}

/// How far `t` lies from the Unix epoch (`t.duration_since(UNIX_EPOCH)`), as
/// whole seconds and the nanoseconds past them: `Ok` when `t` is at or after the
/// epoch, `Err` with the distance (`SystemTimeError::duration`) when it lies
/// before. A `Duration`'s sub-second nanoseconds are always below one second.
/// No relation to `t` is stated, `SystemTime` being opaque here.
#[verifier::external_body]
pub fn since_epoch(t: std::time::SystemTime) -> (r: Result<(u64, u32), (u64, u32)>)
    ensures
        match r {
            Ok((_, n)) => n < 1_000_000_000,
            Err((_, n)) => n < 1_000_000_000,
        },
{
    match t.duration_since(std::time::UNIX_EPOCH) {
        Ok(d) => Ok((d.as_secs(), d.subsec_nanos())),
        Err(e) => Err((e.duration().as_secs(), e.duration().subsec_nanos())),
    }
}

/// The nanoseconds from the epoch to an instant (negative before it).
pub open spec fn instant_nanos(t: Timestamp) -> int {
    t.secs * 1_000_000_000 + t.nanos
}

/// The signed nanoseconds from the epoch that a clock reading gives: `Ok((s, n))`
/// lies that far after the epoch, `Err((s, n))` that far before it.
pub open spec fn clock_nanos(reading: Result<(u64, u32), (u64, u32)>) -> int {
    match reading {
        Ok((s, n)) => s * 1_000_000_000 + n,
        Err((s, n)) => -(s * 1_000_000_000 + n),
    }
}

/// The first instant a `Timestamp` can hold.
pub open spec fn earliest_instant() -> Timestamp {
    Timestamp { secs: i64::MIN, nanos: 0 }
}

/// The last instant a `Timestamp` can hold with `nanos` below one second.
pub open spec fn latest_instant() -> Timestamp {
    Timestamp { secs: i64::MAX, nanos: 999_999_999 }
}

/// The instant of a clock reading: exactly the reading where a `Timestamp` can
/// hold it (with `nanos` below one second), otherwise the nearest end of that
/// range.
pub fn instant_from_clock(reading: Result<(u64, u32), (u64, u32)>) -> (t: Timestamp)
    ensures
        t.nanos < 1_000_000_000,
        instant_nanos(earliest_instant()) <= clock_nanos(reading) <= instant_nanos(latest_instant())
            ==> instant_nanos(t) == clock_nanos(reading),
        clock_nanos(reading) < instant_nanos(earliest_instant()) ==> t == earliest_instant(),
        clock_nanos(reading) > instant_nanos(latest_instant()) ==> t == latest_instant(),
{
    let off: i128 = match reading {
        Ok((s, n)) => s as i128 * NANOS_PER_SEC + n as i128,
        Err((s, n)) => -(s as i128 * NANOS_PER_SEC + n as i128),
    };
    assert(off == clock_nanos(reading));
    let lo: i128 = i64::MIN as i128 * NANOS_PER_SEC;
    let hi: i128 = i64::MAX as i128 * NANOS_PER_SEC + 999_999_999;
    assert(lo == instant_nanos(earliest_instant()));
    assert(hi == instant_nanos(latest_instant()));
    if off < lo {
        return Timestamp { secs: i64::MIN, nanos: 0 };
    }
    if off > hi {
        return Timestamp { secs: i64::MAX, nanos: 999_999_999 };
    }
    if off >= 0 {
        let q: i128 = off / NANOS_PER_SEC;
        let r: i128 = off % NANOS_PER_SEC;
        assert(q * 1_000_000_000 + r == off && 0 <= r < 1_000_000_000) by (nonlinear_arith)
            requires
                q == off / 1_000_000_000,
                r == off % 1_000_000_000,
                off >= 0,
        ;
        assert(q <= i64::MAX) by (nonlinear_arith)
            requires
                q * 1_000_000_000 + r == off,
                0 <= r,
                off <= i64::MAX * 1_000_000_000 + 999_999_999,
        ;
        Timestamp { secs: q as i64, nanos: r as u32 }
    } else {
        let a: i128 = -off;
        let q0: i128 = a / NANOS_PER_SEC;
        let r0: i128 = a % NANOS_PER_SEC;
        assert(q0 * 1_000_000_000 + r0 == a && 0 <= r0 < 1_000_000_000) by (nonlinear_arith)
            requires
                q0 == a / 1_000_000_000,
                r0 == a % 1_000_000_000,
                a > 0,
        ;
        if r0 == 0 {
            assert(q0 <= -(i64::MIN as int)) by (nonlinear_arith)
                requires
                    q0 * 1_000_000_000 == a,
                    a <= -(i64::MIN * 1_000_000_000),
            ;
            if q0 == -(i64::MIN as i128) {
                Timestamp { secs: i64::MIN, nanos: 0 }
            } else {
                Timestamp { secs: -(q0 as i64), nanos: 0 }
            }
        } else {
            assert(q0 + 1 <= -(i64::MIN as int)) by (nonlinear_arith)
                requires
                    q0 * 1_000_000_000 + r0 == a,
                    0 < r0 < 1_000_000_000,
                    a <= -(i64::MIN * 1_000_000_000),
            ;
            let secs: i128 = -q0 - 1;
            Timestamp { secs: secs as i64, nanos: (NANOS_PER_SEC - r0) as u32 }
        }
    }
}

impl Timestamp {
    /// The current instant by the system clock, on either side of the epoch.
    pub fn now() -> (t: Timestamp)
        ensures
            t.nanos < 1_000_000_000,
    {
        instant_from_clock(since_epoch(system_time_now()))
    }
}

/// Rust's `/` on a non-negative divisor, rounding toward zero.
fn div_toward_zero(a: i128, b: i128) -> (q: i128)
    requires
        b > 0,
        a > i128::MIN,
    ensures
        q == trunc_div(a as int, b as int),
{
    if a >= 0 {
        a / b
    } else {
        -((-a) / b)
    }
}

/// Whole minutes from `earlier` to `later`, as `TimeDelta::num_minutes` counts them.
pub fn minutes_between(later: Timestamp, earlier: Timestamp) -> (m: i128)
    ensures
        m == whole_minutes_between(later, earlier),
{
    let secs: i128 = later.secs as i128 - earlier.secs as i128;
    let nanos: i128 = later.nanos as i128 - earlier.nanos as i128;
    assert(-0x1_0000_0000_0000_0000 <= secs <= 0x1_0000_0000_0000_0000);
    let total: i128 = secs * NANOS_PER_SEC + nanos;
    let whole_secs = div_toward_zero(total, NANOS_PER_SEC);
    div_toward_zero(whole_secs, 60)
}

} // verus!
