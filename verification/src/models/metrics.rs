use crate::errors::app_error::AppError;
use crate::float_bits::{f64_is_infinite, f64_is_infinite_spec, f64_is_nan, f64_is_nan_spec, f64_lt, f64_lt_spec};
use crate::models::server::{clone_opt_string, id_is};
use crate::repositories::repository_base::Entity;
use crate::text::{is_blank, is_blank_spec};
use crate::time::Timestamp;
use vstd::prelude::*;
use vstd::string::*;

verus! {

/// What a metric measures.
#[derive(Debug, Clone, PartialEq, Eq)]
pub enum MetricCategory {
    CPU,
    Memory,
    Disk,
    Network,
    Custom(String),
}

/// One measured value of a server. `value` is the bit pattern of an `f64`.
#[derive(Debug, Clone, PartialEq, Eq)]
pub struct Metric {
    pub id: Option<String>,
    pub name: String,
    pub value: u64,
    pub unit: String,
    pub timestamp: Timestamp,
    pub server_id: String,
    pub category: MetricCategory,
}

/// `90.0_f64.to_bits()`.
pub const NINETY: u64 = 0x4056_8000_0000_0000u64;

/// `95.0_f64.to_bits()`.
pub const NINETY_FIVE: u64 = 0x4057_c000_0000_0000u64;

/// The validation error that `Metric::new` reports, if any, in check order.
pub open spec fn metric_new_error(
    name: Seq<char>,
    value: u64,
    unit: Seq<char>,
    server_id: Seq<char>,
) -> Option<Seq<char>> {
    if is_blank_spec(name) {
        Some("Metric name cannot be empty"@)
    } else if is_blank_spec(unit) {
        Some("Metric unit cannot be empty"@)
    } else if is_blank_spec(server_id) {
        Some("Server ID cannot be empty"@)
    } else if f64_is_nan_spec(value) {
        Some("Metric value cannot be NaN"@)
    } else if f64_is_infinite_spec(value) {
        Some("Metric value cannot be infinite"@)
    } else if f64_lt_spec(value, 0) {
        Some("Metric value cannot be negative"@)
    } else {
        None
    }
}

/// A metric is critical when a CPU or disk value exceeds 90 or a memory value
/// exceeds 95; other categories never are.
pub open spec fn metric_is_critical(m: Metric) -> bool {
    match m.category {
        MetricCategory::CPU => f64_lt_spec(NINETY, m.value),
        MetricCategory::Memory => f64_lt_spec(NINETY_FIVE, m.value),
        MetricCategory::Disk => f64_lt_spec(NINETY, m.value),
        _ => false,
    }
}

/// Two categories are of the same kind (`std::mem::discriminant` equality):
/// custom categories match each other whatever their names.
pub open spec fn same_category_kind(a: MetricCategory, b: MetricCategory) -> bool {
    match (a, b) {
        (MetricCategory::CPU, MetricCategory::CPU) => true,
        (MetricCategory::Memory, MetricCategory::Memory) => true,
        (MetricCategory::Disk, MetricCategory::Disk) => true,
        (MetricCategory::Network, MetricCategory::Network) => true,
        (MetricCategory::Custom(_), MetricCategory::Custom(_)) => true,
        _ => false,
    }
}

impl MetricCategory {
    /// An exact copy.
    pub fn duplicate(&self) -> (r: MetricCategory)
        ensures
            r == *self,
    {
        match self {
            MetricCategory::CPU => MetricCategory::CPU,
            MetricCategory::Memory => MetricCategory::Memory,
            MetricCategory::Disk => MetricCategory::Disk,
            MetricCategory::Network => MetricCategory::Network,
            MetricCategory::Custom(s) => MetricCategory::Custom(s.clone()),
        }
    }

    /// Whether both categories are of the same kind.
    pub fn same_kind(&self, other: &MetricCategory) -> (r: bool)
        ensures
            r == same_category_kind(*self, *other),
    {
        match (self, other) {
            (MetricCategory::CPU, MetricCategory::CPU) => true,
            (MetricCategory::Memory, MetricCategory::Memory) => true,
            (MetricCategory::Disk, MetricCategory::Disk) => true,
            (MetricCategory::Network, MetricCategory::Network) => true,
            (MetricCategory::Custom(_), MetricCategory::Custom(_)) => true,
            _ => false,
        }
    }
}

impl Entity for Metric {
    fn duplicate(&self) -> (r: Self)
        ensures
            r == *self,
    {
        Metric {
            id: clone_opt_string(&self.id),
            name: self.name.clone(),
            value: self.value,
            unit: self.unit.clone(),
            timestamp: self.timestamp,
            server_id: self.server_id.clone(),
            category: self.category.duplicate(),
        }
    }
}

impl Metric {
    /// Validates the fields and builds a metric without id, stamped now.
    pub fn new(
        name: &str,
        value: u64,
        unit: &str,
        server_id: &str,
        category: MetricCategory,
    ) -> (r: Result<Metric, AppError>)
        ensures
            match metric_new_error(name@, value, unit@, server_id@) {
                Some(msg) => r matches Err(AppError::Validation(m)) && m@ == msg,
                None => r matches Ok(mt) && mt.id is None && mt.name@ == name@ && mt.value == value
                    && mt.unit@ == unit@ && mt.server_id@ == server_id@ && mt.category == category
                    && mt.timestamp.nanos < 1_000_000_000,
            },
    {
        let now = Timestamp::now();
        Metric::new_at(name, value, unit, server_id, category, now)
    }

    /// `Metric::new` with the instant given.
    pub fn new_at(
        name: &str,
        value: u64,
        unit: &str,
        server_id: &str,
        category: MetricCategory,
        now: Timestamp,
    ) -> (r: Result<Metric, AppError>)
        ensures
            match metric_new_error(name@, value, unit@, server_id@) {
                Some(msg) => r matches Err(AppError::Validation(m)) && m@ == msg,
                None => r matches Ok(mt) && mt.id is None && mt.name@ == name@ && mt.value == value
                    && mt.unit@ == unit@ && mt.server_id@ == server_id@ && mt.category == category
                    && mt.timestamp == now,
            },
    {
        if is_blank(name) {
            return Err(AppError::Validation(String::from_str("Metric name cannot be empty")));
        }
        if is_blank(unit) {
            return Err(AppError::Validation(String::from_str("Metric unit cannot be empty")));
        }
        if is_blank(server_id) {
            return Err(AppError::Validation(String::from_str("Server ID cannot be empty")));
        }
        if f64_is_nan(value) {
            return Err(AppError::Validation(String::from_str("Metric value cannot be NaN")));
        }
        if f64_is_infinite(value) {
            return Err(AppError::Validation(String::from_str("Metric value cannot be infinite")));
        }
        if f64_lt(value, 0) {
            return Err(AppError::Validation(String::from_str("Metric value cannot be negative")));
        }
        Ok(
            Metric {
                id: None,
                name: String::from_str(name),
                value,
                unit: String::from_str(unit),
                timestamp: now,
                server_id: String::from_str(server_id),
                category,
            },
        )
    }

    /// The same metric with its id set.
    pub fn with_id(self, id: &str) -> (r: Metric)
        ensures
            r == (Metric { id: r.id, ..self }),
            id_is(r.id, id@),
    {
        Metric { id: Some(String::from_str(id)), ..self }
    }

    /// Whether the value is past its category's critical level.
    pub fn is_critical(&self) -> (r: bool)
        ensures
            r == metric_is_critical(*self),
    {
        match self.category {
            MetricCategory::CPU => f64_lt(NINETY, self.value),
            MetricCategory::Memory => f64_lt(NINETY_FIVE, self.value),
            MetricCategory::Disk => f64_lt(NINETY, self.value),
            _ => false,
        }
    }
}

/// Only CPU, memory and disk metrics are ever critical, and a critical value is
/// a number above 90.
pub proof fn law_critical_metrics(m: Metric)
    requires
        metric_is_critical(m),
    ensures
        m.category is CPU || m.category is Memory || m.category is Disk,
        !f64_is_nan_spec(m.value),
        f64_lt_spec(NINETY, m.value),
{
}

/// Two categories are of the same kind exactly when they are the same variant:
/// CPU only with CPU, memory only with memory, disk only with disk, network only
/// with network, and a custom category with any custom category, whatever the
/// names.
pub proof fn law_same_kind_is_same_variant(a: MetricCategory, b: MetricCategory)
    ensures
        same_category_kind(a, b) <==> ((a is CPU) == (b is CPU) && (a is Memory) == (b is Memory)
            && (a is Disk) == (b is Disk) && (a is Network) == (b is Network) && (a is Custom) == (
        b is Custom)),
        same_category_kind(a, a),
        same_category_kind(a, b) == same_category_kind(b, a),
{
}

/// `Metric::new` accepts exactly the metrics whose name, unit and server id are
/// not blank and whose value is a finite number that is not below zero: the
/// non-negative finite bit patterns, `-0.0` included.
pub proof fn law_metric_accepted_exactly(name: Seq<char>, value: u64, unit: Seq<char>, server_id: Seq<char>)
    ensures
        metric_new_error(name, value, unit, server_id) is None <==> (!is_blank_spec(name)
            && !is_blank_spec(unit) && !is_blank_spec(server_id) && (value < 0x7ff0_0000_0000_0000
            || value == 0x8000_0000_0000_0000)),
{
}

} // verus!
