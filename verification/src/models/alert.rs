use crate::errors::app_error::AppError;
use crate::float_bits::{f64_is_infinite, f64_is_infinite_spec, f64_is_nan, f64_is_nan_spec, f64_le, f64_le_spec, f64_lt, f64_lt_spec};
use crate::models::server::{clone_opt_string, id_is};
use crate::repositories::repository_base::Entity;
use crate::text::{is_blank, is_blank_spec};
use crate::time::Timestamp;
use vstd::prelude::*;
use vstd::string::*;

verus! {

/// How a metric value is compared with an alert's threshold.
#[derive(Debug, Clone, Copy, PartialEq, Eq)]
pub enum AlertCondition {
    GreaterThan,
    GreaterOrEqual,
    LessThan,
    LessOrEqual,
}

/// An alert rule on one metric of one server. `threshold` is the bit pattern of
/// an `f64` (`f64::to_bits`).
#[derive(Debug, Clone, PartialEq, Eq)]
pub struct Alert {
    pub id: Option<String>,
    pub server_id: String,
    pub metric_type: String,
    pub threshold: u64,
    pub condition: AlertCondition,
    pub created_at: Timestamp,
    pub is_active: bool,
}

/// The validation error that `Alert::new` reports, if any, in the order the
/// checks are made.
pub open spec fn alert_new_error(server_id: Seq<char>, metric_type: Seq<char>, threshold: u64) -> Option<
    Seq<char>,
> {
    if is_blank_spec(server_id) {
        Some("Server ID cannot be empty"@)
    } else if is_blank_spec(metric_type) {
        Some("Metric type cannot be empty"@)
    } else if f64_is_nan_spec(threshold) {
        Some("Threshold cannot be NaN"@)
    } else if f64_is_infinite_spec(threshold) {
        Some("Threshold cannot be infinite"@)
    } else if f64_lt_spec(threshold, 0) {
        Some("Threshold cannot be negative"@)
    } else {
        None
    }
}

/// Whether an alert fires for `value` (an `f64` bit pattern): only active alerts
/// fire, and then when the value stands to the threshold as the condition says.
pub open spec fn alert_triggers(a: Alert, value: u64) -> bool {
    a.is_active && match a.condition {
        AlertCondition::GreaterThan => f64_lt_spec(a.threshold, value),
        AlertCondition::GreaterOrEqual => f64_le_spec(a.threshold, value),
        AlertCondition::LessThan => f64_lt_spec(value, a.threshold),
        AlertCondition::LessOrEqual => f64_le_spec(value, a.threshold),
    }
}

impl Entity for Alert {
    fn duplicate(&self) -> (r: Self)
        ensures
            r == *self,
    {
        Alert {
            id: clone_opt_string(&self.id),
            server_id: self.server_id.clone(),
            metric_type: self.metric_type.clone(),
            threshold: self.threshold,
            condition: self.condition,
            created_at: self.created_at,
            is_active: self.is_active,
        }
    }
}

impl Alert {
    /// Validates the fields and builds an active alert without id, created now.
    pub fn new(server_id: &str, metric_type: &str, threshold: u64, condition: AlertCondition) -> (r:
        Result<Alert, AppError>)
        ensures
            match alert_new_error(server_id@, metric_type@, threshold) {
                Some(msg) => r matches Err(AppError::Validation(m)) && m@ == msg,
                None => r matches Ok(a) && a.id is None && a.server_id@ == server_id@
                    && a.metric_type@ == metric_type@ && a.threshold == threshold && a.condition
                    == condition && a.created_at.nanos < 1_000_000_000
                    && a.is_active,
            },
    {
        let now = Timestamp::now();
        Alert::new_at(server_id, metric_type, threshold, condition, now)
    }

    /// `Alert::new` with the creation instant given.
    pub fn new_at(
        server_id: &str,
        metric_type: &str,
        threshold: u64,
        condition: AlertCondition,
        now: Timestamp,
    ) -> (r: Result<Alert, AppError>)
        ensures
            match alert_new_error(server_id@, metric_type@, threshold) {
                Some(msg) => r matches Err(AppError::Validation(m)) && m@ == msg,
                None => r matches Ok(a) && a.id is None && a.server_id@ == server_id@
                    && a.metric_type@ == metric_type@ && a.threshold == threshold && a.condition
                    == condition && a.created_at == now && a.is_active,
            },
    {
        if is_blank(server_id) {
            return Err(AppError::Validation(String::from_str("Server ID cannot be empty")));
        }
        if is_blank(metric_type) {
            return Err(AppError::Validation(String::from_str("Metric type cannot be empty")));
        }
        if f64_is_nan(threshold) {
            return Err(AppError::Validation(String::from_str("Threshold cannot be NaN")));
        }
        if f64_is_infinite(threshold) {
            return Err(AppError::Validation(String::from_str("Threshold cannot be infinite")));
        }
        if f64_lt(threshold, 0) {
            return Err(AppError::Validation(String::from_str("Threshold cannot be negative")));
        }
        Ok(
            Alert {
                id: None,
                server_id: String::from_str(server_id),
                metric_type: String::from_str(metric_type),
                threshold,
                condition,
                created_at: now,
                is_active: true,
            },
        )
    }

    /// The same alert with its id set.
    pub fn with_id(self, id: &str) -> (r: Alert)
        ensures
            r == (Alert { id: r.id, ..self }),
            id_is(r.id, id@),
    {
        Alert { id: Some(String::from_str(id)), ..self }
    }

    /// Switches the alert off.
    pub fn deactivate(&mut self)
        ensures
            *final(self) == (Alert { is_active: false, ..*old(self) }),
    {
        self.is_active = false;
    }

    /// Switches the alert on.
    pub fn activate(&mut self)
        ensures
            *final(self) == (Alert { is_active: true, ..*old(self) }),
    {
        self.is_active = true;
    }

    /// Whether the alert fires for `metric_value` (an `f64` bit pattern).
    pub fn should_trigger(&self, metric_value: u64) -> (r: bool)
        ensures
            r == alert_triggers(*self, metric_value),
    {
        if !self.is_active {
            return false;
        }
        match self.condition {
            AlertCondition::GreaterThan => f64_lt(self.threshold, metric_value),
            AlertCondition::GreaterOrEqual => f64_le(self.threshold, metric_value),
            AlertCondition::LessThan => f64_lt(metric_value, self.threshold),
            AlertCondition::LessOrEqual => f64_le(metric_value, self.threshold),
        }
    }
}

/// An inactive alert fires for no value.
pub proof fn law_inactive_alert_never_triggers(a: Alert, value: u64)
    requires
        !a.is_active,
    ensures
        !alert_triggers(a, value),
{
}

/// When neither the value nor the threshold is NaN, an active `GreaterThan`
/// alert fires exactly when the same alert with `LessOrEqual` does not, and
/// `GreaterOrEqual` exactly when `LessThan` does not.
pub proof fn law_opposite_conditions(a: Alert, value: u64)
    requires
        a.is_active,
        !f64_is_nan_spec(a.threshold),
        !f64_is_nan_spec(value),
    ensures
        alert_triggers(Alert { condition: AlertCondition::GreaterThan, ..a }, value) == !alert_triggers(
            Alert { condition: AlertCondition::LessOrEqual, ..a },
            value,
        ),
        alert_triggers(Alert { condition: AlertCondition::GreaterOrEqual, ..a }, value)
            == !alert_triggers(Alert { condition: AlertCondition::LessThan, ..a }, value),
{
}

/// Switching an active alert off and on again gives it back unchanged.
pub proof fn law_deactivate_then_activate(a: Alert)
    requires
        a.is_active,
    ensures
        (Alert { is_active: true, ..Alert { is_active: false, ..a } }) == a,
{
}

/// `Alert::new` accepts exactly the alerts whose server id and metric type are
/// not blank and whose threshold is a finite number that is not below zero: the
/// non-negative finite bit patterns, `-0.0` included.
pub proof fn law_alert_accepted_exactly(server_id: Seq<char>, metric_type: Seq<char>, threshold: u64)
    ensures
        alert_new_error(server_id, metric_type, threshold) is None <==> (!is_blank_spec(server_id)
            && !is_blank_spec(metric_type) && (threshold < 0x7ff0_0000_0000_0000 || threshold
            == 0x8000_0000_0000_0000)),
{
}

/// An active alert fires for a value exactly as the numbers compare: above the
/// threshold for `GreaterThan`, at or above for `GreaterOrEqual`, below for
/// `LessThan`, at or below for `LessOrEqual`, with `f64` order and never for NaN.
pub proof fn law_alert_fires_by_order(a: Alert, value: u64)
    requires
        a.is_active,
    ensures
        a.condition is GreaterThan ==> (alert_triggers(a, value) <==> f64_lt_spec(a.threshold, value)),
        a.condition is GreaterOrEqual ==> (alert_triggers(a, value) <==> f64_le_spec(a.threshold, value)),
        a.condition is LessThan ==> (alert_triggers(a, value) <==> f64_lt_spec(value, a.threshold)),
        a.condition is LessOrEqual ==> (alert_triggers(a, value) <==> f64_le_spec(value, a.threshold)),
        f64_is_nan_spec(value) ==> !alert_triggers(a, value),
{
}

} // verus!
