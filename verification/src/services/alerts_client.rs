use crate::errors::app_error::AppError;
use crate::models::alert::Alert;
use crate::text::{is_blank, is_blank_spec};
use vstd::prelude::*;
use vstd::string::*;

verus! {

/// Where alerts are posted.
pub const ALERTS_ENDPOINT: &'static str = "/alerts";

/// The message an alert is refused with before it is sent, if any: a blank
/// server id, then a blank metric type.
pub open spec fn alert_send_error(a: Alert) -> Option<Seq<char>> {
    if is_blank_spec(a.server_id@) {
        Some("alert.server_id vacío"@)
    } else if is_blank_spec(a.metric_type@) {
        Some("alert.metric_type vacío"@)
    } else {
        None
    }
}

/// The check an alert passes before it is sent.
pub fn check_alert(alert: &Alert) -> (r: Result<(), AppError>)
    ensures
        match alert_send_error(*alert) {
            Some(msg) => r matches Err(AppError::Validation(m)) && m@ == msg,
            None => r is Ok,
        },
{
    if is_blank(alert.server_id.as_str()) {
        return Err(AppError::Validation(String::from_str("alert.server_id vacío")));
    }
    if is_blank(alert.metric_type.as_str()) {
        return Err(AppError::Validation(String::from_str("alert.metric_type vacío")));
    }
    Ok(())
}

} // verus!
