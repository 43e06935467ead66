use crate::errors::app_error::AppError;
use vstd::prelude::*;

verus! {

/// Where metric payloads are posted.
pub const METRICS_ENDPOINT: &'static str = "/metrics";

/// Where the backend answers health checks.
pub const HEALTH_ENDPOINT: &'static str = "/health";

/// One step of sending a batch: after `sent` items went out, the outcome of the
/// next send either counts one more item or stops the batch with its error.
pub fn count_sent(sent: usize, outcome: Result<(), AppError>) -> (r: Result<usize, AppError>)
    requires
        sent < usize::MAX,
    ensures
        match outcome {
            Ok(()) => r == Ok::<usize, AppError>((sent + 1) as usize),
            Err(e) => r == Err::<usize, AppError>(e),
        },
{
    match outcome {
        Ok(()) => Ok(sent + 1),
        Err(e) => Err(e),
    }
}

} // verus!
