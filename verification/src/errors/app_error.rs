use vstd::prelude::*;
use vstd::string::*;

verus! {

/// Errors reported by the agent.
#[derive(Debug, Clone, PartialEq, Eq)]
pub enum AppError {
    Metrics(String),
    Validation(String),
    NotFound(String),
    RequestError(String),
}

/// The text shown for an error: a fixed prefix per kind, then the detail.
pub open spec fn spec_error_message(e: AppError) -> Seq<char> {
    match e {
        AppError::Metrics(d) => "Error de métricas: "@ + d@,
        AppError::Validation(d) => "Error de validación: "@ + d@,
        AppError::NotFound(d) => "Recurso no encontrado: "@ + d@,
        AppError::RequestError(d) => "Error de solicitud HTTP: "@ + d@,
    }
}

impl AppError {
    /// The error's display text.
    pub fn message(&self) -> (r: String)
        ensures
            r@ == spec_error_message(*self),
    {
        match self {
            AppError::Metrics(d) => String::from_str("Error de métricas: ").concat(d.as_str()),
            AppError::Validation(d) => String::from_str("Error de validación: ").concat(d.as_str()),
            AppError::NotFound(d) => String::from_str("Recurso no encontrado: ").concat(d.as_str()),
            AppError::RequestError(d) => String::from_str("Error de solicitud HTTP: ").concat(
                d.as_str(),
            ),
        }
    }
}

} // verus!
