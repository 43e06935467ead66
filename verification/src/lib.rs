pub mod config;
pub mod errors;
pub mod float_bits;
pub mod models;
pub mod repositories;
pub mod services;
pub mod text;
pub mod time;
pub mod traits;

pub use errors::app_error::AppError;
