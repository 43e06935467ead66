pub mod app_error;
