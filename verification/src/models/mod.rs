pub mod alert;
pub mod metrics;
pub mod payloads;
pub mod server;
pub mod system_metrics;
