pub mod alerts_client;
pub mod client;
pub mod fake_monitor;
pub mod http_client_base;
pub mod metrics;
pub mod multi_server_service;
