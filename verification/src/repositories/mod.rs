pub mod alerts_repository;
pub mod metrics_repository;
pub mod repository_base;
pub mod servers_repository;
