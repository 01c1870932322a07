//! A periodic disk-capacity monitor: volume statistics, check methods,
//! configuration, per-target check managers and the decisions of the polling loop.
pub mod check_method;
pub mod configs;
pub mod file_config;
pub mod manager;
pub mod ratio;
pub mod scheduler;
pub mod stats;
pub mod text;
