//! Kafka helpers shared by the controller and its tests: configuration, errors, messages,
//! Strimzi topics and readiness checks.

pub mod client_config;
pub mod config;
pub mod error;
pub mod message;
pub mod readiness;
pub mod topic;
