//! The configuration and reporting logic of an nginx module that sends a
//! record of Istio attributes for every request to a Kafka topic.
pub mod atoi;
pub mod attributes;
pub mod byte_map;
pub mod bytes;
pub mod config;
pub mod laws;
pub mod report;
