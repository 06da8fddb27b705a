//! Prometheus metrics for the Aframp backend: the definitions of every metric,
//! their registration in one registry, and the text exposition of that registry.
//!
//! Metric names follow Prometheus naming conventions: snake_case, a unit suffix
//! where one applies, and the `aframp_` namespace prefix.

pub mod definition;
pub mod error;
pub mod prom;
pub mod registration;

pub mod http;
pub mod cngn;
pub mod payment;
pub mod stellar;
pub mod worker;
pub mod cache;
pub mod database;
pub mod analytics;

pub mod catalog;
pub mod registry;
pub mod exposition;
pub mod keys;
pub mod contents;
