//! Host CPU and memory gauges, published by one sampling loop and read
//! without blocking by any number of readers.
//!
//! A gauge is an integer in [0, 10000]: a percentage with two decimals
//! (4567 is 45.67%).

pub mod gauge;
pub mod stats;

pub use gauge::{cpu_gauge, memory_gauge, within_scale, GAUGE_MAX};
pub use stats::SystemStats;
