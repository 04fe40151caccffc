//! Host CPU and memory utilization diagnostics.
//!
//! The library describes the two diagnostics that it publishes, turns raw
//! gauges read from the operating system into exact utilization
//! percentages, and assembles the one-off record of host information that is
//! logged at startup. Reading the gauges and talking to a diagnostics
//! registry is left to the caller.
pub mod diagnostics;
pub mod host_info;
pub mod text;
pub mod usage;
