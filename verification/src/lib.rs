//! Memory utilization analysis for workloads: pairs each workload's requested
//! memory with its observed usage, averages the utilization, sorts every
//! workload into a band, and drives the state of an interactive table over
//! the result.

pub mod band;
pub mod correlate;
pub mod interval;
pub mod models;
pub mod sequences;
pub mod text;
pub mod tui;
